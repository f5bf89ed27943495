//! The cache: its indices, their mathematical view, the invariant that ties
//! them together, and the read operations.
use vstd::prelude::*;
use std::collections::{HashMap, HashSet};
use std::sync::Arc;
use crate::config::Config;
use crate::id::{channel_raw, guild_raw, user_raw, role_raw, emoji_raw, pair_key, ChannelId, EmojiId, GuildId, MessageId, RoleId, UserId, guild_user_key};
use crate::index::{sets_view, set_elements, pair_set_elements, map_keys};
use crate::model::{
    CachedEmoji, CachedGuild, CachedMember, CachedMessage, CachedPresence, CurrentUser, Group,
    GuildChannel, PrivateChannel, Role, Snapshot, User, VoiceState,
};

pub mod channels;
pub mod events;
pub mod guilds;
pub mod laws;
pub mod members;
pub mod messages;
pub mod voice;

verus! {

broadcast use vstd::std_specs::hash::group_hash_axioms;

/// Relies on `Arc::clone`: the new handle points to the same allocation,
/// so it holds the same value.
#[verifier::external_body]
pub(crate) fn share<T>(a: &Arc<T>) -> (r: Arc<T>)
    ensures
        *r == **a,
{
    Arc::clone(a)
}

/// The map after `v` is stored under `k`, unless the record there already
/// holds the same data.
pub open spec fn item_upserted<V: Snapshot>(m: Map<u64, V>, k: u64, v: V) -> Map<u64, V> {
    if m.contains_key(k) && m[k].same(&v) {
        m
    } else {
        m.insert(k, v)
    }
}

/// The map after `v`, owned by guild `g`, is stored under `k`, unless the
/// record there already holds the same data (its owner is then kept).
pub open spec fn guild_item_upserted<V: Snapshot>(m: Map<u64, (GuildId, V)>, g: GuildId, k: u64, v: V) -> Map<u64, (GuildId, V)> {
    if m.contains_key(k) && m[k].1.same(&v) {
        m
    } else {
        m.insert(k, (g, v))
    }
}

/// Stores `v` under `k` unless the record there already holds the same
/// data, and returns the handle now held under `k`.
pub fn upsert_item<V: Snapshot>(map: &mut HashMap<u64, Arc<V>>, k: u64, v: V) -> (r: Arc<V>)
    ensures
        unshare(final(map)@) == item_upserted(unshare(old(map)@), k, v),
        final(map)@.contains_key(k),
        *r == *final(map)@[k],
{
    if let Some(held) = map.get(&k) {
        if held.same_as(&v) {
            return share(held);
        }
    }
    let ghost m0 = unshare(map@);
    let r = Arc::new(v);
    map.insert(k, share(&r));
    assert(unshare(map@) =~= m0.insert(k, v));
    r
}

/// Stores `v`, owned by guild `guild_id`, under `k` unless the record there
/// already holds the same data, and returns the handle now held under `k`.
pub fn upsert_guild_item<V: Snapshot>(map: &mut HashMap<u64, GuildItem<V>>, guild_id: GuildId, k: u64, v: V) -> (r: Arc<V>)
    ensures
        items_view(final(map)@) == guild_item_upserted(items_view(old(map)@), guild_id, k, v),
        final(map)@.contains_key(k),
        *r == *final(map)@[k].data,
{
    if let Some(held) = map.get(&k) {
        if held.data.same_as(&v) {
            return share(&held.data);
        }
    }
    let ghost m0 = items_view(map@);
    let r = Arc::new(v);
    map.insert(k, GuildItem { data: share(&r), guild_id });
    assert(items_view(map@) =~= m0.insert(k, (guild_id, v)));
    r
}

/// A record that belongs to a guild, stored with the guild's identifier.
pub struct GuildItem<T> {
    pub data: Arc<T>,
    pub guild_id: GuildId,
}

/// A cached user and the guilds whose member lists hold it.
pub struct UserEntry {
    pub user: Arc<User>,
    pub guilds: HashSet<u64>,
}

/// The mathematical view of the cache: every index as a map or a set.
/// A (guild, user) pair is keyed by [`pair_key`].
pub struct CacheView {
    pub config: Config,
    pub channels_guild: Map<u64, (GuildId, GuildChannel)>,
    pub channels_private: Map<u64, PrivateChannel>,
    pub current_user: Option<CurrentUser>,
    pub emojis: Map<u64, (GuildId, CachedEmoji)>,
    pub groups: Map<u64, Group>,
    pub guilds: Map<u64, CachedGuild>,
    pub guild_channels: Map<u64, Set<u64>>,
    pub guild_emojis: Map<u64, Set<u64>>,
    pub guild_members: Map<u64, Set<u64>>,
    pub guild_presences: Map<u64, Set<u64>>,
    pub guild_roles: Map<u64, Set<u64>>,
    pub members: Map<u128, CachedMember>,
    pub messages: Map<u64, Seq<CachedMessage>>,
    pub presences: Map<u128, CachedPresence>,
    pub roles: Map<u64, (GuildId, Role)>,
    pub unavailable_guilds: Set<u64>,
    pub users: Map<u64, (User, Set<u64>)>,
    pub voice_state_channels: Map<u64, Set<u128>>,
    pub voice_state_guilds: Map<u64, Set<u64>>,
    pub voice_states: Map<u128, VoiceState>,
}

/// Strips the handles off a map of shared records.
pub open spec fn unshare<K, T>(m: Map<K, Arc<T>>) -> Map<K, T> {
    m.map_values(|a: Arc<T>| *a)
}

/// Strips the handles off a map of guild items.
pub open spec fn items_view<T>(m: Map<u64, GuildItem<T>>) -> Map<u64, (GuildId, T)> {
    m.map_values(|i: GuildItem<T>| (i.guild_id, *i.data))
}

/// The view of the user index.
pub open spec fn users_view(m: Map<u64, UserEntry>) -> Map<u64, (User, Set<u64>)> {
    m.map_values(|e: UserEntry| (*e.user, e.guilds@))
}

/// Strips the handles off a list of voice states.
pub open spec fn unshare_vs(v: Seq<Arc<VoiceState>>) -> Seq<VoiceState> {
    v.map_values(|a: Arc<VoiceState>| *a)
}

/// Strips the handles off a channel's messages.
pub open spec fn unshare_seq(v: Seq<Arc<CachedMessage>>) -> Seq<CachedMessage> {
    v.map_values(|a: Arc<CachedMessage>| *a)
}

/// The view of the message index.
pub open spec fn messages_view(m: Map<u64, Vec<Arc<CachedMessage>>>) -> Map<u64, Seq<CachedMessage>> {
    m.map_values(|v: Vec<Arc<CachedMessage>>| unshare_seq(v@))
}

/// Whether a channel's messages are in strictly increasing identifier order.
pub open spec fn sorted_by_id(s: Seq<CachedMessage>) -> bool {
    forall|i: int, j: int| 0 <= i < j < s.len() ==> s[i].id.0 < s[j].id.0
}

impl CacheView {
    /// A guild is never both available and unavailable.
    pub open spec fn guilds_exclusive(&self) -> bool {
        forall|g: u64| #[trigger] self.guilds.contains_key(g) ==> !self.unavailable_guilds.contains(g)
    }

    /// Every guild channel is attached to its guild, listed in that guild's
    /// channel set, and keyed by its own identifier.
    pub open spec fn channels_indexed(&self) -> bool {
        forall|c: u64| #[trigger] self.channels_guild.contains_key(c) ==> {
            let (g, ch) = self.channels_guild[c];
            &&& self.guild_channels.contains_key(g.0)
            &&& self.guild_channels[g.0].contains(c)
            &&& ch.spec_guild_id() == Some(g)
            &&& ch.spec_id().0 == c
        }
    }

    /// Every role is listed in its guild's role set.
    pub open spec fn roles_indexed(&self) -> bool {
        forall|r: u64| #[trigger] self.roles.contains_key(r) ==> {
            let g = self.roles[r].0;
            &&& self.guild_roles.contains_key(g.0)
            &&& self.guild_roles[g.0].contains(r)
        }
    }

    /// Every emoji is listed in its guild's emoji set.
    pub open spec fn emojis_indexed(&self) -> bool {
        forall|e: u64| #[trigger] self.emojis.contains_key(e) ==> {
            let g = self.emojis[e].0;
            &&& self.guild_emojis.contains_key(g.0)
            &&& self.guild_emojis[g.0].contains(e)
        }
    }

    /// Every member is listed in its guild's member set, and its user is
    /// cached with that guild in the user's guild set.
    pub open spec fn members_indexed(&self) -> bool {
        forall|g: u64, u: u64| #[trigger] self.members.contains_key(pair_key(g, u)) ==> {
            &&& self.guild_members.contains_key(g)
            &&& self.guild_members[g].contains(u)
            &&& self.users.contains_key(u)
            &&& self.users[u].1.contains(g)
        }
    }

    /// A cached user's guild set is exactly the set of guilds whose member
    /// table holds the user, and is never empty.
    pub open spec fn users_exact(&self) -> bool {
        forall|u: u64| #[trigger] self.users.contains_key(u) ==> {
            &&& !self.users[u].1.is_empty()
            &&& forall|g: u64| #[trigger] self.users[u].1.contains(g) <==> self.members.contains_key(pair_key(g, u))
        }
    }

    /// Every presence is listed in its guild's presence set.
    pub open spec fn presences_indexed(&self) -> bool {
        forall|g: u64, u: u64| #[trigger] self.presences.contains_key(pair_key(g, u)) ==> {
            &&& self.guild_presences.contains_key(g)
            &&& self.guild_presences[g].contains(u)
        }
    }

    /// The three voice indices agree: a voice state is keyed by its own guild
    /// and user, its user is listed under its guild, and it is listed under
    /// its channel; no listed set is empty, and every listed entry has a state.
    pub open spec fn voice_indexed(&self) -> bool {
        &&& forall|g: u64, u: u64| #[trigger] self.voice_states.contains_key(pair_key(g, u)) ==> {
            let vs = self.voice_states[pair_key(g, u)];
            &&& vs.guild_id == Some(GuildId(g))
            &&& vs.user_id == UserId(u)
            &&& self.voice_state_guilds.contains_key(g)
            &&& self.voice_state_guilds[g].contains(u)
            &&& (vs.channel_id matches Some(c) ==> {
                &&& self.voice_state_channels.contains_key(c.0)
                &&& self.voice_state_channels[c.0].contains(pair_key(g, u))
            })
        }
        &&& forall|g: u64| #[trigger] self.voice_state_guilds.contains_key(g) ==> {
            &&& !self.voice_state_guilds[g].is_empty()
            &&& self.voice_state_guilds[g].finite()
            &&& forall|u: u64| #[trigger] self.voice_state_guilds[g].contains(u)
                ==> self.voice_states.contains_key(pair_key(g, u))
        }
        &&& forall|c: u64| #[trigger] self.voice_state_channels.contains_key(c) ==> {
            &&& !self.voice_state_channels[c].is_empty()
            &&& self.voice_state_channels[c].finite()
            &&& forall|k: u128| #[trigger] self.voice_state_channels[c].contains(k) ==> {
                &&& self.voice_states.contains_key(k)
                &&& self.voice_states[k].channel_id == Some(ChannelId(c))
            }
        }
    }

    /// Every channel keeps at most the configured number of messages, in
    /// increasing identifier order.
    pub open spec fn messages_bounded(&self) -> bool {
        forall|c: u64| #[trigger] self.messages.contains_key(c) ==> {
            &&& self.messages[c].len() <= self.config.message_cache_size
            &&& sorted_by_id(self.messages[c])
        }
    }

    /// The consistency invariant of the cache's indices.
    pub open spec fn wf(&self) -> bool {
        &&& self.guilds_exclusive()
        &&& self.channels_indexed()
        &&& self.roles_indexed()
        &&& self.emojis_indexed()
        &&& self.members_indexed()
        &&& self.users_exact()
        &&& self.presences_indexed()
        &&& self.voice_indexed()
        &&& self.messages_bounded()
    }

    /// A cache with the given configuration and nothing in it.
    pub open spec fn empty(config: Config) -> CacheView {
        CacheView {
            config,
            channels_guild: Map::empty(),
            channels_private: Map::empty(),
            current_user: None,
            emojis: Map::empty(),
            groups: Map::empty(),
            guilds: Map::empty(),
            guild_channels: Map::empty(),
            guild_emojis: Map::empty(),
            guild_members: Map::empty(),
            guild_presences: Map::empty(),
            guild_roles: Map::empty(),
            members: Map::empty(),
            messages: Map::empty(),
            presences: Map::empty(),
            roles: Map::empty(),
            unavailable_guilds: Set::empty(),
            users: Map::empty(),
            voice_state_channels: Map::empty(),
            voice_state_guilds: Map::empty(),
            voice_states: Map::empty(),
        }
    }
}

/// An in-memory cache of guilds, channels, users, messages and voice states,
/// updated from gateway events.
///
/// Records are handed out as shared handles: a handle keeps showing the
/// record as it was when it was read, whatever updates come later.
///
/// The cache owns its indices and every update takes it mutably, so each
/// update can state exactly how the indices change. Sharing a cache between
/// threads is left to a lock around it.
pub struct InMemoryCache {
    config: Config,
    channels_guild: HashMap<u64, GuildItem<GuildChannel>>,
    channels_private: HashMap<u64, Arc<PrivateChannel>>,
    current_user: Option<Arc<CurrentUser>>,
    emojis: HashMap<u64, GuildItem<CachedEmoji>>,
    groups: HashMap<u64, Arc<Group>>,
    guilds: HashMap<u64, Arc<CachedGuild>>,
    guild_channels: HashMap<u64, HashSet<u64>>,
    guild_emojis: HashMap<u64, HashSet<u64>>,
    guild_members: HashMap<u64, HashSet<u64>>,
    guild_presences: HashMap<u64, HashSet<u64>>,
    guild_roles: HashMap<u64, HashSet<u64>>,
    members: HashMap<u128, Arc<CachedMember>>,
    messages: HashMap<u64, Vec<Arc<CachedMessage>>>,
    presences: HashMap<u128, Arc<CachedPresence>>,
    roles: HashMap<u64, GuildItem<Role>>,
    unavailable_guilds: HashSet<u64>,
    users: HashMap<u64, UserEntry>,
    voice_state_channels: HashMap<u64, HashSet<u128>>,
    voice_state_guilds: HashMap<u64, HashSet<u64>>,
    voice_states: HashMap<u128, Arc<VoiceState>>,
}

impl View for InMemoryCache {
    type V = CacheView;

    closed spec fn view(&self) -> CacheView {
        CacheView {
            config: self.config,
            channels_guild: items_view(self.channels_guild@),
            channels_private: unshare(self.channels_private@),
            current_user: match self.current_user {
                Some(a) => Some(*a),
                None => None,
            },
            emojis: items_view(self.emojis@),
            groups: unshare(self.groups@),
            guilds: unshare(self.guilds@),
            guild_channels: sets_view(self.guild_channels@),
            guild_emojis: sets_view(self.guild_emojis@),
            guild_members: sets_view(self.guild_members@),
            guild_presences: sets_view(self.guild_presences@),
            guild_roles: sets_view(self.guild_roles@),
            members: unshare(self.members@),
            messages: messages_view(self.messages@),
            presences: unshare(self.presences@),
            roles: items_view(self.roles@),
            unavailable_guilds: self.unavailable_guilds@,
            users: users_view(self.users@),
            voice_state_channels: sets_view(self.voice_state_channels@),
            voice_state_guilds: sets_view(self.voice_state_guilds@),
            voice_states: unshare(self.voice_states@),
        }
    }
}

/// Builder of an [`InMemoryCache`], starting from the default
/// configuration.
pub struct InMemoryCacheBuilder(pub crate::config::ConfigBuilder);

impl InMemoryCacheBuilder {
    /// Creates a builder holding the default configuration.
    pub fn new() -> (r: InMemoryCacheBuilder)
        ensures
            r.0.0.event_types.spec_bits() == crate::config::ALL_EVENT_BITS,
            r.0.0.message_cache_size == crate::config::DEFAULT_MESSAGE_CACHE_SIZE,
    {
        InMemoryCacheBuilder(crate::config::ConfigBuilder::new())
    }

    /// Sets the categories of events that are processed.
    pub fn event_types(self, event_types: crate::config::EventTypeSet) -> (r: InMemoryCacheBuilder)
        ensures
            r.0.0 == (Config { event_types, ..self.0.0 }),
    {
        InMemoryCacheBuilder(self.0.event_types(event_types))
    }

    /// Sets the number of messages kept per channel.
    pub fn message_cache_size(self, message_cache_size: usize) -> (r: InMemoryCacheBuilder)
        ensures
            r.0.0 == (Config { message_cache_size, ..self.0.0 }),
    {
        InMemoryCacheBuilder(self.0.message_cache_size(message_cache_size))
    }

    /// Builds an empty cache with the configuration set so far.
    pub fn build(self) -> (r: InMemoryCache)
        ensures
            r@ == CacheView::empty(self.0.0),
            r.wf(),
    {
        InMemoryCache::new_with_config(self.0.build())
    }
}

impl InMemoryCache {
    /// Creates a builder for a cache, starting from the default
    /// configuration.
    pub fn builder() -> (r: InMemoryCacheBuilder)
        ensures
            r.0.0.event_types.spec_bits() == crate::config::ALL_EVENT_BITS,
            r.0.0.message_cache_size == crate::config::DEFAULT_MESSAGE_CACHE_SIZE,
    {
        InMemoryCacheBuilder::new()
    }

    /// Whether the cache's indices are consistent.
    pub open spec fn wf(&self) -> bool {
        self@.wf()
    }

    /// Creates an empty cache with the default configuration.
    pub fn new() -> (r: InMemoryCache)
        ensures
            r@ == CacheView::empty(r@.config),
            r@.config.message_cache_size == crate::config::DEFAULT_MESSAGE_CACHE_SIZE,
            r@.config.event_types.spec_bits() == crate::config::ALL_EVENT_BITS,
            r.wf(),
    {
        InMemoryCache::new_with_config(Config::default())
    }

    /// Creates an empty cache with the given configuration.
    pub fn new_with_config(config: Config) -> (r: InMemoryCache)
        ensures
            r@ == CacheView::empty(config),
            r.wf(),
    {
        let r = InMemoryCache {
            config,
            channels_guild: HashMap::new(),
            channels_private: HashMap::new(),
            current_user: None,
            emojis: HashMap::new(),
            groups: HashMap::new(),
            guilds: HashMap::new(),
            guild_channels: HashMap::new(),
            guild_emojis: HashMap::new(),
            guild_members: HashMap::new(),
            guild_presences: HashMap::new(),
            guild_roles: HashMap::new(),
            members: HashMap::new(),
            messages: HashMap::new(),
            presences: HashMap::new(),
            roles: HashMap::new(),
            unavailable_guilds: HashSet::new(),
            users: HashMap::new(),
            voice_state_channels: HashMap::new(),
            voice_state_guilds: HashMap::new(),
            voice_states: HashMap::new(),
        };
        assert(r@ =~= CacheView::empty(config)) by {
            assert(r@.channels_guild =~= Map::empty());
            assert(r@.channels_private =~= Map::empty());
            assert(r@.emojis =~= Map::empty());
            assert(r@.groups =~= Map::empty());
            assert(r@.guilds =~= Map::empty());
            assert(r@.guild_channels =~= Map::empty());
            assert(r@.guild_emojis =~= Map::empty());
            assert(r@.guild_members =~= Map::empty());
            assert(r@.guild_presences =~= Map::empty());
            assert(r@.guild_roles =~= Map::empty());
            assert(r@.members =~= Map::empty());
            assert(r@.messages =~= Map::empty());
            assert(r@.presences =~= Map::empty());
            assert(r@.roles =~= Map::empty());
            assert(r@.users =~= Map::empty());
            assert(r@.voice_state_channels =~= Map::empty());
            assert(r@.voice_state_guilds =~= Map::empty());
            assert(r@.voice_states =~= Map::empty());
        }
        r
    }

    /// Returns a copy of the configuration.
    pub fn config(&self) -> (r: Config)
        ensures
            r == self@.config,
    {
        self.config
    }

    /// Returns the voice state of a user in a guild.
    pub fn voice_state(&self, user_id: UserId, guild_id: GuildId) -> (r: Option<Arc<VoiceState>>)
        ensures
            match r {
                Some(v) => self@.voice_states.contains_key(pair_key(guild_id.0, user_id.0))
                    && *v == self@.voice_states[pair_key(guild_id.0, user_id.0)],
                None => !self@.voice_states.contains_key(pair_key(guild_id.0, user_id.0)),
            },
    {
        let k = guild_user_key(guild_id, user_id);
        match self.voice_states.get(&k) {
            Some(v) => Some(share(v)),
            None => None,
        }
    }

    /// Returns the number of voice states held.
    pub fn voice_state_count(&self) -> (r: usize)
        ensures
            r == self@.voice_states.len(),
    {
        assert(self@.voice_states.dom() =~= self.voice_states@.dom());
        self.voice_states.len()
    }

    /// Returns the channels that have at least one user in voice.
    pub fn voice_channel_ids(&self) -> (r: Vec<ChannelId>)
        ensures
            channel_raw(r@).to_set() == self@.voice_state_channels.dom(),
            channel_raw(r@).no_duplicates(),
    {
        let keys = map_keys(&self.voice_state_channels);
        let mut r: Vec<ChannelId> = Vec::new();
        let mut i: usize = 0;
        while i < keys.len()
            invariant
                i <= keys@.len(),
                r@.len() == i,
                forall|j: int| 0 <= j < i ==> (#[trigger] r@[j]).0 == keys@[j],
            decreases keys@.len() - i,
        {
            r.push(ChannelId(keys[i]));
            i = i + 1;
        }
        assert(channel_raw(r@) =~= keys@);
        assert(self@.voice_state_channels.dom() =~= self.voice_state_channels@.dom());
        r
    }

    /// Returns the guilds that have at least one user in voice.
    pub fn voice_guild_ids(&self) -> (r: Vec<GuildId>)
        ensures
            guild_raw(r@).to_set() == self@.voice_state_guilds.dom(),
            guild_raw(r@).no_duplicates(),
    {
        let keys = map_keys(&self.voice_state_guilds);
        let mut r: Vec<GuildId> = Vec::new();
        let mut i: usize = 0;
        while i < keys.len()
            invariant
                i <= keys@.len(),
                r@.len() == i,
                forall|j: int| 0 <= j < i ==> (#[trigger] r@[j]).0 == keys@[j],
            decreases keys@.len() - i,
        {
            r.push(GuildId(keys[i]));
            i = i + 1;
        }
        assert(guild_raw(r@) =~= keys@);
        assert(self@.voice_state_guilds.dom() =~= self.voice_state_guilds@.dom());
        r
    }
}


/// The voice states held for the keys `ks`, in order, skipping keys that
/// hold none.
pub open spec fn states_of(m: Map<u128, VoiceState>, ks: Seq<u128>) -> Seq<VoiceState>
    decreases ks.len(),
{
    if ks.len() == 0 {
        Seq::empty()
    } else if m.contains_key(ks.last()) {
        states_of(m, ks.drop_last()).push(m[ks.last()])
    } else {
        states_of(m, ks.drop_last())
    }
}

/// Turns raw identifiers into channel identifiers.
fn channel_ids(v: Vec<u64>) -> (r: Vec<ChannelId>)
    ensures
        channel_raw(r@) == v@,
{
    let mut r: Vec<ChannelId> = Vec::new();
    let mut i: usize = 0;
    while i < v.len()
        invariant
            i <= v@.len(),
            r@.len() == i,
            forall|j: int| 0 <= j < i ==> (#[trigger] r@[j]).0 == v@[j],
        decreases v@.len() - i,
    {
        r.push(ChannelId(v[i]));
        i = i + 1;
    }
    assert(channel_raw(r@) =~= v@);
    r
}

/// Turns raw identifiers into user identifiers.
fn user_ids(v: Vec<u64>) -> (r: Vec<UserId>)
    ensures
        user_raw(r@) == v@,
{
    let mut r: Vec<UserId> = Vec::new();
    let mut i: usize = 0;
    while i < v.len()
        invariant
            i <= v@.len(),
            r@.len() == i,
            forall|j: int| 0 <= j < i ==> (#[trigger] r@[j]).0 == v@[j],
        decreases v@.len() - i,
    {
        r.push(UserId(v[i]));
        i = i + 1;
    }
    assert(user_raw(r@) =~= v@);
    r
}

/// Turns raw identifiers into role identifiers.
fn role_ids(v: Vec<u64>) -> (r: Vec<RoleId>)
    ensures
        role_raw(r@) == v@,
{
    let mut r: Vec<RoleId> = Vec::new();
    let mut i: usize = 0;
    while i < v.len()
        invariant
            i <= v@.len(),
            r@.len() == i,
            forall|j: int| 0 <= j < i ==> (#[trigger] r@[j]).0 == v@[j],
        decreases v@.len() - i,
    {
        r.push(RoleId(v[i]));
        i = i + 1;
    }
    assert(role_raw(r@) =~= v@);
    r
}

/// Turns raw identifiers into emoji identifiers.
fn emoji_ids(v: Vec<u64>) -> (r: Vec<EmojiId>)
    ensures
        emoji_raw(r@) == v@,
{
    let mut r: Vec<EmojiId> = Vec::new();
    let mut i: usize = 0;
    while i < v.len()
        invariant
            i <= v@.len(),
            r@.len() == i,
            forall|j: int| 0 <= j < i ==> (#[trigger] r@[j]).0 == v@[j],
        decreases v@.len() - i,
    {
        r.push(EmojiId(v[i]));
        i = i + 1;
    }
    assert(emoji_raw(r@) =~= v@);
    r
}

/// Turns raw identifiers into guild identifiers.
fn guild_ids(v: Vec<u64>) -> (r: Vec<GuildId>)
    ensures
        guild_raw(r@) == v@,
{
    let mut r: Vec<GuildId> = Vec::new();
    let mut i: usize = 0;
    while i < v.len()
        invariant
            i <= v@.len(),
            r@.len() == i,
            forall|j: int| 0 <= j < i ==> (#[trigger] r@[j]).0 == v@[j],
        decreases v@.len() - i,
    {
        r.push(GuildId(v[i]));
        i = i + 1;
    }
    assert(guild_raw(r@) =~= v@);
    r
}

impl InMemoryCache {
    /// Returns the guild with the given identifier.
    pub fn guild(&self, guild_id: GuildId) -> (r: Option<Arc<CachedGuild>>)
        ensures
            match r {
                Some(v) => self@.guilds.contains_key(guild_id.0) && *v == self@.guilds[guild_id.0],
                None => !self@.guilds.contains_key(guild_id.0),
            },
    {
        match self.guilds.get(&guild_id.0) {
            Some(v) => Some(share(v)),
            None => None,
        }
    }

    /// Returns whether the guild is known to be unavailable.
    pub fn is_unavailable(&self, guild_id: GuildId) -> (r: bool)
        ensures
            r == self@.unavailable_guilds.contains(guild_id.0),
    {
        self.unavailable_guilds.contains(&guild_id.0)
    }

    /// Returns the guild channel with the given identifier.
    pub fn guild_channel(&self, channel_id: ChannelId) -> (r: Option<Arc<GuildChannel>>)
        ensures
            match r {
                Some(v) => self@.channels_guild.contains_key(channel_id.0)
                    && *v == self@.channels_guild[channel_id.0].1,
                None => !self@.channels_guild.contains_key(channel_id.0),
            },
    {
        match self.channels_guild.get(&channel_id.0) {
            Some(v) => Some(share(&v.data)),
            None => None,
        }
    }

    /// Returns the private channel with the given identifier.
    pub fn private_channel(&self, channel_id: ChannelId) -> (r: Option<Arc<PrivateChannel>>)
        ensures
            match r {
                Some(v) => self@.channels_private.contains_key(channel_id.0)
                    && *v == self@.channels_private[channel_id.0],
                None => !self@.channels_private.contains_key(channel_id.0),
            },
    {
        match self.channels_private.get(&channel_id.0) {
            Some(v) => Some(share(v)),
            None => None,
        }
    }

    /// Returns the group with the given identifier.
    pub fn group(&self, channel_id: ChannelId) -> (r: Option<Arc<Group>>)
        ensures
            match r {
                Some(v) => self@.groups.contains_key(channel_id.0) && *v == self@.groups[channel_id.0],
                None => !self@.groups.contains_key(channel_id.0),
            },
    {
        match self.groups.get(&channel_id.0) {
            Some(v) => Some(share(v)),
            None => None,
        }
    }

    /// Returns the role with the given identifier.
    pub fn role(&self, role_id: RoleId) -> (r: Option<Arc<Role>>)
        ensures
            match r {
                Some(v) => self@.roles.contains_key(role_id.0) && *v == self@.roles[role_id.0].1,
                None => !self@.roles.contains_key(role_id.0),
            },
    {
        match self.roles.get(&role_id.0) {
            Some(v) => Some(share(&v.data)),
            None => None,
        }
    }

    /// Returns the emoji with the given identifier.
    pub fn emoji(&self, emoji_id: EmojiId) -> (r: Option<Arc<CachedEmoji>>)
        ensures
            match r {
                Some(v) => self@.emojis.contains_key(emoji_id.0) && *v == self@.emojis[emoji_id.0].1,
                None => !self@.emojis.contains_key(emoji_id.0),
            },
    {
        match self.emojis.get(&emoji_id.0) {
            Some(v) => Some(share(&v.data)),
            None => None,
        }
    }

    /// Returns the member of a guild.
    pub fn member(&self, guild_id: GuildId, user_id: UserId) -> (r: Option<Arc<CachedMember>>)
        ensures
            match r {
                Some(v) => self@.members.contains_key(pair_key(guild_id.0, user_id.0))
                    && *v == self@.members[pair_key(guild_id.0, user_id.0)],
                None => !self@.members.contains_key(pair_key(guild_id.0, user_id.0)),
            },
    {
        match self.members.get(&guild_user_key(guild_id, user_id)) {
            Some(v) => Some(share(v)),
            None => None,
        }
    }

    /// Returns the presence of a user in a guild.
    pub fn presence(&self, guild_id: GuildId, user_id: UserId) -> (r: Option<Arc<CachedPresence>>)
        ensures
            match r {
                Some(v) => self@.presences.contains_key(pair_key(guild_id.0, user_id.0))
                    && *v == self@.presences[pair_key(guild_id.0, user_id.0)],
                None => !self@.presences.contains_key(pair_key(guild_id.0, user_id.0)),
            },
    {
        match self.presences.get(&guild_user_key(guild_id, user_id)) {
            Some(v) => Some(share(v)),
            None => None,
        }
    }

    /// Returns the user with the given identifier.
    pub fn user(&self, user_id: UserId) -> (r: Option<Arc<User>>)
        ensures
            match r {
                Some(v) => self@.users.contains_key(user_id.0) && *v == self@.users[user_id.0].0,
                None => !self@.users.contains_key(user_id.0),
            },
    {
        match self.users.get(&user_id.0) {
            Some(v) => Some(share(&v.user)),
            None => None,
        }
    }

    /// Returns the guilds whose member lists hold the user.
    pub fn user_guilds(&self, user_id: UserId) -> (r: Option<Vec<GuildId>>)
        ensures
            match r {
                Some(v) => self@.users.contains_key(user_id.0)
                    && guild_raw(v@).to_set() == self@.users[user_id.0].1
                    && guild_raw(v@).no_duplicates(),
                None => !self@.users.contains_key(user_id.0),
            },
    {
        match self.users.get(&user_id.0) {
            Some(v) => Some(guild_ids(set_elements(&v.guilds))),
            None => None,
        }
    }

    /// Returns the client's own user.
    pub fn current_user(&self) -> (r: Option<Arc<CurrentUser>>)
        ensures
            match r {
                Some(v) => self@.current_user == Some(*v),
                None => self@.current_user is None,
            },
    {
        match &self.current_user {
            Some(v) => Some(share(v)),
            None => None,
        }
    }

    /// Returns a message of a channel.
    pub fn message(&self, channel_id: ChannelId, message_id: MessageId) -> (r: Option<Arc<CachedMessage>>)
        ensures
            match r {
                Some(v) => exists|i: int| 0 <= i < self@.channel_messages(channel_id.0).len()
                    && #[trigger] self@.channel_messages(channel_id.0)[i] == *v && v.id == message_id,
                None => forall|i: int| 0 <= i < self@.channel_messages(channel_id.0).len()
                    ==> (#[trigger] self@.channel_messages(channel_id.0)[i]).id != message_id,
            },
    {
        match self.messages.get(&channel_id.0) {
            Some(list) => {
                let ghost s = unshare_seq(list@);
                let mut i: usize = 0;
                while i < list.len()
                    invariant
                        s == unshare_seq(list@),
                        s == self@.channel_messages(channel_id.0),
                        i <= list@.len(),
                        forall|j: int| 0 <= j < i ==> (#[trigger] s[j]).id != message_id,
                    decreases list@.len() - i,
                {
                    if list[i].id == message_id {
                        let found = share(&list[i]);
                        assert(s[i as int] == *found);
                        return Some(found);
                    }
                    i = i + 1;
                }
                None
            },
            None => None,
        }
    }

    /// Returns the number of messages held for a channel.
    pub fn message_count(&self, channel_id: ChannelId) -> (r: usize)
        ensures
            r == self@.channel_messages(channel_id.0).len(),
    {
        match self.messages.get(&channel_id.0) {
            Some(list) => list.len(),
            None => 0,
        }
    }

    /// Returns a copy of the channel set of a guild.
    pub fn guild_channels(&self, guild_id: GuildId) -> (r: Option<Vec<ChannelId>>)
        ensures
            match r {
                Some(v) => self@.guild_channels.contains_key(guild_id.0)
                    && channel_raw(v@).to_set() == self@.guild_channels[guild_id.0]
                    && channel_raw(v@).no_duplicates(),
                None => !self@.guild_channels.contains_key(guild_id.0),
            },
    {
        match self.guild_channels.get(&guild_id.0) {
            Some(set) => Some(channel_ids(set_elements(set))),
            None => None,
        }
    }

    /// Returns a copy of the emoji set of a guild.
    pub fn guild_emojis(&self, guild_id: GuildId) -> (r: Option<Vec<EmojiId>>)
        ensures
            match r {
                Some(v) => self@.guild_emojis.contains_key(guild_id.0)
                    && emoji_raw(v@).to_set() == self@.guild_emojis[guild_id.0]
                    && emoji_raw(v@).no_duplicates(),
                None => !self@.guild_emojis.contains_key(guild_id.0),
            },
    {
        match self.guild_emojis.get(&guild_id.0) {
            Some(set) => Some(emoji_ids(set_elements(set))),
            None => None,
        }
    }

    /// Returns a copy of the member set of a guild.
    pub fn guild_members(&self, guild_id: GuildId) -> (r: Option<Vec<UserId>>)
        ensures
            match r {
                Some(v) => self@.guild_members.contains_key(guild_id.0)
                    && user_raw(v@).to_set() == self@.guild_members[guild_id.0]
                    && user_raw(v@).no_duplicates(),
                None => !self@.guild_members.contains_key(guild_id.0),
            },
    {
        match self.guild_members.get(&guild_id.0) {
            Some(set) => Some(user_ids(set_elements(set))),
            None => None,
        }
    }

    /// Returns a copy of the presence set of a guild.
    pub fn guild_presences(&self, guild_id: GuildId) -> (r: Option<Vec<UserId>>)
        ensures
            match r {
                Some(v) => self@.guild_presences.contains_key(guild_id.0)
                    && user_raw(v@).to_set() == self@.guild_presences[guild_id.0]
                    && user_raw(v@).no_duplicates(),
                None => !self@.guild_presences.contains_key(guild_id.0),
            },
    {
        match self.guild_presences.get(&guild_id.0) {
            Some(set) => Some(user_ids(set_elements(set))),
            None => None,
        }
    }

    /// Returns a copy of the role set of a guild.
    pub fn guild_roles(&self, guild_id: GuildId) -> (r: Option<Vec<RoleId>>)
        ensures
            match r {
                Some(v) => self@.guild_roles.contains_key(guild_id.0)
                    && role_raw(v@).to_set() == self@.guild_roles[guild_id.0]
                    && role_raw(v@).no_duplicates(),
                None => !self@.guild_roles.contains_key(guild_id.0),
            },
    {
        match self.guild_roles.get(&guild_id.0) {
            Some(set) => Some(role_ids(set_elements(set))),
            None => None,
        }
    }

    /// Returns the voice states of the users in a voice channel.
    pub fn voice_channel_states(&self, channel_id: ChannelId) -> (r: Option<Vec<Arc<VoiceState>>>)
        ensures
            match r {
                Some(v) => self@.voice_state_channels.contains_key(channel_id.0)
                    && exists|ks: Seq<u128>|
                        #![trigger states_of(self@.voice_states, ks)]
                        ks.to_set() == self@.voice_state_channels[channel_id.0] && ks.no_duplicates()
                        && unshare_vs(v@) == states_of(self@.voice_states, ks),
                None => !self@.voice_state_channels.contains_key(channel_id.0),
            },
    {
        match self.voice_state_channels.get(&channel_id.0) {
            Some(set) => {
                let ks = pair_set_elements(set);
                let mut r: Vec<Arc<VoiceState>> = Vec::new();
                let mut i: usize = 0;
                while i < ks.len()
                    invariant
                        i <= ks@.len(),
                        unshare_vs(r@) == states_of(self@.voice_states, ks@.subrange(0, i as int)),
                    decreases ks@.len() - i,
                {
                    proof {
                        assert(ks@.subrange(0, i + 1).drop_last() =~= ks@.subrange(0, i as int));
                    }
                    if let Some(v) = self.voice_states.get(&ks[i]) {
                        r.push(share(v));
                        assert(unshare_vs(r@) =~= states_of(self@.voice_states, ks@.subrange(0, i + 1)));
                    }
                    i = i + 1;
                }
                assert(ks@.subrange(0, i as int) =~= ks@);
                Some(r)
            },
            None => None,
        }
    }

    /// Empties every index and forgets the client's own user; the
    /// configuration stays.
    pub fn clear(&mut self)
        ensures
            final(self)@ == CacheView::empty(old(self)@.config),
    {
        *self = InMemoryCache::new_with_config(self.config);
    }
}

} // verus!
