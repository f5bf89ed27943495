//! Guild lifecycle: create with its children, update, delete with every
//! child, availability, and the client's own user.
use vstd::prelude::*;
use std::collections::HashSet;
use std::sync::Arc;
use crate::cache::{items_view, unshare, CacheView, InMemoryCache};
use crate::cache::channels::{lemma_emojis_cached_wf, lemma_guild_channel_cached_wf, lemma_role_events_wf};
use crate::cache::members::{lemma_member_cached_wf, lemma_member_removed_wf, lemma_presence_cached_wf};
use crate::cache::voice::{lemma_voice_left_wf, lemma_voice_state_update_wf};
use crate::event::{Guild, GuildStatus, PartialGuild};
use crate::id::{guild_user_key, pair_key, GuildId, UserId};
use crate::index::{
    guild_keys, index_ensure, index_remove_prune, pair_index_remove_prune, remove_all,
    remove_all_pairs, set_at, set_elements, sets_view,
};
use crate::model::{CachedGuild, CurrentUser, GuildChannel, Member, Presence, Role, VoiceState};

verus! {

broadcast use vstd::std_specs::hash::group_hash_axioms;

/// Value of `max_presences` when a guild update leaves it out.
pub const DEFAULT_MAX_PRESENCES: u64 = 25000;

/// A voice state placed in guild `g`.
pub open spec fn in_guild(vs: VoiceState, g: GuildId) -> VoiceState {
    VoiceState { guild_id: Some(g), ..vs }
}

/// A guild record with the fields of a guild update laid over it.
pub open spec fn guild_overlaid(old: CachedGuild, pg: PartialGuild) -> CachedGuild {
    CachedGuild {
        afk_channel_id: pg.afk_channel_id,
        afk_timeout: pg.afk_timeout,
        banner: pg.banner,
        default_message_notifications: pg.default_message_notifications,
        description: pg.description,
        embed_channel_id: pg.embed_channel_id,
        embed_enabled: Some(pg.embed_enabled),
        features: pg.features,
        icon: pg.icon,
        max_members: pg.max_members,
        max_presences: Some(
            match pg.max_presences {
                Some(n) => n,
                None => DEFAULT_MAX_PRESENCES,
            },
        ),
        mfa_level: pg.mfa_level,
        name: pg.name,
        owner: pg.owner,
        owner_id: pg.owner_id,
        permissions: pg.permissions,
        preferred_locale: pg.preferred_locale,
        premium_subscription_count: Some(
            match pg.premium_subscription_count {
                Some(n) => n,
                None => 0,
            },
        ),
        premium_tier: pg.premium_tier,
        region: pg.region,
        splash: pg.splash,
        system_channel_id: pg.system_channel_id,
        vanity_url_code: pg.vanity_url_code,
        verification_level: pg.verification_level,
        widget_channel_id: pg.widget_channel_id,
        widget_enabled: pg.widget_enabled,
        ..old
    }
}

/// The index after an empty set is put under `k`, if `k` has none.
pub open spec fn with_key(m: Map<u64, Set<u64>>, k: u64) -> Map<u64, Set<u64>> {
    if m.contains_key(k) {
        m
    } else {
        m.insert(k, Set::empty())
    }
}

impl CacheView {
    /// The cache after the channels `chs` of guild `g` are cached in order.
    pub open spec fn channels_cached(self, g: GuildId, chs: Seq<GuildChannel>) -> CacheView
        decreases chs.len(),
    {
        if chs.len() == 0 {
            self
        } else {
            self.channels_cached(g, chs.drop_last()).guild_channel_cached(g, chs.last())
        }
    }

    /// The cache after the members `ms` of guild `g` are cached in order.
    pub open spec fn members_cached(self, g: GuildId, ms: Seq<Member>) -> CacheView
        decreases ms.len(),
    {
        if ms.len() == 0 {
            self
        } else {
            self.members_cached(g, ms.drop_last()).member_cached(g, ms.last())
        }
    }

    /// The cache after the presences `ps` in guild `g` are cached in order.
    pub open spec fn presences_cached(self, g: GuildId, ps: Seq<Presence>) -> CacheView
        decreases ps.len(),
    {
        if ps.len() == 0 {
            self
        } else {
            self.presences_cached(g, ps.drop_last()).presence_cached(g, ps.last())
        }
    }

    /// The cache after the roles `rs` of guild `g` are cached in order.
    pub open spec fn roles_cached(self, g: GuildId, rs: Seq<Role>) -> CacheView
        decreases rs.len(),
    {
        if rs.len() == 0 {
            self
        } else {
            self.roles_cached(g, rs.drop_last()).role_cached(g, rs.last())
        }
    }

    /// The cache after the voice states `vss`, placed in guild `g`, arrive
    /// in order.
    pub open spec fn voice_states_cached(self, g: GuildId, vss: Seq<VoiceState>) -> CacheView
        decreases vss.len(),
    {
        if vss.len() == 0 {
            self
        } else {
            self.voice_states_cached(g, vss.drop_last()).voice_state_update(in_guild(vss.last(), g))
        }
    }

    /// The cache after the members `us` of guild `g` are removed in order.
    pub open spec fn members_dropped(self, g: GuildId, us: Seq<u64>) -> CacheView
        decreases us.len(),
    {
        if us.len() == 0 {
            self
        } else {
            self.members_dropped(g, us.drop_last()).member_removed(g, UserId(us.last()))
        }
    }

    /// The cache after the users `us` leave voice in guild `g`, in order.
    pub open spec fn voice_dropped(self, g: u64, us: Seq<u64>) -> CacheView
        decreases us.len(),
    {
        if us.len() == 0 {
            self
        } else {
            self.voice_dropped(g, us.drop_last()).voice_left(g, us.last())
        }
    }

    /// The cache after guild `g` gets its channel, emoji, member, presence
    /// and role sets, where it has none yet.
    pub open spec fn guild_indices_ready(self, g: u64) -> CacheView {
        CacheView {
            guild_channels: with_key(self.guild_channels, g),
            guild_emojis: with_key(self.guild_emojis, g),
            guild_members: with_key(self.guild_members, g),
            guild_presences: with_key(self.guild_presences, g),
            guild_roles: with_key(self.guild_roles, g),
            ..self
        }
    }

    /// The cache after a guild is created: its sets are made ready, every
    /// child is cached under it, the guild record is stored and the guild
    /// is no longer unavailable.
    pub open spec fn guild_created(self, gd: Guild) -> CacheView {
        let g = gd.info.id;
        let s = self.guild_indices_ready(g.0)
            .channels_cached(g, gd.channels@)
            .emojis_cached(g, gd.emojis@)
            .members_cached(g, gd.members@)
            .presences_cached(g, gd.presences@)
            .roles_cached(g, gd.roles@)
            .voice_states_cached(g, gd.voice_states@);
        CacheView {
            guilds: s.guilds.insert(g.0, gd.info),
            unavailable_guilds: s.unavailable_guilds.remove(g.0),
            ..s
        }
    }

    /// The cache after the guild record, channels, emojis, roles and
    /// presences of guild `g` are dropped.
    pub open spec fn guild_records_dropped(self, g: u64) -> CacheView {
        CacheView {
            guilds: self.guilds.remove(g),
            channels_guild: self.channels_guild.remove_keys(set_at(self.guild_channels, g)),
            guild_channels: self.guild_channels.remove(g),
            emojis: self.emojis.remove_keys(set_at(self.guild_emojis, g)),
            guild_emojis: self.guild_emojis.remove(g),
            roles: self.roles.remove_keys(set_at(self.guild_roles, g)),
            guild_roles: self.guild_roles.remove(g),
            presences: self.presences.remove_keys(guild_keys(g, set_at(self.guild_presences, g))),
            guild_presences: self.guild_presences.remove(g),
            ..self
        }
    }

    /// Whether `t` is the cache after guild `g` is deleted: the guild record
    /// and every channel, emoji, role, presence, member and voice state
    /// listed under it go, with the guild's sets; members leave one by one
    /// (in some order), as do users in voice.
    pub open spec fn guild_deleted(self, t: CacheView, g: GuildId) -> bool {
        let s1 = self.guild_records_dropped(g.0);
        exists|mu: Seq<u64>, vu: Seq<u64>|
            #![trigger mu.to_set(), vu.to_set()]
            mu.to_set() == set_at(self.guild_members, g.0) && vu.to_set() == set_at(self.voice_state_guilds, g.0)
            && t == (CacheView {
                guild_members: s1.members_dropped(g, mu).voice_dropped(g.0, vu).guild_members.remove(g.0),
                ..s1.members_dropped(g, mu).voice_dropped(g.0, vu)
            })
    }

    /// The cache after a guild update: a guild that is not cached is ignored.
    pub open spec fn guild_updated(self, pg: PartialGuild) -> CacheView {
        if self.guilds.contains_key(pg.id.0) {
            CacheView { guilds: self.guilds.insert(pg.id.0, guild_overlaid(self.guilds[pg.id.0], pg)), ..self }
        } else {
            self
        }
    }

    /// The cache after guild `g` becomes unavailable.
    pub open spec fn guild_unavailable(self, g: u64) -> CacheView {
        CacheView {
            guilds: self.guilds.remove(g),
            unavailable_guilds: self.unavailable_guilds.insert(g),
            ..self
        }
    }

    /// The cache after the client's own user is replaced.
    pub open spec fn current_user_cached(self, cu: CurrentUser) -> CacheView {
        CacheView { current_user: Some(cu), ..self }
    }

    /// The cache after the guilds of a ready event are taken in order.
    pub open spec fn guild_statuses_cached(self, gs: Seq<GuildStatus>) -> CacheView
        decreases gs.len(),
    {
        if gs.len() == 0 {
            self
        } else {
            let s = self.guild_statuses_cached(gs.drop_last());
            match gs.last() {
                GuildStatus::Offline(u) => s.guild_unavailable(u.id.0),
                GuildStatus::Online(gd) => s.guild_created(gd),
            }
        }
    }
}

/// Caching channels in order keeps the cache consistent.
pub proof fn lemma_channels_cached_wf(s: CacheView, g: GuildId, xs: Seq<GuildChannel>)
    requires
        s.wf(),
    ensures
        s.channels_cached(g, xs).wf(),
    decreases xs.len(),
{
    if xs.len() > 0 {
        lemma_channels_cached_wf(s, g, xs.drop_last());
        lemma_guild_channel_cached_wf(s.channels_cached(g, xs.drop_last()), g, xs.last());
    }
}

/// Caching members in order keeps the cache consistent.
pub proof fn lemma_members_cached_wf(s: CacheView, g: GuildId, xs: Seq<Member>)
    requires
        s.wf(),
    ensures
        s.members_cached(g, xs).wf(),
    decreases xs.len(),
{
    if xs.len() > 0 {
        lemma_members_cached_wf(s, g, xs.drop_last());
        lemma_member_cached_wf(s.members_cached(g, xs.drop_last()), g, xs.last());
    }
}

/// Caching presences in order keeps the cache consistent.
pub proof fn lemma_presences_cached_wf(s: CacheView, g: GuildId, xs: Seq<Presence>)
    requires
        s.wf(),
    ensures
        s.presences_cached(g, xs).wf(),
    decreases xs.len(),
{
    if xs.len() > 0 {
        lemma_presences_cached_wf(s, g, xs.drop_last());
        lemma_presence_cached_wf(s.presences_cached(g, xs.drop_last()), g, xs.last());
    }
}

/// Caching roles in order keeps the cache consistent.
pub proof fn lemma_roles_cached_wf(s: CacheView, g: GuildId, xs: Seq<Role>)
    requires
        s.wf(),
    ensures
        s.roles_cached(g, xs).wf(),
    decreases xs.len(),
{
    if xs.len() > 0 {
        lemma_roles_cached_wf(s, g, xs.drop_last());
        lemma_role_events_wf(s.roles_cached(g, xs.drop_last()), g, xs.last(), 0);
    }
}

/// Recording voice states in order keeps the cache consistent.
pub proof fn lemma_voice_states_cached_wf(s: CacheView, g: GuildId, xs: Seq<VoiceState>)
    requires
        s.wf(),
    ensures
        s.voice_states_cached(g, xs).wf(),
    decreases xs.len(),
{
    if xs.len() > 0 {
        lemma_voice_states_cached_wf(s, g, xs.drop_last());
        lemma_voice_state_update_wf(s.voice_states_cached(g, xs.drop_last()), in_guild(xs.last(), g));
    }
}

/// Creating a guild keeps the cache consistent.
pub proof fn lemma_guild_created_wf(s: CacheView, gd: Guild)
    requires
        s.wf(),
    ensures
        s.guild_created(gd).wf(),
{
    let g = gd.info.id;
    let s0 = s.guild_indices_ready(g.0);
    assert(s0.wf());
    let s1 = s0.channels_cached(g, gd.channels@);
    lemma_channels_cached_wf(s0, g, gd.channels@);
    let s2 = s1.emojis_cached(g, gd.emojis@);
    lemma_emojis_cached_wf(s1, g, gd.emojis@);
    let s3 = s2.members_cached(g, gd.members@);
    lemma_members_cached_wf(s2, g, gd.members@);
    let s4 = s3.presences_cached(g, gd.presences@);
    lemma_presences_cached_wf(s3, g, gd.presences@);
    let s5 = s4.roles_cached(g, gd.roles@);
    lemma_roles_cached_wf(s4, g, gd.roles@);
    let s6 = s5.voice_states_cached(g, gd.voice_states@);
    lemma_voice_states_cached_wf(s5, g, gd.voice_states@);
    let t = s.guild_created(gd);
    assert(t.guilds_exclusive());
}

/// Removing members in order keeps the cache consistent, removes each of
/// them, and adds no member.
pub proof fn lemma_members_dropped(s: CacheView, g: GuildId, us: Seq<u64>)
    requires
        s.wf(),
    ensures
        s.members_dropped(g, us).wf(),
        forall|u: u64| us.contains(u) ==> !s.members_dropped(g, us).members.contains_key(#[trigger] pair_key(g.0, u)),
        forall|k: u128| #[trigger] s.members_dropped(g, us).members.contains_key(k) ==> s.members.contains_key(k),
        s.members_dropped(g, us).guild_members.dom() == s.guild_members.dom(),
        s.members_dropped(g, us).voice_state_guilds == s.voice_state_guilds,
    decreases us.len(),
{
    if us.len() > 0 {
        let p = s.members_dropped(g, us.drop_last());
        lemma_members_dropped(s, g, us.drop_last());
        lemma_member_removed_wf(p, g, UserId(us.last()));
        assert forall|u: u64| us.contains(u) implies !s.members_dropped(g, us).members.contains_key(#[trigger] pair_key(g.0, u)) by {
            if u != us.last() {
                let i = choose|i: int| 0 <= i < us.len() && us[i] == u;
                assert(us.drop_last().contains(u)) by {
                    assert(us.drop_last()[i] == u);
                }
            }
        }
        assert(s.members_dropped(g, us).guild_members.dom() =~= s.guild_members.dom());
    }
}

/// Users leaving voice in order keeps the cache consistent.
pub proof fn lemma_voice_dropped_wf(s: CacheView, g: u64, us: Seq<u64>)
    requires
        s.wf(),
    ensures
        s.voice_dropped(g, us).wf(),
        s.voice_dropped(g, us).members == s.members,
        s.voice_dropped(g, us).guild_members == s.guild_members,
    decreases us.len(),
{
    if us.len() > 0 {
        lemma_voice_dropped_wf(s, g, us.drop_last());
        lemma_voice_left_wf(s.voice_dropped(g, us.drop_last()), g, us.last());
    }
}

/// Dropping the guild record and the channels, emojis, roles and presences
/// listed under a guild keeps the cache consistent.
pub proof fn lemma_guild_records_dropped_wf(s: CacheView, gid: u64)
    requires
        s.wf(),
    ensures
        s.guild_records_dropped(gid).wf(),
{
    let s1 = s.guild_records_dropped(gid);
    assert forall|c: u64| #[trigger] s1.channels_guild.contains_key(c) implies {
        let (g2, ch) = s1.channels_guild[c];
        &&& s1.guild_channels.contains_key(g2.0)
        &&& s1.guild_channels[g2.0].contains(c)
        &&& ch.spec_guild_id() == Some(g2)
        &&& ch.spec_id().0 == c
    } by {
        assert(s.channels_guild.contains_key(c));
    }
    assert forall|r: u64| #[trigger] s1.roles.contains_key(r) implies {
        let g2 = s1.roles[r].0;
        &&& s1.guild_roles.contains_key(g2.0)
        &&& s1.guild_roles[g2.0].contains(r)
    } by {
        assert(s.roles.contains_key(r));
    }
    assert forall|e: u64| #[trigger] s1.emojis.contains_key(e) implies {
        let g2 = s1.emojis[e].0;
        &&& s1.guild_emojis.contains_key(g2.0)
        &&& s1.guild_emojis[g2.0].contains(e)
    } by {
        assert(s.emojis.contains_key(e));
    }
    assert forall|g2: u64, u2: u64| #[trigger] s1.presences.contains_key(pair_key(g2, u2)) implies {
        &&& s1.guild_presences.contains_key(g2)
        &&& s1.guild_presences[g2].contains(u2)
    } by {
        assert(s.presences.contains_key(pair_key(g2, u2)));
        if g2 == gid {
            let f = |v: u64| pair_key(gid, v);
            assert(set_at(s.guild_presences, gid).contains(u2) && pair_key(g2, u2) == f(u2));
            assert(guild_keys(gid, set_at(s.guild_presences, gid)).contains(pair_key(g2, u2)));
        }
    }
}

/// Deleting a guild keeps the cache consistent.
pub proof fn lemma_guild_deleted_wf(s: CacheView, t: CacheView, g: GuildId)
    requires
        s.wf(),
        s.guild_deleted(t, g),
    ensures
        t.wf(),
{
    let gid = g.0;
    let s1 = s.guild_records_dropped(gid);
    let (mu, vu) = choose|mu: Seq<u64>, vu: Seq<u64>|
        mu.to_set() == set_at(s.guild_members, gid) && vu.to_set() == set_at(s.voice_state_guilds, gid)
        && t == (CacheView {
            guild_members: s1.members_dropped(g, mu).voice_dropped(gid, vu).guild_members.remove(gid),
            ..s1.members_dropped(g, mu).voice_dropped(gid, vu)
        });
    lemma_guild_records_dropped_wf(s, gid);
    assert(s1.wf());
    lemma_members_dropped(s1, g, mu);
    let s2 = s1.members_dropped(g, mu);
    lemma_voice_dropped_wf(s2, gid, vu);
    let s3 = s2.voice_dropped(gid, vu);
    assert forall|g2: u64, u2: u64| #[trigger] t.members.contains_key(pair_key(g2, u2)) implies {
        &&& t.guild_members.contains_key(g2)
        &&& t.guild_members[g2].contains(u2)
        &&& t.users.contains_key(u2)
        &&& t.users[u2].1.contains(g2)
    } by {
        assert(s3.members.contains_key(pair_key(g2, u2)));
        if g2 == gid {
            assert(s1.members.contains_key(pair_key(g2, u2)));
            assert(s1.guild_members[gid].contains(u2));
            assert(mu.to_set().contains(u2));
            assert(mu.contains(u2));
        }
    }
    assert(t.members_indexed());
}

/// A guild update, a guild becoming unavailable, and a new own user keep
/// the cache consistent.
pub proof fn lemma_guild_misc_wf(s: CacheView, pg: PartialGuild, g: u64, cu: CurrentUser)
    requires
        s.wf(),
    ensures
        s.guild_updated(pg).wf(),
        s.guild_unavailable(g).wf(),
        s.current_user_cached(cu).wf(),
{
}

/// Taking the guilds of a ready event keeps the cache consistent.
pub proof fn lemma_guild_statuses_cached_wf(s: CacheView, gs: Seq<GuildStatus>)
    requires
        s.wf(),
    ensures
        s.guild_statuses_cached(gs).wf(),
    decreases gs.len(),
{
    if gs.len() > 0 {
        lemma_guild_statuses_cached_wf(s, gs.drop_last());
        let p = s.guild_statuses_cached(gs.drop_last());
        match gs.last() {
            GuildStatus::Offline(u) => lemma_guild_misc_wf(p, arbitrary(), u.id.0, arbitrary()),
            GuildStatus::Online(gd) => lemma_guild_created_wf(p, gd),
        }
    }
}

impl InMemoryCache {
    /// Caches the channels of guild `guild_id`, in order.
    pub fn cache_guild_channels(&mut self, guild_id: GuildId, channels: Vec<GuildChannel>)
        ensures
            final(self)@ == old(self)@.channels_cached(guild_id, channels@),
    {
        let ghost s0 = self@;
        let ghost xs = channels@;
        let mut rest = channels;
        let n = rest.len();
        let mut i: usize = 0;
        while i < n
            invariant
                n == xs.len(),
                i <= n,
                rest@ == xs.subrange(i as int, n as int),
                self@ == s0.channels_cached(guild_id, xs.subrange(0, i as int)),
            decreases n - i,
        {
            let x = rest.remove(0);
            proof {
                assert(xs.subrange(0, i + 1).drop_last() =~= xs.subrange(0, i as int));
            }
            self.cache_guild_channel(guild_id, x);
            i = i + 1;
        }
        assert(xs.subrange(0, n as int) =~= xs);
    }

    /// Caches the members of guild `guild_id`, in order.
    pub fn cache_members(&mut self, guild_id: GuildId, members: Vec<Member>)
        ensures
            final(self)@ == old(self)@.members_cached(guild_id, members@),
    {
        let ghost s0 = self@;
        let ghost xs = members@;
        let mut rest = members;
        let n = rest.len();
        let mut i: usize = 0;
        while i < n
            invariant
                n == xs.len(),
                i <= n,
                rest@ == xs.subrange(i as int, n as int),
                self@ == s0.members_cached(guild_id, xs.subrange(0, i as int)),
            decreases n - i,
        {
            let x = rest.remove(0);
            proof {
                assert(xs.subrange(0, i + 1).drop_last() =~= xs.subrange(0, i as int));
            }
            self.cache_member(guild_id, x);
            i = i + 1;
        }
        assert(xs.subrange(0, n as int) =~= xs);
    }

    /// Caches the presences in guild `guild_id`, in order.
    pub fn cache_presences(&mut self, guild_id: GuildId, presences: Vec<Presence>)
        ensures
            final(self)@ == old(self)@.presences_cached(guild_id, presences@),
    {
        let ghost s0 = self@;
        let ghost xs = presences@;
        let mut rest = presences;
        let n = rest.len();
        let mut i: usize = 0;
        while i < n
            invariant
                n == xs.len(),
                i <= n,
                rest@ == xs.subrange(i as int, n as int),
                self@ == s0.presences_cached(guild_id, xs.subrange(0, i as int)),
            decreases n - i,
        {
            let x = rest.remove(0);
            proof {
                assert(xs.subrange(0, i + 1).drop_last() =~= xs.subrange(0, i as int));
            }
            self.cache_presence(guild_id, x);
            i = i + 1;
        }
        assert(xs.subrange(0, n as int) =~= xs);
    }

    /// Caches the roles of guild `guild_id`, in order.
    pub fn cache_roles(&mut self, guild_id: GuildId, roles: Vec<Role>)
        ensures
            final(self)@ == old(self)@.roles_cached(guild_id, roles@),
    {
        let ghost s0 = self@;
        let ghost xs = roles@;
        let mut rest = roles;
        let n = rest.len();
        let mut i: usize = 0;
        while i < n
            invariant
                n == xs.len(),
                i <= n,
                rest@ == xs.subrange(i as int, n as int),
                self@ == s0.roles_cached(guild_id, xs.subrange(0, i as int)),
            decreases n - i,
        {
            let x = rest.remove(0);
            proof {
                assert(xs.subrange(0, i + 1).drop_last() =~= xs.subrange(0, i as int));
            }
            self.cache_role(guild_id, x);
            i = i + 1;
        }
        assert(xs.subrange(0, n as int) =~= xs);
    }

    /// Records the voice states of guild `guild_id`, in order, each placed
    /// in that guild.
    pub fn cache_voice_states(&mut self, guild_id: GuildId, voice_states: Vec<VoiceState>)
        ensures
            final(self)@ == old(self)@.voice_states_cached(guild_id, voice_states@),
    {
        let ghost s0 = self@;
        let ghost xs = voice_states@;
        let mut rest = voice_states;
        let n = rest.len();
        let mut i: usize = 0;
        while i < n
            invariant
                n == xs.len(),
                i <= n,
                rest@ == xs.subrange(i as int, n as int),
                self@ == s0.voice_states_cached(guild_id, xs.subrange(0, i as int)),
            decreases n - i,
        {
            let mut x = rest.remove(0);
            x.guild_id = Some(guild_id);
            proof {
                assert(xs.subrange(0, i + 1).drop_last() =~= xs.subrange(0, i as int));
            }
            self.cache_voice_state(x);
            i = i + 1;
        }
        assert(xs.subrange(0, n as int) =~= xs);
    }

    /// Caches a created guild with all its children, and marks it available.
    pub fn cache_guild(&mut self, guild: Guild)
        ensures
            final(self)@ == old(self)@.guild_created(guild),
    {
        let ghost s0 = self@;
        let Guild { channels, emojis, info, members, presences, roles, voice_states } = guild;
        let g = info.id;
        index_ensure(&mut self.guild_channels, g.0);
        index_ensure(&mut self.guild_emojis, g.0);
        index_ensure(&mut self.guild_members, g.0);
        index_ensure(&mut self.guild_presences, g.0);
        index_ensure(&mut self.guild_roles, g.0);
        assert(self@ == s0.guild_indices_ready(g.0));
        self.cache_guild_channels(g, channels);
        self.cache_emojis(g, emojis);
        self.cache_members(g, members);
        self.cache_presences(g, presences);
        self.cache_roles(g, roles);
        self.cache_voice_states(g, voice_states);
        let ghost s6 = self@;
        self.unavailable_guilds.remove(&g.0);
        self.guilds.insert(g.0, Arc::new(info));
        assert(unshare(self.guilds@) =~= s6.guilds.insert(g.0, info));
    }

    /// Takes a user out of voice in a guild.
    fn leave_voice(&mut self, guild_id: GuildId, user_id: UserId)
        ensures
            final(self)@ == old(self)@.voice_left(guild_id.0, user_id.0),
    {
        let ghost s0 = self@;
        let k = guild_user_key(guild_id, user_id);
        let old_channel = match self.voice_states.get(&k) {
            Some(state) => state.channel_id,
            None => None,
        };
        if let Some(channel_id) = old_channel {
            pair_index_remove_prune(&mut self.voice_state_channels, channel_id.0, k);
        }
        assert(sets_view(self.voice_state_channels@) == s0.voice_channels_without(k));
        index_remove_prune(&mut self.voice_state_guilds, guild_id.0, user_id.0);
        self.voice_states.remove(&k);
        assert(unshare(self.voice_states@) =~= s0.voice_states.remove(k));
    }

    /// Drops the guild record and the channels, emojis, roles and presences
    /// listed under the guild, with those lists.
    fn drop_guild_records(&mut self, guild_id: GuildId)
        ensures
            final(self)@ == old(self)@.guild_records_dropped(guild_id.0),
    {
        let ghost s0 = self@;
        let g = guild_id.0;
        self.guilds.remove(&g);
        assert(unshare(self.guilds@) =~= s0.guilds.remove(g));
        let ids = match self.guild_channels.remove(&g) {
            Some(set) => set_elements(&set),
            None => Vec::new(),
        };
        assert(ids@.to_set() =~= set_at(s0.guild_channels, g));
        remove_all(&mut self.channels_guild, &ids);
        assert(items_view(self.channels_guild@) =~= s0.channels_guild.remove_keys(set_at(s0.guild_channels, g)));
        assert(sets_view(self.guild_channels@) =~= s0.guild_channels.remove(g));
        let ids = match self.guild_emojis.remove(&g) {
            Some(set) => set_elements(&set),
            None => Vec::new(),
        };
        assert(ids@.to_set() =~= set_at(s0.guild_emojis, g));
        remove_all(&mut self.emojis, &ids);
        assert(items_view(self.emojis@) =~= s0.emojis.remove_keys(set_at(s0.guild_emojis, g)));
        assert(sets_view(self.guild_emojis@) =~= s0.guild_emojis.remove(g));
        let ids = match self.guild_roles.remove(&g) {
            Some(set) => set_elements(&set),
            None => Vec::new(),
        };
        assert(ids@.to_set() =~= set_at(s0.guild_roles, g));
        remove_all(&mut self.roles, &ids);
        assert(items_view(self.roles@) =~= s0.roles.remove_keys(set_at(s0.guild_roles, g)));
        assert(sets_view(self.guild_roles@) =~= s0.guild_roles.remove(g));
        let ids = match self.guild_presences.remove(&g) {
            Some(set) => set_elements(&set),
            None => Vec::new(),
        };
        assert(ids@.to_set() =~= set_at(s0.guild_presences, g));
        remove_all_pairs(&mut self.presences, guild_id, &ids);
        assert(unshare(self.presences@) =~= s0.presences.remove_keys(guild_keys(g, set_at(s0.guild_presences, g))));
        assert(sets_view(self.guild_presences@) =~= s0.guild_presences.remove(g));
    }

    /// Deletes a guild and every child listed under it.
    pub fn delete_guild(&mut self, guild_id: GuildId)
        ensures
            old(self)@.guild_deleted(final(self)@, guild_id),
    {
        let ghost s0 = self@;
        let g = guild_id.0;
        self.drop_guild_records(guild_id);
        let ghost s1 = self@;
        let users = match self.guild_members.get(&g) {
            Some(set) => set_elements(set),
            None => Vec::new(),
        };
        assert(users@.to_set() =~= set_at(s0.guild_members, g));
        let voice_users = match self.voice_state_guilds.get(&g) {
            Some(set) => set_elements(set),
            None => Vec::new(),
        };
        assert(voice_users@.to_set() =~= set_at(s0.voice_state_guilds, g));
        let mut i: usize = 0;
        while i < users.len()
            invariant
                i <= users@.len(),
                self@ == s1.members_dropped(guild_id, users@.subrange(0, i as int)),
            decreases users@.len() - i,
        {
            proof {
                assert(users@.subrange(0, i + 1).drop_last() =~= users@.subrange(0, i as int));
            }
            self.remove_member(guild_id, UserId(users[i]));
            i = i + 1;
        }
        assert(users@.subrange(0, i as int) =~= users@);
        let ghost s2 = self@;
        let mut j: usize = 0;
        while j < voice_users.len()
            invariant
                j <= voice_users@.len(),
                g == guild_id.0,
                self@ == s2.voice_dropped(g, voice_users@.subrange(0, j as int)),
            decreases voice_users@.len() - j,
        {
            proof {
                assert(voice_users@.subrange(0, j + 1).drop_last() =~= voice_users@.subrange(0, j as int));
            }
            self.leave_voice(guild_id, UserId(voice_users[j]));
            j = j + 1;
        }
        assert(voice_users@.subrange(0, j as int) =~= voice_users@);
        let ghost s3 = self@;
        self.guild_members.remove(&g);
        assert(sets_view(self.guild_members@) =~= s3.guild_members.remove(g));
        assert(self@ == (CacheView { guild_members: s3.guild_members.remove(g), ..s3 }));
        assert(users@.to_set() == set_at(s0.guild_members, g) && voice_users@.to_set() == set_at(s0.voice_state_guilds, g));
    }

    /// Lays the fields of a guild update over the cached guild; a guild
    /// that is not cached is ignored.
    pub fn update_guild(&mut self, update: PartialGuild)
        ensures
            final(self)@ == old(self)@.guild_updated(update),
    {
        let ghost s0 = self@;
        let ghost pg = update;
        let g = update.id.0;
        let kept = match self.guilds.get(&g) {
            Some(held) => Some((held.id, held.explicit_content_filter, held.joined_at.clone(), held.large,
                held.member_count, held.rules_channel_id, held.unavailable)),
            None => None,
        };
        if let Some((id, explicit_content_filter, joined_at, large, member_count, rules_channel_id, unavailable)) = kept {
            let PartialGuild {
                afk_channel_id,
                afk_timeout,
                banner,
                default_message_notifications,
                description,
                embed_channel_id,
                embed_enabled,
                features,
                icon,
                id: _,
                max_members,
                max_presences,
                mfa_level,
                name,
                owner,
                owner_id,
                permissions,
                preferred_locale,
                premium_subscription_count,
                premium_tier,
                region,
                splash,
                system_channel_id,
                vanity_url_code,
                verification_level,
                widget_channel_id,
                widget_enabled,
            } = update;
            let max_presences = match max_presences {
                Some(n) => n,
                None => DEFAULT_MAX_PRESENCES,
            };
            let premium_subscription_count = match premium_subscription_count {
                Some(n) => n,
                None => 0,
            };
            let record = CachedGuild {
                afk_channel_id,
                afk_timeout,
                banner,
                default_message_notifications,
                description,
                embed_channel_id,
                embed_enabled: Some(embed_enabled),
                explicit_content_filter,
                features,
                icon,
                id,
                joined_at,
                large,
                max_members,
                max_presences: Some(max_presences),
                member_count,
                mfa_level,
                name,
                owner,
                owner_id,
                permissions,
                preferred_locale,
                premium_subscription_count: Some(premium_subscription_count),
                premium_tier,
                region,
                rules_channel_id,
                splash,
                system_channel_id,
                unavailable,
                vanity_url_code,
                verification_level,
                widget_channel_id,
                widget_enabled,
            };
            assert(record == guild_overlaid(s0.guilds[g], pg));
            self.guilds.insert(g, Arc::new(record));
            assert(unshare(self.guilds@) =~= s0.guilds.insert(g, guild_overlaid(s0.guilds[g], pg)));
        }
    }

    /// Marks a guild unavailable, dropping its record.
    pub fn unavailable_guild(&mut self, guild_id: GuildId)
        ensures
            final(self)@ == old(self)@.guild_unavailable(guild_id.0),
    {
        let ghost s0 = self@;
        self.unavailable_guilds.insert(guild_id.0);
        self.guilds.remove(&guild_id.0);
        assert(unshare(self.guilds@) =~= s0.guilds.remove(guild_id.0));
    }

    /// Replaces the client's own user.
    pub fn cache_current_user(&mut self, current_user: CurrentUser)
        ensures
            final(self)@ == old(self)@.current_user_cached(current_user),
    {
        self.current_user = Some(Arc::new(current_user));
    }

    /// Takes the guilds of a ready event in order: online guilds are
    /// created, offline ones marked unavailable.
    pub fn cache_guild_statuses(&mut self, guilds: Vec<GuildStatus>)
        ensures
            final(self)@ == old(self)@.guild_statuses_cached(guilds@),
    {
        let ghost s0 = self@;
        let ghost xs = guilds@;
        let mut rest = guilds;
        let n = rest.len();
        let mut i: usize = 0;
        while i < n
            invariant
                n == xs.len(),
                i <= n,
                rest@ == xs.subrange(i as int, n as int),
                self@ == s0.guild_statuses_cached(xs.subrange(0, i as int)),
            decreases n - i,
        {
            let x = rest.remove(0);
            proof {
                assert(xs.subrange(0, i + 1).drop_last() =~= xs.subrange(0, i as int));
            }
            match x {
                GuildStatus::Offline(u) => self.unavailable_guild(u.id),
                GuildStatus::Online(gd) => self.cache_guild(gd),
            }
            i = i + 1;
        }
        assert(xs.subrange(0, n as int) =~= xs);
    }
}

} // verus!
