//! Guild channels, private channels, groups, roles and emojis.
use vstd::prelude::*;
use std::sync::Arc;
use crate::cache::{
    guild_item_upserted, item_upserted, items_view, share, unshare, upsert_guild_item,
    upsert_item, CacheView, GuildItem, InMemoryCache,
};
use crate::id::{ChannelId, EmojiId, GuildId, RoleId};
use crate::index::{index_add, index_remove, set_map_add, set_map_remove, sets_view};
use crate::model::{
    CachedEmoji, Channel, Duplicate, Emoji, Group, GuildChannel, PrivateChannel, Role,
    Snapshot, TextChannel,
};

verus! {

broadcast use vstd::std_specs::hash::group_hash_axioms;

/// The emoji record the cache keeps for `e`.
pub open spec fn cached_emoji(e: Emoji) -> CachedEmoji {
    CachedEmoji {
        animated: e.animated,
        available: e.available,
        id: e.id,
        managed: e.managed,
        name: e.name,
        require_colons: e.require_colons,
        roles: e.roles,
        user_id: match e.user {
            Some(u) => Some(u.id),
            None => None,
        },
    }
}

/// A text channel with its last pin timestamp set to `ts`.
pub open spec fn text_pinned(tc: TextChannel, ts: Option<String>) -> GuildChannel {
    GuildChannel::Text(TextChannel { last_pin_timestamp: ts, ..tc })
}

/// A private channel with its last pin timestamp set to `ts`.
pub open spec fn private_pinned(p: PrivateChannel, ts: Option<String>) -> PrivateChannel {
    PrivateChannel { last_pin_timestamp: ts, ..p }
}

/// A group with its last pin timestamp set to `ts`.
pub open spec fn group_pinned(grp: Group, ts: Option<String>) -> Group {
    Group { last_pin_timestamp: ts, ..grp }
}

impl CacheView {
    /// The cache after channel `ch` of guild `g` is cached: the channel is
    /// attached to the guild and listed under it.
    pub open spec fn guild_channel_cached(self, g: GuildId, ch: GuildChannel) -> CacheView {
        let c = ch.spec_id().0;
        CacheView {
            channels_guild: guild_item_upserted(self.channels_guild, g, c, ch.with_guild(g)),
            guild_channels: set_map_add(self.guild_channels, g.0, c),
            ..self
        }
    }

    /// The cache after guild channel `c` is deleted, from the channel index
    /// and from its guild's channel set.
    pub open spec fn guild_channel_deleted(self, c: u64) -> CacheView {
        if self.channels_guild.contains_key(c) {
            CacheView {
                channels_guild: self.channels_guild.remove(c),
                guild_channels: set_map_remove(self.guild_channels, self.channels_guild[c].0.0, c),
                ..self
            }
        } else {
            self
        }
    }

    /// The cache after a private channel is cached.
    pub open spec fn private_channel_cached(self, p: PrivateChannel) -> CacheView {
        CacheView { channels_private: item_upserted(self.channels_private, p.id.0, p), ..self }
    }

    /// The cache after a group is cached.
    pub open spec fn group_cached(self, grp: Group) -> CacheView {
        CacheView { groups: item_upserted(self.groups, grp.id.0, grp), ..self }
    }

    /// The cache after a channel is created or updated. A guild channel
    /// that names no guild is ignored.
    pub open spec fn channel_cached(self, ch: Channel) -> CacheView {
        match ch {
            Channel::Group(grp) => self.group_cached(grp),
            Channel::Guild(gc) => match gc.spec_guild_id() {
                Some(g) => self.guild_channel_cached(g, gc),
                None => self,
            },
            Channel::Private(p) => self.private_channel_cached(p),
        }
    }

    /// The cache after a channel is deleted.
    pub open spec fn channel_deleted(self, ch: Channel) -> CacheView {
        match ch {
            Channel::Group(grp) => CacheView { groups: self.groups.remove(grp.id.0), ..self },
            Channel::Guild(gc) => self.guild_channel_deleted(gc.spec_id().0),
            Channel::Private(p) => CacheView { channels_private: self.channels_private.remove(p.id.0), ..self },
        }
    }

    /// Whether `t` is the cache after the pins of channel `c` change to
    /// `ts`: the channel's record is replaced by one holding the same data
    /// but the timestamp. A guild channel gets the timestamp only if it is a
    /// text channel; a private channel or a group is looked at only when no
    /// guild channel has the identifier.
    pub open spec fn channel_pins_updated(self, t: CacheView, c: u64, ts: Option<String>) -> bool {
        if self.channels_guild.contains_key(c) {
            match self.channels_guild[c].1 {
                GuildChannel::Text(tc) => exists|x: GuildChannel|
                    #[trigger] x.same(&text_pinned(tc, ts))
                    && t == (CacheView {
                        channels_guild: self.channels_guild.insert(c, (self.channels_guild[c].0, x)),
                        ..self
                    }),
                _ => t == self,
            }
        } else if self.channels_private.contains_key(c) {
            exists|x: PrivateChannel|
                #[trigger] x.same(&private_pinned(self.channels_private[c], ts))
                && t == (CacheView { channels_private: self.channels_private.insert(c, x), ..self })
        } else if self.groups.contains_key(c) {
            exists|x: Group|
                #[trigger] x.same(&group_pinned(self.groups[c], ts))
                && t == (CacheView { groups: self.groups.insert(c, x), ..self })
        } else {
            t == self
        }
    }

    /// The cache after role `r` of guild `g` is cached and listed under it.
    pub open spec fn role_cached(self, g: GuildId, r: Role) -> CacheView {
        CacheView {
            roles: guild_item_upserted(self.roles, g, r.id.0, r),
            guild_roles: set_map_add(self.guild_roles, g.0, r.id.0),
            ..self
        }
    }

    /// The cache after role `r` is deleted, from the role index and from the
    /// role set of the guild it is stored with.
    pub open spec fn role_deleted(self, r: u64) -> CacheView {
        if self.roles.contains_key(r) {
            CacheView {
                roles: self.roles.remove(r),
                guild_roles: set_map_remove(self.guild_roles, self.roles[r].0.0, r),
                ..self
            }
        } else {
            self
        }
    }

    /// The cache after emoji `e` of guild `g` is cached and listed under it.
    pub open spec fn emoji_cached(self, g: GuildId, e: Emoji) -> CacheView {
        CacheView {
            emojis: guild_item_upserted(self.emojis, g, e.id.0, cached_emoji(e)),
            guild_emojis: set_map_add(self.guild_emojis, g.0, e.id.0),
            ..self
        }
    }

    /// The cache after the emojis `es` of guild `g` are cached in order.
    pub open spec fn emojis_cached(self, g: GuildId, es: Seq<Emoji>) -> CacheView
        decreases es.len(),
    {
        if es.len() == 0 {
            self
        } else {
            self.emojis_cached(g, es.drop_last()).emoji_cached(g, es.last())
        }
    }
}

/// Caching a guild channel keeps the cache consistent.
pub proof fn lemma_guild_channel_cached_wf(s: CacheView, g: GuildId, ch: GuildChannel)
    requires
        s.wf(),
    ensures
        s.guild_channel_cached(g, ch).wf(),
{
    let t = s.guild_channel_cached(g, ch);
    let c = ch.spec_id().0;
    assert(ch.with_guild(g).spec_id() == ch.spec_id());
    assert(ch.with_guild(g).spec_guild_id() == Some(g));
    assert forall|c2: u64| #[trigger] t.channels_guild.contains_key(c2) implies {
        let (g2, ch2) = t.channels_guild[c2];
        &&& t.guild_channels.contains_key(g2.0)
        &&& t.guild_channels[g2.0].contains(c2)
        &&& ch2.spec_guild_id() == Some(g2)
        &&& ch2.spec_id().0 == c2
    } by {
        if c2 == c && s.channels_guild.contains_key(c) && s.channels_guild[c].1.same(&ch.with_guild(g)) {
            assert(s.channels_guild[c].1.spec_guild_id() == ch.with_guild(g).spec_guild_id());
        }
    }
    assert(t.channels_indexed());
}

/// Deleting a guild channel keeps the cache consistent.
pub proof fn lemma_guild_channel_deleted_wf(s: CacheView, c: u64)
    requires
        s.wf(),
    ensures
        s.guild_channel_deleted(c).wf(),
{
    let t = s.guild_channel_deleted(c);
    assert(t.channels_indexed());
}

/// Changing the pins of a channel keeps the cache consistent.
pub proof fn lemma_channel_pins_updated_wf(s: CacheView, t: CacheView, c: u64, ts: Option<String>)
    requires
        s.wf(),
        s.channel_pins_updated(t, c, ts),
    ensures
        t.wf(),
{
    if s.channels_guild.contains_key(c) {
        if let GuildChannel::Text(tc) = s.channels_guild[c].1 {
            let x = choose|x: GuildChannel| x.same(&text_pinned(tc, ts))
                && t == (CacheView {
                    channels_guild: s.channels_guild.insert(c, (s.channels_guild[c].0, x)),
                    ..s
                });
            assert(x.spec_id() == s.channels_guild[c].1.spec_id());
            assert(x.spec_guild_id() == s.channels_guild[c].1.spec_guild_id());
            assert(t.channels_indexed());
        }
    }
}

/// Creating, updating or deleting a channel keeps the cache consistent.
pub proof fn lemma_channel_events_wf(s: CacheView, ch: Channel)
    requires
        s.wf(),
    ensures
        s.channel_cached(ch).wf(),
        s.channel_deleted(ch).wf(),
{
    match ch {
        Channel::Guild(gc) => {
            if let Some(g) = gc.spec_guild_id() {
                lemma_guild_channel_cached_wf(s, g, gc);
            }
            lemma_guild_channel_deleted_wf(s, gc.spec_id().0);
        },
        _ => {},
    }
}

/// Caching or deleting a role keeps the cache consistent.
pub proof fn lemma_role_events_wf(s: CacheView, g: GuildId, r: Role, rid: u64)
    requires
        s.wf(),
    ensures
        s.role_cached(g, r).wf(),
        s.role_deleted(rid).wf(),
{
    let t = s.role_cached(g, r);
    assert(t.roles_indexed());
    let t2 = s.role_deleted(rid);
    assert(t2.roles_indexed());
}

/// Caching emojis keeps the cache consistent.
pub proof fn lemma_emojis_cached_wf(s: CacheView, g: GuildId, es: Seq<Emoji>)
    requires
        s.wf(),
    ensures
        s.emojis_cached(g, es).wf(),
    decreases es.len(),
{
    if es.len() > 0 {
        lemma_emojis_cached_wf(s, g, es.drop_last());
        let t0 = s.emojis_cached(g, es.drop_last());
        let t = t0.emoji_cached(g, es.last());
        assert(t.emojis_indexed());
    }
}

impl InMemoryCache {
    /// Caches a channel of guild `guild_id`, attaching it to that guild and
    /// listing it under the guild. Returns the handle now held.
    pub fn cache_guild_channel(&mut self, guild_id: GuildId, channel: GuildChannel) -> (r: Arc<GuildChannel>)
        ensures
            final(self)@ == old(self)@.guild_channel_cached(guild_id, channel),
            *r == final(self)@.channels_guild[channel.spec_id().0].1,
    {
        let mut channel = channel;
        channel.set_guild_id(guild_id);
        let id = channel.id();
        index_add(&mut self.guild_channels, guild_id.0, id.0);
        upsert_guild_item(&mut self.channels_guild, guild_id, id.0, channel)
    }

    /// Removes a guild channel from the channel index and from its guild's
    /// channel set. Returns the removed channel.
    pub fn delete_guild_channel(&mut self, channel_id: ChannelId) -> (r: Option<Arc<GuildChannel>>)
        ensures
            final(self)@ == old(self)@.guild_channel_deleted(channel_id.0),
            match r {
                Some(x) => old(self)@.channels_guild.contains_key(channel_id.0)
                    && *x == old(self)@.channels_guild[channel_id.0].1,
                None => !old(self)@.channels_guild.contains_key(channel_id.0),
            },
    {
        let ghost s0 = self@;
        match self.channels_guild.remove(&channel_id.0) {
            Some(item) => {
                assert(items_view(self.channels_guild@) =~= s0.channels_guild.remove(channel_id.0));
                let GuildItem { data, guild_id } = item;
                index_remove(&mut self.guild_channels, guild_id.0, channel_id.0);
                Some(data)
            },
            None => {
                assert(items_view(self.channels_guild@) =~= s0.channels_guild);
                None
            },
        }
    }

    /// Caches a private channel, returning the handle now held.
    pub fn cache_private_channel(&mut self, channel: PrivateChannel) -> (r: Arc<PrivateChannel>)
        ensures
            final(self)@ == old(self)@.private_channel_cached(channel),
            *r == final(self)@.channels_private[channel.id.0],
    {
        let id = channel.id.0;
        upsert_item(&mut self.channels_private, id, channel)
    }

    /// Caches a group, returning the handle now held.
    pub fn cache_group(&mut self, group: Group) -> (r: Arc<Group>)
        ensures
            final(self)@ == old(self)@.group_cached(group),
            *r == final(self)@.groups[group.id.0],
    {
        let id = group.id.0;
        upsert_item(&mut self.groups, id, group)
    }

    /// Caches a created or updated channel.
    pub fn cache_channel(&mut self, channel: Channel)
        ensures
            final(self)@ == old(self)@.channel_cached(channel),
    {
        match channel {
            Channel::Group(c) => {
                self.cache_group(c);
            },
            Channel::Guild(c) => {
                if let Some(gid) = c.guild_id() {
                    self.cache_guild_channel(gid, c);
                }
            },
            Channel::Private(c) => {
                self.cache_private_channel(c);
            },
        }
    }

    /// Removes a deleted channel.
    pub fn delete_channel(&mut self, channel: &Channel)
        ensures
            final(self)@ == old(self)@.channel_deleted(*channel),
    {
        let ghost s0 = self@;
        match channel {
            Channel::Group(c) => {
                self.groups.remove(&c.id.0);
                assert(unshare(self.groups@) =~= s0.groups.remove(c.id.0));
            },
            Channel::Guild(c) => {
                self.delete_guild_channel(c.id());
            },
            Channel::Private(c) => {
                self.channels_private.remove(&c.id.0);
                assert(unshare(self.channels_private@) =~= s0.channels_private.remove(c.id.0));
            },
        }
    }

    /// Sets the last pin timestamp of a channel, replacing its record.
    pub fn update_channel_pins(&mut self, channel_id: ChannelId, last_pin_timestamp: Option<String>)
        ensures
            old(self)@.channel_pins_updated(final(self)@, channel_id.0, last_pin_timestamp),
    {
        let ghost s0 = self@;
        let ghost ts = last_pin_timestamp;
        let c = channel_id.0;
        if let Some(item) = self.channels_guild.get(&c) {
            let guild_id = item.guild_id;
            if let GuildChannel::Text(copy) = item.data.duplicate() {
                let mut copy = copy;
                copy.last_pin_timestamp = last_pin_timestamp;
                let x = GuildChannel::Text(copy);
                let ghost xv = x;
                proof {
                    ts.lemma_same_refl();
                    if let GuildChannel::Text(tc) = s0.channels_guild[c].1 {
                        assert(xv.same(&text_pinned(tc, ts)));
                    }
                }
                self.channels_guild.insert(c, GuildItem { data: Arc::new(x), guild_id });
                assert(items_view(self.channels_guild@) =~= s0.channels_guild.insert(c, (guild_id, xv)));
            }
            return;
        }
        if let Some(p) = self.channels_private.get(&c) {
            let mut x = p.duplicate();
            x.last_pin_timestamp = last_pin_timestamp;
            let ghost xv = x;
            proof {
                ts.lemma_same_refl();
                assert(xv.same(&private_pinned(s0.channels_private[c], ts)));
            }
            self.channels_private.insert(c, Arc::new(x));
            assert(unshare(self.channels_private@) =~= s0.channels_private.insert(c, xv));
            return;
        }
        if let Some(grp) = self.groups.get(&c) {
            let mut x = grp.duplicate();
            x.last_pin_timestamp = last_pin_timestamp;
            let ghost xv = x;
            proof {
                ts.lemma_same_refl();
                assert(xv.same(&group_pinned(s0.groups[c], ts)));
            }
            self.groups.insert(c, Arc::new(x));
            assert(unshare(self.groups@) =~= s0.groups.insert(c, xv));
        }
    }

    /// Caches a role of guild `guild_id` and lists it under the guild.
    /// Returns the handle now held.
    pub fn cache_role(&mut self, guild_id: GuildId, role: Role) -> (r: Arc<Role>)
        ensures
            final(self)@ == old(self)@.role_cached(guild_id, role),
            *r == final(self)@.roles[role.id.0].1,
    {
        let id = role.id.0;
        index_add(&mut self.guild_roles, guild_id.0, id);
        upsert_guild_item(&mut self.roles, guild_id, id, role)
    }

    /// Removes a role from the role index and from the role set of the guild
    /// it is stored with. Returns the removed role.
    pub fn delete_role(&mut self, role_id: RoleId) -> (r: Option<Arc<Role>>)
        ensures
            final(self)@ == old(self)@.role_deleted(role_id.0),
            match r {
                Some(x) => old(self)@.roles.contains_key(role_id.0) && *x == old(self)@.roles[role_id.0].1,
                None => !old(self)@.roles.contains_key(role_id.0),
            },
    {
        let ghost s0 = self@;
        match self.roles.remove(&role_id.0) {
            Some(item) => {
                assert(items_view(self.roles@) =~= s0.roles.remove(role_id.0));
                let GuildItem { data, guild_id } = item;
                index_remove(&mut self.guild_roles, guild_id.0, role_id.0);
                Some(data)
            },
            None => {
                assert(items_view(self.roles@) =~= s0.roles);
                None
            },
        }
    }

    /// Caches an emoji of guild `guild_id` and lists it under the guild.
    /// Returns the handle now held.
    pub fn cache_emoji(&mut self, guild_id: GuildId, emoji: Emoji) -> (r: Arc<CachedEmoji>)
        ensures
            final(self)@ == old(self)@.emoji_cached(guild_id, emoji),
            *r == final(self)@.emojis[emoji.id.0].1,
    {
        let Emoji { animated, available, id, managed, name, require_colons, roles, user } = emoji;
        let user_id = match user {
            Some(u) => Some(u.id),
            None => None,
        };
        let cached = CachedEmoji { animated, available, id, managed, name, require_colons, roles, user_id };
        index_add(&mut self.guild_emojis, guild_id.0, id.0);
        upsert_guild_item(&mut self.emojis, guild_id, id.0, cached)
    }

    /// Caches the emojis of guild `guild_id`, in order.
    pub fn cache_emojis(&mut self, guild_id: GuildId, emojis: Vec<Emoji>)
        ensures
            final(self)@ == old(self)@.emojis_cached(guild_id, emojis@),
    {
        let ghost s0 = self@;
        let ghost es = emojis@;
        let mut emojis = emojis;
        let mut i: usize = 0;
        let n = emojis.len();
        while i < n
            invariant
                n == es.len(),
                i <= n,
                emojis@ == es.subrange(i as int, n as int),
                self@ == s0.emojis_cached(guild_id, es.subrange(0, i as int)),
            decreases n - i,
        {
            let e = emojis.remove(0);
            proof {
                assert(es.subrange(0, i + 1).drop_last() =~= es.subrange(0, i as int));
            }
            self.cache_emoji(guild_id, e);
            i = i + 1;
        }
        assert(es.subrange(0, n as int) =~= es);
    }
}

} // verus!
