//! Members, presences and the shared user records.
use vstd::prelude::*;
use std::collections::HashSet;
use std::sync::Arc;
use crate::cache::{share, users_view, unshare, CacheView, InMemoryCache, UserEntry};
use crate::cache::voice::lemma_key_only;
use crate::id::{guild_user_key, pair_key, GuildId, RoleId, UserId};
use crate::index::{index_add, index_remove, set_map_add, set_map_remove, sets_view};
use crate::model::{CachedMember, CachedPresence, Member, Presence, Snapshot, User};

verus! {

broadcast use vstd::std_specs::hash::group_hash_axioms;

/// The member record the cache keeps for `m` in guild `g`.
pub open spec fn cached_member(g: GuildId, m: Member) -> CachedMember {
    CachedMember {
        deaf: m.deaf,
        guild_id: g,
        joined_at: m.joined_at,
        mute: m.mute,
        nick: m.nick,
        premium_since: m.premium_since,
        roles: m.roles,
        user_id: m.user.id,
    }
}

/// The presence record the cache keeps for `p` in guild `g`.
pub open spec fn cached_presence(g: GuildId, p: Presence) -> CachedPresence {
    CachedPresence {
        activities: p.activities,
        guild_id: g,
        nick: p.nick,
        status: p.status,
        user_id: p.user.spec_id(),
    }
}

/// The user index after `user` is seen in guild `g`: the guild joins the
/// user's guild set, and the record is replaced unless it is unchanged.
pub open spec fn user_seen(users: Map<u64, (User, Set<u64>)>, user: User, g: u64) -> Map<u64, (User, Set<u64>)> {
    let u = user.id.0;
    if users.contains_key(u) {
        let kept = if users[u].0.same(&user) { users[u].0 } else { user };
        users.insert(u, (kept, users[u].1.insert(g)))
    } else {
        users.insert(u, (user, set![g]))
    }
}

/// The user index after user `u` leaves guild `g`; a user left in no guild
/// is dropped.
pub open spec fn user_left(users: Map<u64, (User, Set<u64>)>, u: u64, g: u64) -> Map<u64, (User, Set<u64>)> {
    if users.contains_key(u) {
        if users[u].1.remove(g).is_empty() {
            users.remove(u)
        } else {
            users.insert(u, (users[u].0, users[u].1.remove(g)))
        }
    } else {
        users
    }
}

impl CacheView {
    /// The cache after user `user` is seen in guild `g`.
    pub open spec fn user_cached(self, user: User, g: GuildId) -> CacheView {
        CacheView { users: user_seen(self.users, user, g.0), ..self }
    }

    /// The cache after member `m` of guild `g` is cached: an unchanged
    /// record is left as it is; otherwise the record is replaced and the
    /// user is seen in the guild. Either way the guild lists the user.
    pub open spec fn member_cached(self, g: GuildId, m: Member) -> CacheView {
        let k = pair_key(g.0, m.user.id.0);
        let cm = cached_member(g, m);
        let guild_members = set_map_add(self.guild_members, g.0, m.user.id.0);
        if self.members.contains_key(k) && self.members[k].same(&cm) {
            CacheView { guild_members, ..self }
        } else {
            CacheView {
                users: user_seen(self.users, m.user, g.0),
                members: self.members.insert(k, cm),
                guild_members,
                ..self
            }
        }
    }

    /// The cache after user `u` is removed from the members of guild `g`.
    pub open spec fn member_removed(self, g: GuildId, u: UserId) -> CacheView {
        CacheView {
            members: self.members.remove(pair_key(g.0, u.0)),
            guild_members: set_map_remove(self.guild_members, g.0, u.0),
            users: user_left(self.users, u.0, g.0),
            ..self
        }
    }

    /// The cache after the nickname and roles of a cached member change;
    /// a member that is not cached is ignored.
    pub open spec fn member_updated(self, g: GuildId, u: UserId, nick: Option<String>, roles: Vec<RoleId>) -> CacheView {
        let k = pair_key(g.0, u.0);
        if self.members.contains_key(k) {
            CacheView {
                members: self.members.insert(k, CachedMember { nick, roles, ..self.members[k] }),
                ..self
            }
        } else {
            self
        }
    }

    /// The cache after the presence `p` in guild `g` is cached: an unchanged
    /// record is left as it is, otherwise it is replaced; either way the
    /// guild lists the user.
    pub open spec fn presence_cached(self, g: GuildId, p: Presence) -> CacheView {
        let k = pair_key(g.0, p.user.spec_id().0);
        let cp = cached_presence(g, p);
        let guild_presences = set_map_add(self.guild_presences, g.0, p.user.spec_id().0);
        if self.presences.contains_key(k) && self.presences[k].same(&cp) {
            CacheView { guild_presences, ..self }
        } else {
            CacheView { presences: self.presences.insert(k, cp), guild_presences, ..self }
        }
    }
}

/// Caching a member keeps the cache consistent.
pub proof fn lemma_member_cached_wf(s: CacheView, g: GuildId, m: Member)
    requires
        s.wf(),
    ensures
        s.member_cached(g, m).wf(),
{
    let u = m.user.id.0;
    lemma_key_only(g.0, u);
    let t = s.member_cached(g, m);
    assert forall|g2: u64, u2: u64| #[trigger] t.members.contains_key(pair_key(g2, u2)) implies {
        &&& t.guild_members.contains_key(g2)
        &&& t.guild_members[g2].contains(u2)
        &&& t.users.contains_key(u2)
        &&& t.users[u2].1.contains(g2)
    } by {
        if pair_key(g2, u2) != pair_key(g.0, u) {
            assert(s.members.contains_key(pair_key(g2, u2)));
        }
    }
    assert forall|u2: u64| #[trigger] t.users.contains_key(u2) implies {
        &&& !t.users[u2].1.is_empty()
        &&& forall|g2: u64| #[trigger] t.users[u2].1.contains(g2) <==> t.members.contains_key(pair_key(g2, u2))
    } by {
        if u2 == u {
            assert(t.users[u2].1.contains(g.0));
            assert forall|g2: u64| #[trigger] t.users[u2].1.contains(g2) <==> t.members.contains_key(pair_key(g2, u2)) by {
                if g2 != g.0 {
                    crate::id::lemma_pair_key_injective(g2, u2, g.0, u);
                }
            }
        } else {
            assert forall|g2: u64| #[trigger] t.users[u2].1.contains(g2) <==> t.members.contains_key(pair_key(g2, u2)) by {
                crate::id::lemma_pair_key_injective(g2, u2, g.0, u);
            }
        }
    }
    assert(t.members_indexed());
    assert(t.users_exact());
}

/// Removing a member keeps the cache consistent.
pub proof fn lemma_member_removed_wf(s: CacheView, g: GuildId, u: UserId)
    requires
        s.wf(),
    ensures
        s.member_removed(g, u).wf(),
{
    lemma_key_only(g.0, u.0);
    let t = s.member_removed(g, u);
    assert forall|g2: u64, u2: u64| #[trigger] t.members.contains_key(pair_key(g2, u2)) implies {
        &&& t.guild_members.contains_key(g2)
        &&& t.guild_members[g2].contains(u2)
        &&& t.users.contains_key(u2)
        &&& t.users[u2].1.contains(g2)
    } by {
        assert(s.members.contains_key(pair_key(g2, u2)));
        crate::id::lemma_pair_key_injective(g2, u2, g.0, u.0);
        if u2 == u.0 {
            assert(s.users[u2].1.remove(g.0).contains(g2));
        }
    }
    assert forall|u2: u64| #[trigger] t.users.contains_key(u2) implies {
        &&& !t.users[u2].1.is_empty()
        &&& forall|g2: u64| #[trigger] t.users[u2].1.contains(g2) <==> t.members.contains_key(pair_key(g2, u2))
    } by {
        assert forall|g2: u64| #[trigger] t.users[u2].1.contains(g2) <==> t.members.contains_key(pair_key(g2, u2)) by {
            crate::id::lemma_pair_key_injective(g2, u2, g.0, u.0);
        }
    }
    assert(t.members_indexed());
    assert(t.users_exact());
}

/// Updating a member's nickname and roles keeps the cache consistent.
pub proof fn lemma_member_updated_wf(s: CacheView, g: GuildId, u: UserId, nick: Option<String>, roles: Vec<RoleId>)
    requires
        s.wf(),
    ensures
        s.member_updated(g, u, nick, roles).wf(),
{
    let t = s.member_updated(g, u, nick, roles);
    assert(t.members.dom() =~= s.members.dom());
    assert forall|g2: u64, u2: u64| #[trigger] t.members.contains_key(pair_key(g2, u2)) implies
        s.members.contains_key(pair_key(g2, u2)) by {}
    assert(t.members_indexed());
    assert(t.users_exact());
}

/// Caching a presence keeps the cache consistent.
pub proof fn lemma_presence_cached_wf(s: CacheView, g: GuildId, p: Presence)
    requires
        s.wf(),
    ensures
        s.presence_cached(g, p).wf(),
{
    let u = p.user.spec_id().0;
    lemma_key_only(g.0, u);
    let t = s.presence_cached(g, p);
    assert forall|g2: u64, u2: u64| #[trigger] t.presences.contains_key(pair_key(g2, u2)) implies {
        &&& t.guild_presences.contains_key(g2)
        &&& t.guild_presences[g2].contains(u2)
    } by {
        if pair_key(g2, u2) != pair_key(g.0, u) {
            assert(s.presences.contains_key(pair_key(g2, u2)));
        }
    }
    assert(t.presences_indexed());
}

impl InMemoryCache {
    /// Records that `user` is seen in guild `guild_id`, returning the handle
    /// now held for the user. An unchanged record keeps its handle.
    pub fn cache_user(&mut self, user: User, guild_id: GuildId) -> (r: Arc<User>)
        ensures
            final(self)@ == old(self)@.user_cached(user, guild_id),
            *r == final(self)@.users[user.id.0].0,
    {
        let ghost s0 = self@;
        let id = user.id.0;
        match self.users.remove(&id) {
            Some(entry) => {
                let UserEntry { user: held, guilds } = entry;
                let mut guilds = guilds;
                guilds.insert(guild_id.0);
                let kept = if held.same_as(&user) {
                    held
                } else {
                    Arc::new(user)
                };
                self.users.insert(id, UserEntry { user: share(&kept), guilds });
                assert(users_view(self.users@) =~= user_seen(s0.users, user, guild_id.0));
                kept
            },
            None => {
                let mut guilds = HashSet::new();
                guilds.insert(guild_id.0);
                let kept = Arc::new(user);
                self.users.insert(id, UserEntry { user: share(&kept), guilds });
                assert(users_view(self.users@) =~= user_seen(s0.users, user, guild_id.0));
                kept
            },
        }
    }

    /// Caches a member of a guild and lists it under the guild, returning
    /// the handle now held for the member.
    pub fn cache_member(&mut self, guild_id: GuildId, member: Member) -> (r: Arc<CachedMember>)
        ensures
            final(self)@ == old(self)@.member_cached(guild_id, member),
            *r == final(self)@.members[pair_key(guild_id.0, member.user.id.0)],
    {
        let ghost s0 = self@;
        let user_id = member.user.id;
        let k = guild_user_key(guild_id, user_id);
        index_add(&mut self.guild_members, guild_id.0, user_id.0);
        let Member { deaf, guild_id: _, joined_at, mute, nick, premium_since, roles, user } = member;
        let cached = CachedMember {
            deaf,
            guild_id,
            joined_at,
            mute,
            nick,
            premium_since,
            roles,
            user_id,
        };
        if let Some(held) = self.members.get(&k) {
            if held.same_as(&cached) {
                return share(held);
            }
        }
        self.cache_user(user, guild_id);
        let r = Arc::new(cached);
        self.members.insert(k, share(&r));
        assert(unshare(self.members@) =~= s0.members.insert(k, cached_member(guild_id, member)));
        r
    }

    /// Removes a member of a guild, dropping the guild from the user's guild
    /// set and the user once no guild is left in it.
    pub fn remove_member(&mut self, guild_id: GuildId, user_id: UserId)
        ensures
            final(self)@ == old(self)@.member_removed(guild_id, user_id),
    {
        let ghost s0 = self@;
        let k = guild_user_key(guild_id, user_id);
        let removed = self.members.remove(&k);
        assert(unshare(self.members@) =~= s0.members.remove(k));
        index_remove(&mut self.guild_members, guild_id.0, user_id.0);
        if let Some(entry) = self.users.remove(&user_id.0) {
            let UserEntry { user, guilds } = entry;
            let mut guilds = guilds;
            guilds.remove(&guild_id.0);
            if !guilds.is_empty() {
                self.users.insert(user_id.0, UserEntry { user, guilds });
            }
        }
        assert(users_view(self.users@) =~= user_left(s0.users, user_id.0, guild_id.0));
    }

    /// Replaces the nickname and roles of a cached member; a member that is
    /// not cached is left alone.
    pub fn update_member(&mut self, guild_id: GuildId, user_id: UserId, nick: Option<String>, roles: Vec<RoleId>)
        ensures
            final(self)@ == old(self)@.member_updated(guild_id, user_id, nick, roles),
    {
        let ghost s0 = self@;
        let k = guild_user_key(guild_id, user_id);
        let updated = match self.members.get(&k) {
            Some(held) => Some(CachedMember {
                deaf: held.deaf,
                guild_id: held.guild_id,
                joined_at: held.joined_at.clone(),
                mute: held.mute,
                nick,
                premium_since: held.premium_since.clone(),
                roles,
                user_id: held.user_id,
            }),
            None => None,
        };
        if let Some(m) = updated {
            self.members.insert(k, Arc::new(m));
            assert(unshare(self.members@) =~= s0.members.insert(k, CachedMember { nick, roles, ..s0.members[k] }));
        }
    }

    /// Caches the presence of a user in a guild and lists it under the
    /// guild, returning the handle now held for the presence.
    pub fn cache_presence(&mut self, guild_id: GuildId, presence: Presence) -> (r: Arc<CachedPresence>)
        ensures
            final(self)@ == old(self)@.presence_cached(guild_id, presence),
            *r == final(self)@.presences[pair_key(guild_id.0, presence.user.spec_id().0)],
    {
        let ghost s0 = self@;
        let user_id = presence.user.id();
        let k = guild_user_key(guild_id, user_id);
        index_add(&mut self.guild_presences, guild_id.0, user_id.0);
        let Presence { activities, guild_id: _, nick, status, user: _ } = presence;
        let cached = CachedPresence { activities, guild_id, nick, status, user_id };
        if let Some(held) = self.presences.get(&k) {
            if held.same_as(&cached) {
                return share(held);
            }
        }
        let r = Arc::new(cached);
        self.presences.insert(k, share(&r));
        assert(unshare(self.presences@) =~= s0.presences.insert(k, cached_presence(guild_id, presence)));
        r
    }
}

} // verus!
