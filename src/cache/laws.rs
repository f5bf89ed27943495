//! Laws of the cache: what holds in every state reached by events, and
//! how some updates relate to each other.
use vstd::prelude::*;
use crate::cache::CacheView;
use crate::cache::events::lemma_event_applied_wf;
use crate::cache::voice::lemma_key_only;
use crate::cache::messages::{insert_position, make_room, message_record, put_at};
use crate::config::Config;
use crate::event::Event;
use crate::id::{pair_key, ChannelId, GuildId, UserId};
use crate::index::{set_map_add, set_map_remove_prune};
use crate::model::{Member, Message, Snapshot, VoiceState};

verus! {

/// Whether `states` is a run of the cache: it starts empty with
/// configuration `config`, and each state follows from the one before by
/// the matching event of `events`.
pub open spec fn is_run(config: Config, events: Seq<Event>, states: Seq<CacheView>) -> bool {
    &&& states.len() == events.len() + 1
    &&& states[0] == CacheView::empty(config)
    &&& forall|i: int| 0 <= i < events.len() ==> (#[trigger] states[i]).event_applied(states[i + 1], events[i])
}

/// Every state of a run is consistent.
pub proof fn lemma_run_wf(config: Config, events: Seq<Event>, states: Seq<CacheView>)
    requires
        is_run(config, events, states),
    ensures
        forall|i: int| 0 <= i < states.len() ==> (#[trigger] states[i]).wf(),
{
    assert forall|i: int| 0 <= i < states.len() implies (#[trigger] states[i]).wf() by {
        lemma_run_prefix_wf(config, events, states, i);
    }
}

proof fn lemma_run_prefix_wf(config: Config, events: Seq<Event>, states: Seq<CacheView>, i: int)
    requires
        is_run(config, events, states),
        0 <= i < states.len(),
    ensures
        states[i].wf(),
    decreases i,
{
    if i == 0 {
        assert(states[0].wf());
    } else {
        lemma_run_prefix_wf(config, events, states, i - 1);
        assert(states[i - 1].event_applied(states[i], events[i - 1]));
        lemma_event_applied_wf(states[i - 1], states[i], events[i - 1]);
    }
}

/// In every state of a run, no guild is both available and unavailable.
pub proof fn law_guild_availability_exclusive(config: Config, events: Seq<Event>, states: Seq<CacheView>)
    requires
        is_run(config, events, states),
    ensures
        forall|i: int, g: u64| 0 <= i < states.len() && #[trigger] states[i].guilds.contains_key(g)
            ==> !states[i].unavailable_guilds.contains(g),
{
    lemma_run_wf(config, events, states);
}

/// In every state of a run, every guild channel is listed in the channel
/// set of the guild stored with it.
pub proof fn law_guild_channels_listed(config: Config, events: Seq<Event>, states: Seq<CacheView>)
    requires
        is_run(config, events, states),
    ensures
        forall|i: int, c: u64| 0 <= i < states.len() && #[trigger] states[i].channels_guild.contains_key(c)
            ==> states[i].guild_channels.contains_key(states[i].channels_guild[c].0.0)
            && states[i].guild_channels[states[i].channels_guild[c].0.0].contains(c),
{
    lemma_run_wf(config, events, states);
    assert forall|i: int, c: u64| 0 <= i < states.len() && #[trigger] states[i].channels_guild.contains_key(c)
        implies states[i].guild_channels.contains_key(states[i].channels_guild[c].0.0)
            && states[i].guild_channels[states[i].channels_guild[c].0.0].contains(c) by {
        assert(states[i].channels_indexed());
    }
}

/// In every state of a run, every member is listed under its guild, and its
/// guild is in its user's guild set.
pub proof fn law_members_listed(config: Config, events: Seq<Event>, states: Seq<CacheView>)
    requires
        is_run(config, events, states),
    ensures
        forall|i: int, g: u64, u: u64| 0 <= i < states.len()
            && #[trigger] states[i].members.contains_key(pair_key(g, u)) ==> {
                &&& states[i].guild_members.contains_key(g)
                &&& states[i].guild_members[g].contains(u)
                &&& states[i].users.contains_key(u)
                &&& states[i].users[u].1.contains(g)
            },
{
    lemma_run_wf(config, events, states);
    assert forall|i: int, g: u64, u: u64| 0 <= i < states.len()
        && #[trigger] states[i].members.contains_key(pair_key(g, u)) implies {
            &&& states[i].guild_members.contains_key(g)
            &&& states[i].guild_members[g].contains(u)
            &&& states[i].users.contains_key(u)
            &&& states[i].users[u].1.contains(g)
        } by {
        assert(states[i].members_indexed());
    }
}

/// In every state of a run, a user's guild set is exactly the set of
/// guilds whose members include the user.
pub proof fn law_user_guilds_exact(config: Config, events: Seq<Event>, states: Seq<CacheView>)
    requires
        is_run(config, events, states),
    ensures
        forall|i: int, u: u64, g: u64| 0 <= i < states.len() && states[i].users.contains_key(u)
            ==> (#[trigger] states[i].users[u].1.contains(g) <==> states[i].members.contains_key(pair_key(g, u))),
{
    lemma_run_wf(config, events, states);
    assert forall|i: int, u: u64, g: u64| 0 <= i < states.len() && states[i].users.contains_key(u)
        implies (#[trigger] states[i].users[u].1.contains(g) <==> states[i].members.contains_key(pair_key(g, u))) by {
        assert(states[i].users_exact());
        assert(states[i].users[u].1.contains(g) <==> states[i].members.contains_key(pair_key(g, u)));
    }
}

/// In every state of a run, a voice state in a channel is listed under that
/// channel and its user under its guild.
pub proof fn law_voice_states_listed(config: Config, events: Seq<Event>, states: Seq<CacheView>)
    requires
        is_run(config, events, states),
    ensures
        forall|i: int, g: u64, u: u64| 0 <= i < states.len()
            && #[trigger] states[i].voice_states.contains_key(pair_key(g, u))
            && states[i].voice_states[pair_key(g, u)].channel_id is Some ==> {
                let c = (states[i].voice_states[pair_key(g, u)].channel_id->0).0;
                &&& states[i].voice_state_channels.contains_key(c)
                &&& states[i].voice_state_channels[c].contains(pair_key(g, u))
                &&& states[i].voice_state_guilds.contains_key(g)
                &&& states[i].voice_state_guilds[g].contains(u)
            },
{
    lemma_run_wf(config, events, states);
    assert forall|i: int, g: u64, u: u64| 0 <= i < states.len()
        && #[trigger] states[i].voice_states.contains_key(pair_key(g, u))
        && states[i].voice_states[pair_key(g, u)].channel_id is Some implies {
            let c = (states[i].voice_states[pair_key(g, u)].channel_id->0).0;
            &&& states[i].voice_state_channels.contains_key(c)
            &&& states[i].voice_state_channels[c].contains(pair_key(g, u))
            &&& states[i].voice_state_guilds.contains_key(g)
            &&& states[i].voice_state_guilds[g].contains(u)
        } by {
        assert(states[i].voice_indexed());
    }
}

/// In every state of a run, no voice channel is listed with an empty set
/// of users: a channel whose last user leaves is dropped from the index.
pub proof fn law_voice_channels_nonempty(config: Config, events: Seq<Event>, states: Seq<CacheView>)
    requires
        is_run(config, events, states),
    ensures
        forall|i: int, c: u64| 0 <= i < states.len() && #[trigger] states[i].voice_state_channels.contains_key(c)
            ==> states[i].voice_state_channels[c].len() >= 1,
{
    lemma_run_wf(config, events, states);
    assert forall|i: int, c: u64| 0 <= i < states.len() && #[trigger] states[i].voice_state_channels.contains_key(c)
        implies states[i].voice_state_channels[c].len() >= 1 by {
        assert(states[i].voice_indexed());
        let s = states[i].voice_state_channels[c];
        assert(!s.is_empty() && s.finite());
        if s.len() == 0 {
            s.lemma_len0_is_empty();
        }
    }
}

/// In every state of a run, no guild is listed in the voice index with an
/// empty set of users: a guild whose last user leaves voice is dropped.
pub proof fn law_voice_guilds_nonempty(config: Config, events: Seq<Event>, states: Seq<CacheView>)
    requires
        is_run(config, events, states),
    ensures
        forall|i: int, g: u64| 0 <= i < states.len() && #[trigger] states[i].voice_state_guilds.contains_key(g)
            ==> states[i].voice_state_guilds[g].len() >= 1,
{
    lemma_run_wf(config, events, states);
    assert forall|i: int, g: u64| 0 <= i < states.len() && #[trigger] states[i].voice_state_guilds.contains_key(g)
        implies states[i].voice_state_guilds[g].len() >= 1 by {
        assert(states[i].voice_indexed());
        let s = states[i].voice_state_guilds[g];
        assert(!s.is_empty() && s.finite());
        if s.len() == 0 {
            s.lemma_len0_is_empty();
        }
    }
}

/// In every state of a run, no channel holds more messages than the
/// configured limit.
pub proof fn law_messages_bounded(config: Config, events: Seq<Event>, states: Seq<CacheView>)
    requires
        is_run(config, events, states),
    ensures
        forall|i: int, c: u64| 0 <= i < states.len() && #[trigger] states[i].messages.contains_key(c)
            ==> states[i].messages[c].len() <= states[i].config.message_cache_size,
{
    lemma_run_wf(config, events, states);
    assert forall|i: int, c: u64| 0 <= i < states.len() && #[trigger] states[i].messages.contains_key(c)
        implies states[i].messages[c].len() <= states[i].config.message_cache_size by {
        assert(states[i].messages_bounded());
    }
}

/// A message newer than every message of a full channel evicts the oldest
/// one: the channel keeps the limit's count, the others in order, and the
/// new message last.
pub proof fn law_full_channel_evicts_oldest(s: CacheView, t: CacheView, m: Message)
    requires
        s.wf(),
        s.message_created(t, m),
        s.config.message_cache_size > 0,
        s.messages.contains_key(m.channel_id.0),
        s.messages[m.channel_id.0].len() == s.config.message_cache_size,
        forall|j: int| 0 <= j < s.messages[m.channel_id.0].len()
            ==> (#[trigger] s.messages[m.channel_id.0][j]).id.0 < m.id.0,
    ensures
        t.messages[m.channel_id.0].len() == s.config.message_cache_size,
        t.messages[m.channel_id.0].drop_last() == s.messages[m.channel_id.0].drop_first(),
        t.messages[m.channel_id.0].last().id == m.id,
{
    let c = m.channel_id.0;
    let cap = s.config.message_cache_size;
    let s1 = crate::cache::messages::make_room(s.channel_messages(c), cap);
    let (x, i) = choose|x: crate::model::CachedMessage, i: int|
        crate::cache::messages::message_record(x, m) && crate::cache::messages::insert_position(s1, x.id.0, i)
        && t == (CacheView { messages: s.messages.insert(c, crate::cache::messages::put_at(s1, x, i)), ..s });
    assert(s1 == s.messages[c].drop_first());
    if i < s1.len() {
        assert(s1[i].id.0 < m.id.0);
    }
    assert(i == s1.len());
    assert(t.messages[c].drop_last() =~= s1);
}

/// The identifiers of a channel's messages, in order.
pub open spec fn held_ids(s: Seq<crate::model::CachedMessage>) -> Seq<u64> {
    s.map_values(|m: crate::model::CachedMessage| m.id.0)
}

/// The identifiers of a list of created messages, in order.
pub open spec fn sent_ids(ms: Seq<Message>) -> Seq<u64> {
    ms.map_values(|m: Message| m.id.0)
}

/// How many of the first `n` created messages a channel with limit `cap`
/// has evicted.
pub open spec fn evicted_count(n: int, cap: int) -> int {
    if n > cap {
        n - cap
    } else {
        0
    }
}

/// One creation in channel `c`, whose messages have identifiers `prev`, all
/// smaller than the new one.
proof fn lemma_message_cap_step(a: CacheView, t: CacheView, m: Message, c: ChannelId, prev: Seq<u64>)
    requires
        a.message_created(t, m),
        m.channel_id == c,
        a.config.message_cache_size >= 1,
        held_ids(a.channel_messages(c.0)) == prev,
        forall|j: int| 0 <= j < prev.len() ==> prev[j] < m.id.0,
    ensures
        t.config == a.config,
        held_ids(t.channel_messages(c.0)) == (if prev.len() >= a.config.message_cache_size {
            prev.drop_first()
        } else {
            prev
        }).push(m.id.0),
{
    let cap = a.config.message_cache_size;
    let sq = a.channel_messages(c.0);
    let s1 = make_room(sq, cap);
    let (x, i) = choose|x: crate::model::CachedMessage, i: int|
        message_record(x, m) && insert_position(s1, x.id.0, i)
        && t == (CacheView { messages: a.messages.insert(c.0, put_at(s1, x, i)), ..a });
    let expect = if prev.len() >= cap { prev.drop_first() } else { prev };
    assert(held_ids(s1) =~= expect);
    if i < s1.len() {
        assert(held_ids(s1)[i] == s1[i].id.0);
        assert(false);
    }
    assert(put_at(s1, x, i) =~= s1.push(x));
    assert(held_ids(s1.push(x)) =~= expect.push(m.id.0));
}

proof fn lemma_message_cap_prefix(c: ChannelId, ms: Seq<Message>, states: Seq<CacheView>, n: int)
    requires
        states.len() == ms.len() + 1,
        states[0].config.message_cache_size >= 1,
        states[0].channel_messages(c.0).len() == 0,
        forall|i: int| 0 <= i < ms.len() ==> (#[trigger] ms[i]).channel_id == c,
        forall|i: int, j: int| 0 <= i < j < ms.len() ==> ms[i].id.0 < ms[j].id.0,
        forall|i: int| 0 <= i < ms.len() ==> (#[trigger] states[i]).message_created(states[i + 1], ms[i]),
        0 <= n < states.len(),
    ensures
        states[n].config == states[0].config,
        held_ids(states[n].channel_messages(c.0))
            == sent_ids(ms).subrange(evicted_count(n, states[0].config.message_cache_size as int), n),
    decreases n,
{
    let cap = states[0].config.message_cache_size as int;
    let sent = sent_ids(ms);
    if n == 0 {
        assert(held_ids(states[0].channel_messages(c.0)) =~= sent.subrange(0, 0));
    } else {
        let p = n - 1;
        lemma_message_cap_prefix(c, ms, states, p);
        let kf = evicted_count(p, cap);
        let kn = evicted_count(n, cap);
        let prev = sent.subrange(kf, p);
        assert(states[p].message_created(states[n], ms[p]));
        assert forall|j: int| 0 <= j < prev.len() implies prev[j] < ms[p].id.0 by {
            assert(prev[j] == ms[kf + j].id.0);
        }
        lemma_message_cap_step(states[p], states[n], ms[p], c, prev);
        if prev.len() >= cap {
            assert(prev.drop_first().push(ms[p].id.0) =~= sent.subrange(kn, n));
        } else {
            assert(prev.push(ms[p].id.0) =~= sent.subrange(kn, n));
        }
    }
}

/// Creating messages with growing identifiers in a channel that holds none
/// leaves exactly the newest ones, as many as the limit allows: after `n`
/// creations with limit `cap`, the channel holds the last `min(n, cap)`
/// messages in order, and the `n - cap` oldest are evicted.
pub proof fn law_message_cap_run(c: ChannelId, ms: Seq<Message>, states: Seq<CacheView>)
    requires
        states.len() == ms.len() + 1,
        states[0].config.message_cache_size >= 1,
        states[0].channel_messages(c.0).len() == 0,
        forall|i: int| 0 <= i < ms.len() ==> (#[trigger] ms[i]).channel_id == c,
        forall|i: int, j: int| 0 <= i < j < ms.len() ==> ms[i].id.0 < ms[j].id.0,
        forall|i: int| 0 <= i < ms.len() ==> (#[trigger] states[i]).message_created(states[i + 1], ms[i]),
    ensures
        forall|n: int| 0 <= n < states.len() ==> held_ids((#[trigger] states[n]).channel_messages(c.0))
            == sent_ids(ms).subrange(evicted_count(n, states[0].config.message_cache_size as int), n),
{
    assert forall|n: int| 0 <= n < states.len() implies held_ids((#[trigger] states[n]).channel_messages(c.0))
        == sent_ids(ms).subrange(evicted_count(n, states[0].config.message_cache_size as int), n) by {
        lemma_message_cap_prefix(c, ms, states, n);
    }
}

/// Adding the same member twice leaves the cache as adding it once.
pub proof fn law_member_add_idempotent(s: CacheView, m: Member)
    ensures
        s.member_cached(m.guild_id, m).member_cached(m.guild_id, m) == s.member_cached(m.guild_id, m),
{
    let g = m.guild_id;
    let t = s.member_cached(g, m);
    let k = pair_key(g.0, m.user.id.0);
    crate::cache::members::cached_member(g, m).lemma_same_refl();
    assert(t.members.contains_key(k) && t.members[k].same(&crate::cache::members::cached_member(g, m)));
    let u = m.user.id.0;
    assert(t.guild_members.contains_key(g.0) && t.guild_members[g.0].contains(u));
    assert(t.guild_members[g.0].insert(u) =~= t.guild_members[g.0]);
    assert(set_map_add(t.guild_members, g.0, u) =~= t.guild_members);
    assert(t.member_cached(g, m) == t);
}

/// A user who leaves voice and then joins a channel ends in the same state
/// as one who joins that channel directly.
pub proof fn law_voice_leave_then_join(s: CacheView, leave: VoiceState, join: VoiceState)
    requires
        s.wf(),
        leave.guild_id is Some,
        join.guild_id == leave.guild_id,
        join.user_id == leave.user_id,
        leave.channel_id is None,
        join.channel_id is Some,
    ensures
        s.voice_state_update(leave).voice_state_update(join) == s.voice_state_update(join),
{
    let g = (leave.guild_id->0).0;
    let u = leave.user_id.0;
    let k = pair_key(g, u);
    let c = (join.channel_id->0).0;
    lemma_key_only(g, u);
    let t1 = s.voice_state_update(leave);
    let a = t1.voice_state_update(join);
    let b = s.voice_state_update(join);
    assert(t1 == s.voice_left(g, u));
    assert(!t1.voice_states.contains_key(k));
    assert(t1.voice_channels_without(k) == t1.voice_state_channels);
    assert(a.voice_states =~= b.voice_states);
    let vsg = s.voice_state_guilds;
    if vsg.contains_key(g) {
        if vsg[g].remove(u).is_empty() {
            assert(vsg[g].contains(u)) by {
                if !vsg[g].contains(u) {
                    assert(vsg[g].remove(u) =~= vsg[g]);
                }
            }
            assert(vsg[g].insert(u) =~= set![u]);
            assert(crate::index::set_at(vsg.remove(g), g).insert(u) =~= set![u]);
        } else {
            assert(vsg[g].remove(u).insert(u) =~= vsg[g].insert(u));
        }
    }
    assert(a.voice_state_guilds =~= b.voice_state_guilds);
    assert(a.voice_state_channels =~= b.voice_state_channels);
}

/// When the last user in a voice channel leaves, the channel's entry in
/// the channel index goes away.
pub proof fn law_voice_last_leave_drops_channel(s: CacheView, leave: VoiceState, c: ChannelId)
    requires
        s.wf(),
        leave.guild_id is Some,
        leave.channel_id is None,
        s.voice_states.contains_key(pair_key((leave.guild_id->0).0, leave.user_id.0)),
        s.voice_states[pair_key((leave.guild_id->0).0, leave.user_id.0)].channel_id == Some(c),
        s.voice_state_channels[c.0] == set![pair_key((leave.guild_id->0).0, leave.user_id.0)],
    ensures
        !s.voice_state_update(leave).voice_state_channels.contains_key(c.0),
{
    let k = pair_key((leave.guild_id->0).0, leave.user_id.0);
    assert(s.voice_state_channels[c.0].remove(k) =~= Set::empty());
}

/// When a user's last guild removes the user from its members, the user
/// record goes away.
pub proof fn law_last_guild_drops_user(s: CacheView, g: GuildId, u: UserId)
    requires
        s.wf(),
        s.users.contains_key(u.0),
        s.users[u.0].1 == set![g.0],
    ensures
        !s.member_removed(g, u).users.contains_key(u.0),
{
    assert(s.users[u.0].1.contains(g.0));
    assert(s.members.contains_key(pair_key(g.0, u.0)));
    assert(s.users[u.0].1.remove(g.0) =~= Set::empty());
}

/// The identifiers of a list of guild channels.
pub open spec fn channel_id_set(xs: Seq<crate::model::GuildChannel>) -> Set<u64>
    decreases xs.len(),
{
    if xs.len() == 0 {
        Set::empty()
    } else {
        channel_id_set(xs.drop_last()).insert(xs.last().spec_id().0)
    }
}

/// The identifiers of a list of emojis.
pub open spec fn emoji_id_set(xs: Seq<crate::model::Emoji>) -> Set<u64>
    decreases xs.len(),
{
    if xs.len() == 0 {
        Set::empty()
    } else {
        emoji_id_set(xs.drop_last()).insert(xs.last().id.0)
    }
}

/// The identifiers of a list of roles.
pub open spec fn role_id_set(xs: Seq<crate::model::Role>) -> Set<u64>
    decreases xs.len(),
{
    if xs.len() == 0 {
        Set::empty()
    } else {
        role_id_set(xs.drop_last()).insert(xs.last().id.0)
    }
}

/// The key sets of the guild records, the unavailable guilds, and the
/// channel, emoji and role indices with their per-guild sets.
pub open spec fn guild_level_keys(s: CacheView) -> (Set<u64>, Set<u64>, Set<u64>, Set<u64>, Set<u64>, Set<u64>, Set<u64>, Set<u64>) {
    (
        s.guilds.dom(),
        s.unavailable_guilds,
        s.channels_guild.dom(),
        s.guild_channels.dom(),
        s.emojis.dom(),
        s.guild_emojis.dom(),
        s.roles.dom(),
        s.guild_roles.dom(),
    )
}

/// The guild records, unavailable guilds, channels, emojis and roles with
/// their per-guild sets, untouched.
pub open spec fn same_guild_level(a: CacheView, b: CacheView) -> bool {
    &&& a.guilds == b.guilds
    &&& a.unavailable_guilds == b.unavailable_guilds
    &&& a.channels_guild == b.channels_guild
    &&& a.guild_channels == b.guild_channels
    &&& a.emojis == b.emojis
    &&& a.guild_emojis == b.guild_emojis
    &&& a.roles == b.roles
    &&& a.guild_roles == b.guild_roles
}

proof fn lemma_channels_cached_keys(s: CacheView, g: GuildId, xs: Seq<crate::model::GuildChannel>)
    requires
        s.guild_channels.contains_key(g.0),
    ensures
        s.channels_cached(g, xs).channels_guild.dom() == s.channels_guild.dom() + channel_id_set(xs),
        s.channels_cached(g, xs).guild_channels
            == s.guild_channels.insert(g.0, s.guild_channels[g.0] + channel_id_set(xs)),
        s.channels_cached(g, xs) == (CacheView {
            channels_guild: s.channels_cached(g, xs).channels_guild,
            guild_channels: s.channels_cached(g, xs).guild_channels,
            ..s
        }),
    decreases xs.len(),
{
    if xs.len() == 0 {
        assert(s.guild_channels[g.0] + Set::empty() =~= s.guild_channels[g.0]);
        assert(s.guild_channels.insert(g.0, s.guild_channels[g.0]) =~= s.guild_channels);
        assert(s.channels_guild.dom() + Set::empty() =~= s.channels_guild.dom());
    } else {
        lemma_channels_cached_keys(s, g, xs.drop_last());
        let x = xs.last();
        assert(x.with_guild(g).spec_id() == x.spec_id());
        assert((s.guild_channels[g.0] + channel_id_set(xs.drop_last())).insert(x.spec_id().0)
            =~= s.guild_channels[g.0] + channel_id_set(xs));
        assert(s.channels_cached(g, xs).channels_guild.dom() =~= s.channels_guild.dom() + channel_id_set(xs));
        assert(s.channels_cached(g, xs).guild_channels
            =~= s.guild_channels.insert(g.0, s.guild_channels[g.0] + channel_id_set(xs)));
    }
}

proof fn lemma_emojis_cached_keys(s: CacheView, g: GuildId, xs: Seq<crate::model::Emoji>)
    requires
        s.guild_emojis.contains_key(g.0),
    ensures
        s.emojis_cached(g, xs).emojis.dom() == s.emojis.dom() + emoji_id_set(xs),
        s.emojis_cached(g, xs).guild_emojis
            == s.guild_emojis.insert(g.0, s.guild_emojis[g.0] + emoji_id_set(xs)),
        s.emojis_cached(g, xs) == (CacheView {
            emojis: s.emojis_cached(g, xs).emojis,
            guild_emojis: s.emojis_cached(g, xs).guild_emojis,
            ..s
        }),
    decreases xs.len(),
{
    if xs.len() == 0 {
        assert(s.guild_emojis[g.0] + Set::empty() =~= s.guild_emojis[g.0]);
        assert(s.guild_emojis.insert(g.0, s.guild_emojis[g.0]) =~= s.guild_emojis);
        assert(s.emojis.dom() + Set::empty() =~= s.emojis.dom());
    } else {
        lemma_emojis_cached_keys(s, g, xs.drop_last());
        let x = xs.last();
        assert((s.guild_emojis[g.0] + emoji_id_set(xs.drop_last())).insert(x.id.0)
            =~= s.guild_emojis[g.0] + emoji_id_set(xs));
        assert(s.emojis_cached(g, xs).emojis.dom() =~= s.emojis.dom() + emoji_id_set(xs));
        assert(s.emojis_cached(g, xs).guild_emojis
            =~= s.guild_emojis.insert(g.0, s.guild_emojis[g.0] + emoji_id_set(xs)));
    }
}

proof fn lemma_roles_cached_keys(s: CacheView, g: GuildId, xs: Seq<crate::model::Role>)
    requires
        s.guild_roles.contains_key(g.0),
    ensures
        s.roles_cached(g, xs).roles.dom() == s.roles.dom() + role_id_set(xs),
        s.roles_cached(g, xs).guild_roles
            == s.guild_roles.insert(g.0, s.guild_roles[g.0] + role_id_set(xs)),
        s.roles_cached(g, xs) == (CacheView {
            roles: s.roles_cached(g, xs).roles,
            guild_roles: s.roles_cached(g, xs).guild_roles,
            ..s
        }),
    decreases xs.len(),
{
    if xs.len() == 0 {
        assert(s.guild_roles[g.0] + Set::empty() =~= s.guild_roles[g.0]);
        assert(s.guild_roles.insert(g.0, s.guild_roles[g.0]) =~= s.guild_roles);
        assert(s.roles.dom() + Set::empty() =~= s.roles.dom());
    } else {
        lemma_roles_cached_keys(s, g, xs.drop_last());
        let x = xs.last();
        assert((s.guild_roles[g.0] + role_id_set(xs.drop_last())).insert(x.id.0)
            =~= s.guild_roles[g.0] + role_id_set(xs));
        assert(s.roles_cached(g, xs).roles.dom() =~= s.roles.dom() + role_id_set(xs));
        assert(s.roles_cached(g, xs).guild_roles
            =~= s.guild_roles.insert(g.0, s.guild_roles[g.0] + role_id_set(xs)));
    }
}

proof fn lemma_member_folds_frame(s: CacheView, g: GuildId, ms: Seq<Member>, ps: Seq<crate::model::Presence>, us: Seq<u64>)
    ensures
        same_guild_level(s.members_cached(g, ms), s),
        same_guild_level(s.presences_cached(g, ps), s),
        same_guild_level(s.members_dropped(g, us), s),
    decreases ms.len() + ps.len() + us.len(),
{
    if ms.len() > 0 {
        lemma_member_folds_frame(s, g, ms.drop_last(), ps, us);
    }
    if ps.len() > 0 {
        lemma_member_folds_frame(s, g, ms, ps.drop_last(), us);
    }
    if us.len() > 0 {
        lemma_member_folds_frame(s, g, ms, ps, us.drop_last());
    }
}

proof fn lemma_voice_folds_frame(s: CacheView, g: GuildId, vss: Seq<VoiceState>, us: Seq<u64>)
    ensures
        same_guild_level(s.voice_states_cached(g, vss), s),
        same_guild_level(s.voice_dropped(g.0, us), s),
    decreases vss.len() + us.len(),
{
    if vss.len() > 0 {
        lemma_voice_folds_frame(s, g, vss.drop_last(), us);
    }
    if us.len() > 0 {
        lemma_voice_folds_frame(s, g, vss, us.drop_last());
    }
}

/// The users of a list of members.
pub open spec fn member_user_set(xs: Seq<Member>) -> Set<u64>
    decreases xs.len(),
{
    if xs.len() == 0 {
        Set::empty()
    } else {
        member_user_set(xs.drop_last()).insert(xs.last().user.id.0)
    }
}

/// The users of a list of presences.
pub open spec fn presence_user_set(xs: Seq<crate::model::Presence>) -> Set<u64>
    decreases xs.len(),
{
    if xs.len() == 0 {
        Set::empty()
    } else {
        presence_user_set(xs.drop_last()).insert(xs.last().user.spec_id().0)
    }
}

/// The members, member sets, users, presences and presence sets, untouched.
pub open spec fn same_member_level(a: CacheView, b: CacheView) -> bool {
    &&& a.members == b.members
    &&& a.guild_members == b.guild_members
    &&& a.users == b.users
    &&& a.presences == b.presences
    &&& a.guild_presences == b.guild_presences
}

proof fn lemma_other_folds_member_frame(s: CacheView, g: GuildId, chs: Seq<crate::model::GuildChannel>,
    es: Seq<crate::model::Emoji>, rs: Seq<crate::model::Role>, vss: Seq<VoiceState>, us: Seq<u64>)
    ensures
        same_member_level(s.channels_cached(g, chs), s),
        same_member_level(s.emojis_cached(g, es), s),
        same_member_level(s.roles_cached(g, rs), s),
        same_member_level(s.voice_states_cached(g, vss), s),
        same_member_level(s.voice_dropped(g.0, us), s),
    decreases chs.len() + es.len() + rs.len() + vss.len() + us.len(),
{
    if chs.len() > 0 {
        lemma_other_folds_member_frame(s, g, chs.drop_last(), es, rs, vss, us);
    }
    if es.len() > 0 {
        lemma_other_folds_member_frame(s, g, chs, es.drop_last(), rs, vss, us);
    }
    if rs.len() > 0 {
        lemma_other_folds_member_frame(s, g, chs, es, rs.drop_last(), vss, us);
    }
    if vss.len() > 0 {
        lemma_other_folds_member_frame(s, g, chs, es, rs, vss.drop_last(), us);
    }
    if us.len() > 0 {
        lemma_other_folds_member_frame(s, g, chs, es, rs, vss, us.drop_last());
    }
}

proof fn lemma_presences_cached_keys(s: CacheView, g: GuildId, xs: Seq<crate::model::Presence>)
    requires
        s.guild_presences.contains_key(g.0),
    ensures
        s.presences_cached(g, xs).presences.dom()
            == s.presences.dom() + crate::index::guild_keys(g.0, presence_user_set(xs)),
        s.presences_cached(g, xs).guild_presences
            == s.guild_presences.insert(g.0, s.guild_presences[g.0] + presence_user_set(xs)),
        s.presences_cached(g, xs) == (CacheView {
            presences: s.presences_cached(g, xs).presences,
            guild_presences: s.presences_cached(g, xs).guild_presences,
            ..s
        }),
    decreases xs.len(),
{
    if xs.len() == 0 {
        assert(s.guild_presences[g.0] + Set::empty() =~= s.guild_presences[g.0]);
        assert(s.guild_presences.insert(g.0, s.guild_presences[g.0]) =~= s.guild_presences);
        assert(crate::index::guild_keys(g.0, Set::empty()) =~= Set::empty());
        assert(s.presences.dom() + Set::empty() =~= s.presences.dom());
    } else {
        lemma_presences_cached_keys(s, g, xs.drop_last());
        let u = xs.last().user.spec_id().0;
        assert((s.guild_presences[g.0] + presence_user_set(xs.drop_last())).insert(u)
            =~= s.guild_presences[g.0] + presence_user_set(xs));
        crate::index::lemma_guild_keys_insert(g.0, presence_user_set(xs.drop_last()), u);
        assert(s.presences_cached(g, xs).presences.dom()
            =~= s.presences.dom() + crate::index::guild_keys(g.0, presence_user_set(xs)));
        assert(s.presences_cached(g, xs).guild_presences
            =~= s.guild_presences.insert(g.0, s.guild_presences[g.0] + presence_user_set(xs)));
    }
}

proof fn lemma_members_cached_keys(s: CacheView, g: GuildId, xs: Seq<Member>)
    requires
        s.guild_members.contains_key(g.0),
        forall|u: u64| !(#[trigger] s.members.contains_key(pair_key(g.0, u))),
    ensures
        s.members_cached(g, xs).members.dom()
            == s.members.dom() + crate::index::guild_keys(g.0, member_user_set(xs)),
        s.members_cached(g, xs).guild_members
            == s.guild_members.insert(g.0, s.guild_members[g.0] + member_user_set(xs)),
        s.members_cached(g, xs).users.dom() == s.users.dom() + member_user_set(xs),
        forall|u: u64| #[trigger] s.members_cached(g, xs).users.contains_key(u)
            ==> s.members_cached(g, xs).users[u].1 == (if s.users.contains_key(u) {
                s.users[u].1
            } else {
                Set::empty()
            }) + (if member_user_set(xs).contains(u) {
                set![g.0]
            } else {
                Set::empty()
            }),
        s.members_cached(g, xs) == (CacheView {
            members: s.members_cached(g, xs).members,
            guild_members: s.members_cached(g, xs).guild_members,
            users: s.members_cached(g, xs).users,
            ..s
        }),
    decreases xs.len(),
{
    let us = member_user_set(xs);
    let r = s.members_cached(g, xs);
    if xs.len() == 0 {
        assert(s.guild_members[g.0] + Set::empty() =~= s.guild_members[g.0]);
        assert(s.guild_members.insert(g.0, s.guild_members[g.0]) =~= s.guild_members);
        assert(crate::index::guild_keys(g.0, Set::empty()) =~= Set::empty());
        assert(s.members.dom() + Set::empty() =~= s.members.dom());
        assert(s.users.dom() + Set::empty() =~= s.users.dom());
        assert forall|u: u64| #[trigger] r.users.contains_key(u) implies r.users[u].1 == (if s.users.contains_key(u) {
            s.users[u].1
        } else {
            Set::empty()
        }) + (if us.contains(u) {
            set![g.0]
        } else {
            Set::empty()
        }) by {
            assert(s.users[u].1 + Set::empty() =~= s.users[u].1);
        }
    } else {
        let d = xs.drop_last();
        lemma_members_cached_keys(s, g, d);
        let p = s.members_cached(g, d);
        let m = xs.last();
        let u = m.user.id.0;
        let k = pair_key(g.0, u);
        lemma_key_only(g.0, u);
        crate::index::lemma_guild_keys_insert(g.0, member_user_set(d), u);
        assert((s.guild_members[g.0] + member_user_set(d)).insert(u) =~= s.guild_members[g.0] + us);
        assert(r.guild_members =~= s.guild_members.insert(g.0, s.guild_members[g.0] + us));
        if p.members.contains_key(k) && p.members[k].same(&crate::cache::members::cached_member(g, m)) {
            assert(!s.members.contains_key(k));
            assert(crate::index::guild_keys(g.0, member_user_set(d)).contains(k));
            let y = choose|y: u64| member_user_set(d).contains(y) && k == pair_key(g.0, y);
            assert(y == u);
            assert(us =~= member_user_set(d));
            assert(r.members.dom() =~= s.members.dom() + crate::index::guild_keys(g.0, us));
            assert(r.users.dom() =~= s.users.dom() + us);
        } else {
            assert(r.members.dom() =~= s.members.dom() + crate::index::guild_keys(g.0, us));
            assert(r.users.dom() =~= s.users.dom() + us);
            assert forall|u2: u64| #[trigger] r.users.contains_key(u2) implies r.users[u2].1 == (if s.users.contains_key(u2) {
                s.users[u2].1
            } else {
                Set::empty()
            }) + (if us.contains(u2) {
                set![g.0]
            } else {
                Set::empty()
            }) by {
                if u2 == u {
                    let base = if s.users.contains_key(u2) { s.users[u2].1 } else { Set::empty() };
                    if p.users.contains_key(u) {
                        assert(p.users[u].1.insert(g.0) =~= base + set![g.0]);
                    } else {
                        assert(!s.users.contains_key(u));
                        assert(set![g.0] =~= base + set![g.0]);
                    }
                } else {
                    if member_user_set(d).contains(u2) {
                        assert(us.contains(u2));
                    } else {
                        assert(!us.contains(u2));
                    }
                }
            }
        }
    }
}

proof fn lemma_members_dropped_keys(s: CacheView, g: GuildId, mu: Seq<u64>)
    ensures
        s.members_dropped(g, mu).members.dom()
            == s.members.dom() - crate::index::guild_keys(g.0, mu.to_set()),
        s.members_dropped(g, mu).guild_members.dom() == s.guild_members.dom(),
        forall|u: u64| #[trigger] s.members_dropped(g, mu).users.contains_key(u)
            <==> (s.users.contains_key(u) && !(mu.to_set().contains(u) && s.users[u].1.remove(g.0).is_empty())),
        forall|u: u64| #[trigger] s.members_dropped(g, mu).users.contains_key(u)
            ==> s.members_dropped(g, mu).users[u].1
                == (if mu.to_set().contains(u) { s.users[u].1.remove(g.0) } else { s.users[u].1 }),
        s.members_dropped(g, mu).presences == s.presences,
        s.members_dropped(g, mu).guild_presences == s.guild_presences,
    decreases mu.len(),
{
    let r = s.members_dropped(g, mu);
    if mu.len() == 0 {
        assert(mu.to_set() =~= Set::empty());
        assert(crate::index::guild_keys(g.0, Set::empty()) =~= Set::empty());
        assert(s.members.dom() - Set::empty() =~= s.members.dom());
    } else {
        let d = mu.drop_last();
        let u = mu.last();
        lemma_members_dropped_keys(s, g, d);
        let p = s.members_dropped(g, d);
        assert(mu =~= d.push(u));
        d.lemma_push_to_set_commute(u);
        assert(mu.to_set() == d.to_set().insert(u));
        crate::index::lemma_guild_keys_insert(g.0, d.to_set(), u);
        assert(r.members.dom() =~= s.members.dom() - crate::index::guild_keys(g.0, mu.to_set()));
        assert(r.guild_members.dom() =~= s.guild_members.dom());
        assert forall|u2: u64| #[trigger] r.users.contains_key(u2)
            <==> (s.users.contains_key(u2) && !(mu.to_set().contains(u2) && s.users[u2].1.remove(g.0).is_empty())) by {
            if u2 == u && d.to_set().contains(u) && p.users.contains_key(u) {
                assert(p.users[u].1.remove(g.0) =~= p.users[u].1);
            }
        }
        assert forall|u2: u64| #[trigger] r.users.contains_key(u2) implies r.users[u2].1
            == (if mu.to_set().contains(u2) { s.users[u2].1.remove(g.0) } else { s.users[u2].1 }) by {
            if u2 == u && d.to_set().contains(u) {
                assert(p.users[u].1.remove(g.0) =~= p.users[u].1);
            }
        }
    }
}

/// Creating a guild the cache does not know, whose channels, emojis and
/// roles it does not hold, and then deleting the guild, leaves the guild
/// records, the unavailable guilds, and the channel, emoji and role indices
/// with their per-guild sets with the keys they had.
pub proof fn law_guild_create_delete_keys(s: CacheView, gd: crate::event::Guild, t: CacheView)
    requires
        s.wf(),
        !s.guilds.contains_key(gd.info.id.0),
        !s.unavailable_guilds.contains(gd.info.id.0),
        !s.guild_channels.contains_key(gd.info.id.0),
        !s.guild_emojis.contains_key(gd.info.id.0),
        !s.guild_roles.contains_key(gd.info.id.0),
        channel_id_set(gd.channels@).disjoint(s.channels_guild.dom()),
        emoji_id_set(gd.emojis@).disjoint(s.emojis.dom()),
        role_id_set(gd.roles@).disjoint(s.roles.dom()),
        s.guild_created(gd).guild_deleted(t, gd.info.id),
    ensures
        guild_level_keys(t) == guild_level_keys(s),
{
    let g = gd.info.id;
    let s0 = s.guild_indices_ready(g.0);
    let s1 = s0.channels_cached(g, gd.channels@);
    lemma_channels_cached_keys(s0, g, gd.channels@);
    let s2 = s1.emojis_cached(g, gd.emojis@);
    lemma_emojis_cached_keys(s1, g, gd.emojis@);
    let s3 = s2.members_cached(g, gd.members@);
    let s4 = s3.presences_cached(g, gd.presences@);
    lemma_member_folds_frame(s2, g, gd.members@, Seq::empty(), Seq::empty());
    lemma_member_folds_frame(s3, g, Seq::empty(), gd.presences@, Seq::empty());
    let s5 = s4.roles_cached(g, gd.roles@);
    lemma_roles_cached_keys(s4, g, gd.roles@);
    let s6 = s5.voice_states_cached(g, gd.voice_states@);
    lemma_voice_folds_frame(s5, g, gd.voice_states@, Seq::empty());
    let c = s.guild_created(gd);
    assert(c.guild_channels[g.0] =~= channel_id_set(gd.channels@));
    assert(c.guild_emojis[g.0] =~= emoji_id_set(gd.emojis@));
    assert(c.guild_roles[g.0] =~= role_id_set(gd.roles@));
    let r = c.guild_records_dropped(g.0);
    let (mu, vu) = choose|mu: Seq<u64>, vu: Seq<u64>|
        mu.to_set() == crate::index::set_at(c.guild_members, g.0)
        && vu.to_set() == crate::index::set_at(c.voice_state_guilds, g.0)
        && t == (CacheView {
            guild_members: r.members_dropped(g, mu).voice_dropped(g.0, vu).guild_members.remove(g.0),
            ..r.members_dropped(g, mu).voice_dropped(g.0, vu)
        });
    lemma_member_folds_frame(r, g, Seq::empty(), Seq::empty(), mu);
    lemma_voice_folds_frame(r.members_dropped(g, mu), g, Seq::empty(), vu);
    assert(t.guilds.dom() =~= s.guilds.dom());
    assert(t.unavailable_guilds =~= s.unavailable_guilds);
    assert(t.channels_guild.dom() =~= s.channels_guild.dom());
    assert(t.guild_channels.dom() =~= s.guild_channels.dom());
    assert(t.emojis.dom() =~= s.emojis.dom());
    assert(t.guild_emojis.dom() =~= s.guild_emojis.dom());
    assert(t.roles.dom() =~= s.roles.dom());
    assert(t.guild_roles.dom() =~= s.guild_roles.dom());
}

/// Whether composite key `k` belongs to guild `g`.
pub open spec fn in_guild_key(g: u64, k: u128) -> bool {
    exists|u: u64| #[trigger] pair_key(g, u) == k
}

/// The voice indices of `r` agree with those of `b` outside guild `g`, and
/// every channel listed in `b` is still listed in `r`.
pub open spec fn voice_agrees_outside(b: CacheView, r: CacheView, g: u64) -> bool {
    &&& forall|k: u128| !in_guild_key(g, k) ==> (#[trigger] r.voice_states.contains_key(k) <==> b.voice_states.contains_key(k))
    &&& forall|g2: u64| g2 != g ==> (#[trigger] r.voice_state_guilds.contains_key(g2) <==> b.voice_state_guilds.contains_key(g2))
    &&& forall|c: u64| #[trigger] b.voice_state_channels.contains_key(c) ==> r.voice_state_channels.contains_key(c)
    &&& forall|c: u64, k: u128| !in_guild_key(g, k) ==> (
        (r.voice_state_channels.contains_key(c) && #[trigger] r.voice_state_channels[c].contains(k))
        <==> (b.voice_state_channels.contains_key(c) && b.voice_state_channels[c].contains(k)))
}

proof fn lemma_voice_states_cached_outside(b: CacheView, g: GuildId, xs: Seq<VoiceState>)
    requires
        b.wf(),
        !b.voice_state_guilds.contains_key(g.0),
    ensures
        voice_agrees_outside(b, b.voice_states_cached(g, xs), g.0),
    decreases xs.len(),
{
    if xs.len() > 0 {
        lemma_voice_states_cached_outside(b, g, xs.drop_last());
        let p = b.voice_states_cached(g, xs.drop_last());
        let vs = crate::cache::guilds::in_guild(xs.last(), g);
        let u = vs.user_id.0;
        let k0 = pair_key(g.0, u);
        assert(in_guild_key(g.0, k0));
        let r = p.voice_state_update(vs);
        assert forall|c: u64| #[trigger] b.voice_state_channels.contains_key(c) implies r.voice_state_channels.contains_key(c) by {
            assert(!b.voice_state_channels[c].is_empty());
            let k = choose|k: u128| b.voice_state_channels[c].contains(k);
            assert(b.voice_states.contains_key(k));
            if in_guild_key(g.0, k) {
                let w = choose|w: u64| pair_key(g.0, w) == k;
                assert(b.voice_states.contains_key(pair_key(g.0, w)));
            }
            assert(p.voice_state_channels.contains_key(c) && p.voice_state_channels[c].contains(k));
            assert(k != k0);
            assert(p.voice_state_channels[c].remove(k0).contains(k));
        }
        assert forall|c: u64, k: u128| !in_guild_key(g.0, k) implies (
            (r.voice_state_channels.contains_key(c) && #[trigger] r.voice_state_channels[c].contains(k))
            <==> (b.voice_state_channels.contains_key(c) && b.voice_state_channels[c].contains(k))) by {
            assert(k != k0);
            if b.voice_state_channels.contains_key(c) && b.voice_state_channels[c].contains(k) {
                assert(p.voice_state_channels.contains_key(c) && p.voice_state_channels[c].contains(k));
            }
        }
    }
}

proof fn lemma_voice_dropped_outside(w: CacheView, g: u64, vu: Seq<u64>)
    requires
        w.wf(),
    ensures
        w.voice_dropped(g, vu).wf(),
        forall|k: u128| #[trigger] w.voice_dropped(g, vu).voice_states.contains_key(k) ==> w.voice_states.contains_key(k),
        forall|u: u64| vu.contains(u) ==> !(#[trigger] w.voice_dropped(g, vu).voice_states.contains_key(pair_key(g, u))),
        forall|k: u128| !in_guild_key(g, k) ==> (#[trigger] w.voice_dropped(g, vu).voice_states.contains_key(k) <==> w.voice_states.contains_key(k)),
        forall|g2: u64| g2 != g ==> (#[trigger] w.voice_dropped(g, vu).voice_state_guilds.contains_key(g2) <==> w.voice_state_guilds.contains_key(g2)),
        forall|c: u64, k: u128| !in_guild_key(g, k) ==> (
            #[trigger] crate::index::set_at(w.voice_dropped(g, vu).voice_state_channels, c).contains(k)
            <==> crate::index::set_at(w.voice_state_channels, c).contains(k)),
    decreases vu.len(),
{
    if vu.len() == 0 {
        assert(w.voice_dropped(g, vu) == w);
    } else {
        let d = vu.drop_last();
        lemma_voice_dropped_outside(w, g, d);
        let p = w.voice_dropped(g, d);
        let u = vu.last();
        let k0 = pair_key(g, u);
        lemma_key_only(g, u);
        assert(in_guild_key(g, k0));
        crate::cache::voice::lemma_voice_left_wf(p, g, u);
        let r = p.voice_left(g, u);
        assert forall|u2: u64| vu.contains(u2) implies !(#[trigger] r.voice_states.contains_key(pair_key(g, u2))) by {
            if u2 != u {
                let i = choose|i: int| 0 <= i < vu.len() && vu[i] == u2;
                assert(d[i] == u2);
                assert(d.contains(u2));
            }
        }
        assert forall|c: u64, k: u128| !in_guild_key(g, k) implies (
            #[trigger] crate::index::set_at(r.voice_state_channels, c).contains(k)
            <==> crate::index::set_at(w.voice_state_channels, c).contains(k)) by {
            assert(k != k0);
            let pin = crate::index::set_at(p.voice_state_channels, c).contains(k);
            assert(pin <==> crate::index::set_at(w.voice_state_channels, c).contains(k));
            if pin {
                assert(p.voice_state_channels[c].remove(k0).contains(k));
            }
        }
    }
}

/// Creating a guild the cache does not know and then deleting it leaves the
/// members, the member sets, the users, the presences and the presence
/// sets with the keys they had.
pub proof fn law_guild_create_delete_member_keys(s: CacheView, gd: crate::event::Guild, t: CacheView)
    requires
        s.wf(),
        !s.guild_members.contains_key(gd.info.id.0),
        !s.guild_presences.contains_key(gd.info.id.0),
        s.guild_created(gd).guild_deleted(t, gd.info.id),
    ensures
        t.members.dom() == s.members.dom(),
        t.guild_members.dom() == s.guild_members.dom(),
        t.users.dom() == s.users.dom(),
        t.presences.dom() == s.presences.dom(),
        t.guild_presences.dom() == s.guild_presences.dom(),
{
    let g = gd.info.id;
    assert forall|u: u64| !(#[trigger] s.members.contains_key(pair_key(g.0, u))) by {
        if s.members.contains_key(pair_key(g.0, u)) {
            assert(s.members_indexed());
        }
    }
    assert forall|u: u64| !(#[trigger] s.presences.contains_key(pair_key(g.0, u))) by {
        if s.presences.contains_key(pair_key(g.0, u)) {
            assert(s.presences_indexed());
        }
    }
    let s0 = s.guild_indices_ready(g.0);
    let s1 = s0.channels_cached(g, gd.channels@);
    let s2 = s1.emojis_cached(g, gd.emojis@);
    lemma_other_folds_member_frame(s0, g, gd.channels@, Seq::empty(), Seq::empty(), Seq::empty(), Seq::empty());
    lemma_other_folds_member_frame(s1, g, Seq::empty(), gd.emojis@, Seq::empty(), Seq::empty(), Seq::empty());
    let s3 = s2.members_cached(g, gd.members@);
    lemma_members_cached_keys(s2, g, gd.members@);
    let s4 = s3.presences_cached(g, gd.presences@);
    lemma_presences_cached_keys(s3, g, gd.presences@);
    let s5 = s4.roles_cached(g, gd.roles@);
    let s6 = s5.voice_states_cached(g, gd.voice_states@);
    lemma_other_folds_member_frame(s4, g, Seq::empty(), Seq::empty(), gd.roles@, Seq::empty(), Seq::empty());
    lemma_other_folds_member_frame(s5, g, Seq::empty(), Seq::empty(), Seq::empty(), gd.voice_states@, Seq::empty());
    let us = member_user_set(gd.members@);
    let ps = presence_user_set(gd.presences@);
    let c = s.guild_created(gd);
    assert(c.guild_members[g.0] =~= us);
    assert(c.guild_presences[g.0] =~= ps);
    let r = c.guild_records_dropped(g.0);
    let (mu, vu) = choose|mu: Seq<u64>, vu: Seq<u64>|
        mu.to_set() == crate::index::set_at(c.guild_members, g.0)
        && vu.to_set() == crate::index::set_at(c.voice_state_guilds, g.0)
        && t == (CacheView {
            guild_members: r.members_dropped(g, mu).voice_dropped(g.0, vu).guild_members.remove(g.0),
            ..r.members_dropped(g, mu).voice_dropped(g.0, vu)
        });
    assert(mu.to_set() == us);
    lemma_members_dropped_keys(r, g, mu);
    let r2 = r.members_dropped(g, mu);
    lemma_other_folds_member_frame(r2, g, Seq::empty(), Seq::empty(), Seq::empty(), Seq::empty(), vu);
    assert(t.members.dom() =~= s.members.dom()) by {
        assert forall|k: u128| t.members.contains_key(k) <==> s.members.contains_key(k) by {
            if s.members.contains_key(k) && crate::index::guild_keys(g.0, us).contains(k) {
                let y = choose|y: u64| us.contains(y) && k == pair_key(g.0, y);
                assert(s.members.contains_key(pair_key(g.0, y)));
            }
        }
    }
    assert(t.guild_members.dom() =~= s.guild_members.dom());
    assert(t.users.dom() =~= s.users.dom()) by {
        assert forall|u: u64| t.users.contains_key(u) <==> s.users.contains_key(u) by {
            if us.contains(u) {
                if s.users.contains_key(u) {
                    assert(s.users_exact());
                    assert(!s.users[u].1.contains(g.0));
                    assert((s.users[u].1 + set![g.0]).remove(g.0) =~= s.users[u].1);
                } else {
                    assert((Set::<u64>::empty() + set![g.0]).remove(g.0) =~= Set::empty());
                }
            }
        }
    }
    assert(t.presences.dom() =~= s.presences.dom()) by {
        assert forall|k: u128| t.presences.contains_key(k) <==> s.presences.contains_key(k) by {
            if s.presences.contains_key(k) && crate::index::guild_keys(g.0, ps).contains(k) {
                let y = choose|y: u64| ps.contains(y) && k == pair_key(g.0, y);
                assert(s.presences.contains_key(pair_key(g.0, y)));
            }
        }
    }
    assert(t.guild_presences.dom() =~= s.guild_presences.dom());
}

/// The three voice indices, untouched.
pub open spec fn same_voice_level(a: CacheView, b: CacheView) -> bool {
    &&& a.voice_states == b.voice_states
    &&& a.voice_state_guilds == b.voice_state_guilds
    &&& a.voice_state_channels == b.voice_state_channels
}

proof fn lemma_non_voice_folds_frame(s: CacheView, g: GuildId, chs: Seq<crate::model::GuildChannel>,
    es: Seq<crate::model::Emoji>, ms: Seq<Member>, ps: Seq<crate::model::Presence>,
    rs: Seq<crate::model::Role>, us: Seq<u64>)
    ensures
        same_voice_level(s.channels_cached(g, chs), s),
        same_voice_level(s.emojis_cached(g, es), s),
        same_voice_level(s.members_cached(g, ms), s),
        same_voice_level(s.presences_cached(g, ps), s),
        same_voice_level(s.roles_cached(g, rs), s),
        same_voice_level(s.members_dropped(g, us), s),
    decreases chs.len() + es.len() + ms.len() + ps.len() + rs.len() + us.len(),
{
    if chs.len() > 0 {
        lemma_non_voice_folds_frame(s, g, chs.drop_last(), es, ms, ps, rs, us);
    }
    if es.len() > 0 {
        lemma_non_voice_folds_frame(s, g, chs, es.drop_last(), ms, ps, rs, us);
    }
    if ms.len() > 0 {
        lemma_non_voice_folds_frame(s, g, chs, es, ms.drop_last(), ps, rs, us);
    }
    if ps.len() > 0 {
        lemma_non_voice_folds_frame(s, g, chs, es, ms, ps.drop_last(), rs, us);
    }
    if rs.len() > 0 {
        lemma_non_voice_folds_frame(s, g, chs, es, ms, ps, rs.drop_last(), us);
    }
    if us.len() > 0 {
        lemma_non_voice_folds_frame(s, g, chs, es, ms, ps, rs, us.drop_last());
    }
}

/// Creating a guild the cache does not know and then deleting it leaves the
/// voice states and the voice indices by guild and by channel with the keys
/// they had.
pub proof fn law_guild_create_delete_voice_keys(s: CacheView, gd: crate::event::Guild, t: CacheView)
    requires
        s.wf(),
        !s.voice_state_guilds.contains_key(gd.info.id.0),
        s.guild_created(gd).guild_deleted(t, gd.info.id),
    ensures
        t.voice_states.dom() == s.voice_states.dom(),
        t.voice_state_guilds.dom() == s.voice_state_guilds.dom(),
        t.voice_state_channels.dom() == s.voice_state_channels.dom(),
{
    let g = gd.info.id;
    let e = Seq::<u64>::empty();
    assert forall|k: u128| #[trigger] s.voice_states.contains_key(k) implies !in_guild_key(g.0, k) by {
        if in_guild_key(g.0, k) {
            let u = choose|u: u64| pair_key(g.0, u) == k;
            assert(s.voice_states.contains_key(pair_key(g.0, u)));
        }
    }
    let s0 = s.guild_indices_ready(g.0);
    assert(s0.wf());
    let s1 = s0.channels_cached(g, gd.channels@);
    crate::cache::guilds::lemma_channels_cached_wf(s0, g, gd.channels@);
    let s2 = s1.emojis_cached(g, gd.emojis@);
    crate::cache::channels::lemma_emojis_cached_wf(s1, g, gd.emojis@);
    let s3 = s2.members_cached(g, gd.members@);
    crate::cache::guilds::lemma_members_cached_wf(s2, g, gd.members@);
    let s4 = s3.presences_cached(g, gd.presences@);
    crate::cache::guilds::lemma_presences_cached_wf(s3, g, gd.presences@);
    let s5 = s4.roles_cached(g, gd.roles@);
    crate::cache::guilds::lemma_roles_cached_wf(s4, g, gd.roles@);
    lemma_non_voice_folds_frame(s0, g, gd.channels@, Seq::empty(), Seq::empty(), Seq::empty(), Seq::empty(), e);
    lemma_non_voice_folds_frame(s1, g, Seq::empty(), gd.emojis@, Seq::empty(), Seq::empty(), Seq::empty(), e);
    lemma_non_voice_folds_frame(s2, g, Seq::empty(), Seq::empty(), gd.members@, Seq::empty(), Seq::empty(), e);
    lemma_non_voice_folds_frame(s3, g, Seq::empty(), Seq::empty(), Seq::empty(), gd.presences@, Seq::empty(), e);
    lemma_non_voice_folds_frame(s4, g, Seq::empty(), Seq::empty(), Seq::empty(), Seq::empty(), gd.roles@, e);
    assert(same_voice_level(s5, s));
    let s6 = s5.voice_states_cached(g, gd.voice_states@);
    lemma_voice_states_cached_outside(s5, g, gd.voice_states@);
    let c = s.guild_created(gd);
    crate::cache::guilds::lemma_guild_created_wf(s, gd);
    let r = c.guild_records_dropped(g.0);
    crate::cache::guilds::lemma_guild_records_dropped_wf(c, g.0);
    let (mu, vu) = choose|mu: Seq<u64>, vu: Seq<u64>|
        mu.to_set() == crate::index::set_at(c.guild_members, g.0)
        && vu.to_set() == crate::index::set_at(c.voice_state_guilds, g.0)
        && t == (CacheView {
            guild_members: r.members_dropped(g, mu).voice_dropped(g.0, vu).guild_members.remove(g.0),
            ..r.members_dropped(g, mu).voice_dropped(g.0, vu)
        });
    let r2 = r.members_dropped(g, mu);
    crate::cache::guilds::lemma_members_dropped(r, g, mu);
    lemma_non_voice_folds_frame(r, g, Seq::empty(), Seq::empty(), Seq::empty(), Seq::empty(), Seq::empty(), mu);
    let r3 = r2.voice_dropped(g.0, vu);
    lemma_voice_dropped_outside(r2, g.0, vu);
    assert forall|u: u64| !(#[trigger] r3.voice_states.contains_key(pair_key(g.0, u))) by {
        if r3.voice_states.contains_key(pair_key(g.0, u)) {
            assert(r2.voice_states.contains_key(pair_key(g.0, u)));
            assert(r2.voice_state_guilds[g.0].contains(u));
            assert(vu.to_set().contains(u));
            assert(vu.contains(u));
        }
    }
    assert forall|k: u128| #[trigger] r3.voice_states.contains_key(k) implies !in_guild_key(g.0, k) by {
        if in_guild_key(g.0, k) {
            let u = choose|u: u64| pair_key(g.0, u) == k;
            assert(!r3.voice_states.contains_key(pair_key(g.0, u)));
        }
    }
    assert(t.voice_states.dom() =~= s.voice_states.dom());
    assert(t.voice_state_guilds.dom() =~= s.voice_state_guilds.dom()) by {
        assert forall|g2: u64| t.voice_state_guilds.contains_key(g2) <==> s.voice_state_guilds.contains_key(g2) by {
            if g2 == g.0 && t.voice_state_guilds.contains_key(g2) {
                assert(!r3.voice_state_guilds[g2].is_empty());
                let u = choose|u: u64| r3.voice_state_guilds[g2].contains(u);
                assert(r3.voice_states.contains_key(pair_key(g2, u)));
            }
        }
    }
    assert(t.voice_state_channels.dom() =~= s.voice_state_channels.dom()) by {
        assert forall|ch: u64| t.voice_state_channels.contains_key(ch) <==> s.voice_state_channels.contains_key(ch) by {
            if t.voice_state_channels.contains_key(ch) {
                assert(!r3.voice_state_channels[ch].is_empty());
                let k = choose|k: u128| r3.voice_state_channels[ch].contains(k);
                assert(r3.voice_states.contains_key(k));
                assert(!in_guild_key(g.0, k));
                assert(crate::index::set_at(r3.voice_state_channels, ch).contains(k));
                assert(crate::index::set_at(r2.voice_state_channels, ch).contains(k));
                assert(s6.voice_state_channels.contains_key(ch) && s6.voice_state_channels[ch].contains(k));
            }
            if s.voice_state_channels.contains_key(ch) {
                assert(!s.voice_state_channels[ch].is_empty());
                let k = choose|k: u128| s.voice_state_channels[ch].contains(k);
                assert(s.voice_states.contains_key(k));
                assert(!in_guild_key(g.0, k));
                assert(s6.voice_state_channels.contains_key(ch) && s6.voice_state_channels[ch].contains(k));
                assert(crate::index::set_at(r2.voice_state_channels, ch).contains(k));
                assert(crate::index::set_at(r3.voice_state_channels, ch).contains(k));
            }
        }
    }
}

/// The private channels, groups, messages, own user and configuration,
/// untouched.
pub open spec fn same_outside_guilds(a: CacheView, b: CacheView) -> bool {
    &&& a.channels_private == b.channels_private
    &&& a.groups == b.groups
    &&& a.messages == b.messages
    &&& a.current_user == b.current_user
    &&& a.config == b.config
}

proof fn lemma_guild_folds_outside(s: CacheView, g: GuildId, chs: Seq<crate::model::GuildChannel>,
    es: Seq<crate::model::Emoji>, ms: Seq<Member>, ps: Seq<crate::model::Presence>,
    rs: Seq<crate::model::Role>, vss: Seq<VoiceState>, us: Seq<u64>, vu: Seq<u64>)
    ensures
        same_outside_guilds(s.channels_cached(g, chs), s),
        same_outside_guilds(s.emojis_cached(g, es), s),
        same_outside_guilds(s.members_cached(g, ms), s),
        same_outside_guilds(s.presences_cached(g, ps), s),
        same_outside_guilds(s.roles_cached(g, rs), s),
        same_outside_guilds(s.voice_states_cached(g, vss), s),
        same_outside_guilds(s.members_dropped(g, us), s),
        same_outside_guilds(s.voice_dropped(g.0, vu), s),
    decreases chs.len() + es.len() + ms.len() + ps.len() + rs.len() + vss.len() + us.len() + vu.len(),
{
    let e = Seq::<u64>::empty();
    if chs.len() > 0 {
        lemma_guild_folds_outside(s, g, chs.drop_last(), es, ms, ps, rs, vss, us, vu);
    }
    if es.len() > 0 {
        lemma_guild_folds_outside(s, g, chs, es.drop_last(), ms, ps, rs, vss, us, vu);
    }
    if ms.len() > 0 {
        lemma_guild_folds_outside(s, g, chs, es, ms.drop_last(), ps, rs, vss, us, vu);
    }
    if ps.len() > 0 {
        lemma_guild_folds_outside(s, g, chs, es, ms, ps.drop_last(), rs, vss, us, vu);
    }
    if rs.len() > 0 {
        lemma_guild_folds_outside(s, g, chs, es, ms, ps, rs.drop_last(), vss, us, vu);
    }
    if vss.len() > 0 {
        lemma_guild_folds_outside(s, g, chs, es, ms, ps, rs, vss.drop_last(), us, vu);
    }
    if us.len() > 0 {
        lemma_guild_folds_outside(s, g, chs, es, ms, ps, rs, vss, us.drop_last(), vu);
    }
    if vu.len() > 0 {
        lemma_guild_folds_outside(s, g, chs, es, ms, ps, rs, vss, us, vu.drop_last());
    }
}

/// Creating a guild the cache does not know at all (no record, not
/// unavailable, no per-guild set, none of its channels, emojis and roles
/// cached) and then deleting it leaves every index with the keys it had.
pub proof fn law_guild_create_then_delete(s: CacheView, gd: crate::event::Guild, t: CacheView)
    requires
        s.wf(),
        !s.guilds.contains_key(gd.info.id.0),
        !s.unavailable_guilds.contains(gd.info.id.0),
        !s.guild_channels.contains_key(gd.info.id.0),
        !s.guild_emojis.contains_key(gd.info.id.0),
        !s.guild_members.contains_key(gd.info.id.0),
        !s.guild_presences.contains_key(gd.info.id.0),
        !s.guild_roles.contains_key(gd.info.id.0),
        !s.voice_state_guilds.contains_key(gd.info.id.0),
        channel_id_set(gd.channels@).disjoint(s.channels_guild.dom()),
        emoji_id_set(gd.emojis@).disjoint(s.emojis.dom()),
        role_id_set(gd.roles@).disjoint(s.roles.dom()),
        s.guild_created(gd).guild_deleted(t, gd.info.id),
    ensures
        guild_level_keys(t) == guild_level_keys(s),
        t.members.dom() == s.members.dom(),
        t.guild_members.dom() == s.guild_members.dom(),
        t.users.dom() == s.users.dom(),
        t.presences.dom() == s.presences.dom(),
        t.guild_presences.dom() == s.guild_presences.dom(),
        t.voice_states.dom() == s.voice_states.dom(),
        t.voice_state_guilds.dom() == s.voice_state_guilds.dom(),
        t.voice_state_channels.dom() == s.voice_state_channels.dom(),
        same_outside_guilds(t, s),
{
    law_guild_create_delete_keys(s, gd, t);
    law_guild_create_delete_member_keys(s, gd, t);
    law_guild_create_delete_voice_keys(s, gd, t);
    let g = gd.info.id;
    let e = Seq::<u64>::empty();
    let s0 = s.guild_indices_ready(g.0);
    let s1 = s0.channels_cached(g, gd.channels@);
    let s2 = s1.emojis_cached(g, gd.emojis@);
    let s3 = s2.members_cached(g, gd.members@);
    let s4 = s3.presences_cached(g, gd.presences@);
    let s5 = s4.roles_cached(g, gd.roles@);
    lemma_guild_folds_outside(s0, g, gd.channels@, Seq::empty(), Seq::empty(), Seq::empty(), Seq::empty(), Seq::empty(), e, e);
    lemma_guild_folds_outside(s1, g, Seq::empty(), gd.emojis@, Seq::empty(), Seq::empty(), Seq::empty(), Seq::empty(), e, e);
    lemma_guild_folds_outside(s2, g, Seq::empty(), Seq::empty(), gd.members@, Seq::empty(), Seq::empty(), Seq::empty(), e, e);
    lemma_guild_folds_outside(s3, g, Seq::empty(), Seq::empty(), Seq::empty(), gd.presences@, Seq::empty(), Seq::empty(), e, e);
    lemma_guild_folds_outside(s4, g, Seq::empty(), Seq::empty(), Seq::empty(), Seq::empty(), gd.roles@, Seq::empty(), e, e);
    lemma_guild_folds_outside(s5, g, Seq::empty(), Seq::empty(), Seq::empty(), Seq::empty(), Seq::empty(), gd.voice_states@, e, e);
    let c = s.guild_created(gd);
    let r = c.guild_records_dropped(g.0);
    let (mu, vu) = choose|mu: Seq<u64>, vu: Seq<u64>|
        mu.to_set() == crate::index::set_at(c.guild_members, g.0)
        && vu.to_set() == crate::index::set_at(c.voice_state_guilds, g.0)
        && t == (CacheView {
            guild_members: r.members_dropped(g, mu).voice_dropped(g.0, vu).guild_members.remove(g.0),
            ..r.members_dropped(g, mu).voice_dropped(g.0, vu)
        });
    lemma_guild_folds_outside(r, g, Seq::empty(), Seq::empty(), Seq::empty(), Seq::empty(), Seq::empty(), Seq::empty(), mu, e);
    lemma_guild_folds_outside(r.members_dropped(g, mu), g, Seq::empty(), Seq::empty(), Seq::empty(), Seq::empty(), Seq::empty(), Seq::empty(), e, vu);
}

} // verus!
