//! The bounded per-channel message store, and reactions on messages.
//!
//! Each channel keeps its messages in increasing identifier order. When a
//! full channel receives a message, the message with the smallest
//! identifier (the oldest, as identifiers grow over time) is evicted first.
use vstd::prelude::*;
use std::sync::Arc;
use crate::cache::{messages_view, share, unshare_seq, CacheView, InMemoryCache};
use crate::event::{MessageUpdate, Reaction};
use crate::id::{user_raw, ChannelId, MessageId, UserId};
use crate::model::{CachedMessage, Duplicate, Message, MessageReaction, ReactionType, Snapshot, User};

verus! {

broadcast use vstd::std_specs::hash::group_hash_axioms;

/// The identifiers of a list of users.
pub open spec fn mention_ids(us: Seq<User>) -> Seq<u64> {
    us.map_values(|u: User| u.id.0)
}

/// Whether `x` is the record the cache keeps for message `m`: the same
/// fields, with users by identifier.
pub open spec fn message_record(x: CachedMessage, m: Message) -> bool {
    &&& x.activity == m.activity
    &&& x.attachments == m.attachments
    &&& x.author == m.author.id
    &&& x.channel_id == m.channel_id
    &&& x.content == m.content
    &&& x.edited_timestamp == m.edited_timestamp
    &&& x.embeds == m.embeds
    &&& x.flags == m.flags
    &&& x.guild_id == m.guild_id
    &&& x.id == m.id
    &&& x.mention_everyone == m.mention_everyone
    &&& x.mention_roles == m.mention_roles
    &&& user_raw(x.mentions@) == mention_ids(m.mentions@)
    &&& x.pinned == m.pinned
    &&& x.reactions == m.reactions
    &&& x.timestamp == m.timestamp
    &&& x.tts == m.tts
}

/// Whether `i` is where a message with identifier `id` goes in `s`: the
/// first position whose identifier is not smaller.
pub open spec fn insert_position(s: Seq<CachedMessage>, id: u64, i: int) -> bool {
    &&& 0 <= i <= s.len()
    &&& forall|j: int| 0 <= j < i ==> (#[trigger] s[j]).id.0 < id
    &&& (i < s.len() ==> s[i].id.0 >= id)
}

/// `s` with `x` put at position `i`: replacing a message with the same
/// identifier there, inserted otherwise.
pub open spec fn put_at(s: Seq<CachedMessage>, x: CachedMessage, i: int) -> Seq<CachedMessage> {
    if i < s.len() && s[i].id == x.id {
        s.update(i, x)
    } else {
        s.insert(i, x)
    }
}

/// A channel's messages after the oldest one is evicted, if the channel
/// holds `cap` messages or more.
pub open spec fn make_room(s: Seq<CachedMessage>, cap: usize) -> Seq<CachedMessage> {
    if s.len() >= cap && s.len() > 0 {
        s.drop_first()
    } else {
        s
    }
}

/// Whether `i` is the first position of `s` holding message `id`.
pub open spec fn found_at(s: Seq<CachedMessage>, id: MessageId, i: int) -> bool {
    &&& 0 <= i < s.len()
    &&& s[i].id == id
    &&& forall|j: int| 0 <= j < i ==> (#[trigger] s[j]).id != id
}

/// Whether `s` holds message `id`.
pub open spec fn holds(s: Seq<CachedMessage>, id: MessageId) -> bool {
    exists|i: int| 0 <= i < s.len() && (#[trigger] s[i]).id == id
}

/// Keeps the messages whose identifier is not among `ids`.
pub open spec fn not_in(ids: Seq<MessageId>) -> spec_fn(CachedMessage) -> bool {
    |m: CachedMessage| !ids.contains(m.id)
}

/// Whether `x` is message `m` with the fields present in `u` replaced.
pub open spec fn overlaid(x: CachedMessage, m: CachedMessage, u: MessageUpdate) -> bool {
    &&& x.activity.same(&m.activity)
    &&& match u.attachments {
        Some(a) => x.attachments == a,
        None => x.attachments.same(&m.attachments),
    }
    &&& x.author == m.author
    &&& x.channel_id == m.channel_id
    &&& match u.content {
        Some(cn) => x.content == cn,
        None => x.content@ == m.content@,
    }
    &&& match u.edited_timestamp {
        Some(e) => x.edited_timestamp == Some(e),
        None => x.edited_timestamp.same(&m.edited_timestamp),
    }
    &&& match u.embeds {
        Some(e) => x.embeds == e,
        None => x.embeds.same(&m.embeds),
    }
    &&& x.flags == m.flags
    &&& x.guild_id == m.guild_id
    &&& x.id == m.id
    &&& x.mention_everyone == match u.mention_everyone {
        Some(b) => b,
        None => m.mention_everyone,
    }
    &&& match u.mention_roles {
        Some(r) => x.mention_roles == r,
        None => x.mention_roles.same(&m.mention_roles),
    }
    &&& match u.mentions {
        Some(us) => user_raw(x.mentions@) == mention_ids(us@),
        None => x.mentions.same(&m.mentions),
    }
    &&& x.pinned == match u.pinned {
        Some(b) => b,
        None => m.pinned,
    }
    &&& x.reactions.same(&m.reactions)
    &&& match u.timestamp {
        Some(ts) => x.timestamp == ts,
        None => x.timestamp@ == m.timestamp@,
    }
    &&& x.tts == match u.tts {
        Some(b) => b,
        None => m.tts,
    }
}

/// Whether `x` holds the same data as `m` but for its reactions.
pub open spec fn same_but_reactions(x: CachedMessage, m: CachedMessage) -> bool {
    x.same(&CachedMessage { reactions: x.reactions, ..m })
}

/// Whether `j` is the first reaction of `rs` with emoji `e`.
pub open spec fn reaction_at(rs: Seq<MessageReaction>, e: ReactionType, j: int) -> bool {
    &&& 0 <= j < rs.len()
    &&& rs[j].emoji.same(&e)
    &&& forall|k: int| 0 <= k < j ==> !(#[trigger] rs[k]).emoji.same(&e)
}

/// Whether no reaction of `rs` has emoji `e`.
pub open spec fn no_reaction(rs: Seq<MessageReaction>, e: ReactionType) -> bool {
    forall|k: int| 0 <= k < rs.len() ==> !(#[trigger] rs[k]).emoji.same(&e)
}

/// Whether `nr` is `rs` after a reaction with emoji `e`, by the client's
/// own user when `me`: the first matching reaction counts one more (and is
/// marked as the client's when `me`), or a new reaction is appended.
pub open spec fn reaction_added(rs: Seq<MessageReaction>, nr: Seq<MessageReaction>, e: ReactionType, me: bool) -> bool {
    if exists|j: int| reaction_at(rs, e, j) {
        let j = choose|j: int| reaction_at(rs, e, j);
        &&& nr.len() == rs.len()
        &&& forall|k: int| 0 <= k < rs.len() && k != j ==> (#[trigger] nr[k]).same(&rs[k])
        &&& nr[j].count == (if rs[j].count < u64::MAX { (rs[j].count + 1) as u64 } else { rs[j].count })
        &&& nr[j].emoji.same(&rs[j].emoji)
        &&& nr[j].me == (rs[j].me || me)
    } else {
        &&& nr.len() == rs.len() + 1
        &&& forall|k: int| 0 <= k < rs.len() ==> (#[trigger] nr[k]).same(&rs[k])
        &&& nr[rs.len() as int] == (MessageReaction { count: 1, emoji: e, me })
    }
}

/// Keeps the reactions whose emoji is not `e`.
pub open spec fn other_emoji(e: ReactionType) -> spec_fn(MessageReaction) -> bool {
    |x: MessageReaction| !x.emoji.same(&e)
}

/// Whether two lists of reactions hold the same data, entry by entry.
pub open spec fn same_reactions(a: Seq<MessageReaction>, b: Seq<MessageReaction>) -> bool {
    &&& a.len() == b.len()
    &&& forall|k: int| 0 <= k < a.len() ==> (#[trigger] a[k]).same(&b[k])
}

/// Whether `nr` is `rs` after a reaction with emoji `e` is taken back, by
/// the client's own user when `me`: the first matching reaction counts one
/// less (and loses the client's mark when `me`); when it would reach zero,
/// every reaction with that emoji goes.
pub open spec fn reaction_removed(rs: Seq<MessageReaction>, nr: Seq<MessageReaction>, e: ReactionType, me: bool) -> bool {
    if exists|j: int| reaction_at(rs, e, j) {
        let j = choose|j: int| reaction_at(rs, e, j);
        if rs[j].count > 1 {
            &&& nr.len() == rs.len()
            &&& forall|k: int| 0 <= k < rs.len() && k != j ==> (#[trigger] nr[k]).same(&rs[k])
            &&& nr[j].count == rs[j].count - 1
            &&& nr[j].emoji.same(&rs[j].emoji)
            &&& nr[j].me == (rs[j].me && !me)
        } else {
            same_reactions(nr, rs.filter(other_emoji(e)))
        }
    } else {
        &&& nr.len() == rs.len()
        &&& forall|k: int| 0 <= k < rs.len() ==> (#[trigger] nr[k]).same(&rs[k])
    }
}

impl CacheView {
    /// The messages held for channel `c`, none when there is no entry.
    pub open spec fn channel_messages(self, c: u64) -> Seq<CachedMessage> {
        if self.messages.contains_key(c) {
            self.messages[c]
        } else {
            Seq::empty()
        }
    }

    /// Whether the reacting user `u` is the client's own user.
    pub open spec fn is_me(self, u: UserId) -> bool {
        self.current_user matches Some(cu) && cu.id == u
    }

    /// Whether `t` is the cache after message `m` is created: with a limit
    /// of zero nothing is kept; otherwise the oldest message of a full
    /// channel is evicted and the new one takes its place in identifier
    /// order.
    pub open spec fn message_created(self, t: CacheView, m: Message) -> bool {
        let c = m.channel_id.0;
        let cap = self.config.message_cache_size;
        if cap == 0 {
            t == self
        } else {
            let s = make_room(self.channel_messages(c), cap);
            exists|x: CachedMessage, i: int|
                #![trigger message_record(x, m), insert_position(s, x.id.0, i)]
                message_record(x, m) && insert_position(s, x.id.0, i)
                && t == (CacheView { messages: self.messages.insert(c, put_at(s, x, i)), ..self })
        }
    }

    /// The cache after the messages `ids` of channel `c` are deleted.
    pub open spec fn messages_deleted(self, c: u64, ids: Seq<MessageId>) -> CacheView {
        CacheView {
            messages: self.messages.insert(c, self.channel_messages(c).filter(not_in(ids))),
            ..self
        }
    }

    /// Whether `t` is the cache after the message edit `u`: a message that
    /// is not held is ignored.
    pub open spec fn message_updated(self, t: CacheView, u: MessageUpdate) -> bool {
        let c = u.channel_id.0;
        let s = self.channel_messages(c);
        if holds(s, u.id) {
            exists|x: CachedMessage, i: int|
                #![trigger overlaid(x, s[i], u), found_at(s, u.id, i)]
                found_at(s, u.id, i) && overlaid(x, s[i], u)
                && t == (CacheView { messages: self.messages.insert(c, s.update(i, x)), ..self })
        } else {
            t == self
        }
    }

    /// Whether `t` is the cache after the reactions of message `id` in
    /// channel `c` change as `step` says; a message that is not held is
    /// ignored.
    pub open spec fn reactions_changed(
        self,
        t: CacheView,
        c: ChannelId,
        id: MessageId,
        step: spec_fn(Seq<MessageReaction>, Seq<MessageReaction>) -> bool,
    ) -> bool {
        let s = self.channel_messages(c.0);
        if holds(s, id) {
            exists|x: CachedMessage, i: int|
                #![trigger same_but_reactions(x, s[i]), found_at(s, id, i)]
                found_at(s, id, i) && same_but_reactions(x, s[i]) && step(s[i].reactions@, x.reactions@)
                && t == (CacheView { messages: self.messages.insert(c.0, s.update(i, x)), ..self })
        } else {
            t == self
        }
    }

    /// Whether `t` is the cache after reaction `r` is added.
    pub open spec fn reaction_added_to(self, t: CacheView, r: Reaction) -> bool {
        let me = self.is_me(r.user_id);
        self.reactions_changed(t, r.channel_id, r.message_id,
            |rs: Seq<MessageReaction>, nr: Seq<MessageReaction>| reaction_added(rs, nr, r.emoji, me))
    }

    /// Whether `t` is the cache after reaction `r` is taken back.
    pub open spec fn reaction_removed_from(self, t: CacheView, r: Reaction) -> bool {
        let me = self.is_me(r.user_id);
        self.reactions_changed(t, r.channel_id, r.message_id,
            |rs: Seq<MessageReaction>, nr: Seq<MessageReaction>| reaction_removed(rs, nr, r.emoji, me))
    }

    /// Whether `t` is the cache after every reaction of a message is removed.
    pub open spec fn reactions_cleared(self, t: CacheView, c: ChannelId, id: MessageId) -> bool {
        self.reactions_changed(t, c, id,
            |rs: Seq<MessageReaction>, nr: Seq<MessageReaction>| nr.len() == 0)
    }
}

use crate::cache::sorted_by_id;

/// Keeping some of the messages of a sorted list keeps it sorted, and
/// every kept message has a smaller identifier than any message of `s`
/// bounding it from above.
proof fn lemma_filter_sorted(s: Seq<CachedMessage>, p: spec_fn(CachedMessage) -> bool, bound: int)
    requires
        sorted_by_id(s),
        forall|j: int| 0 <= j < s.len() ==> (#[trigger] s[j]).id.0 < bound,
    ensures
        sorted_by_id(s.filter(p)),
        s.filter(p).len() <= s.len(),
        forall|j: int| 0 <= j < s.filter(p).len() ==> (#[trigger] s.filter(p)[j]).id.0 < bound,
    decreases s.len(),
{
    reveal(Seq::filter);
    if s.len() > 0 {
        let last = s.last();
        lemma_filter_sorted(s.drop_last(), p, last.id.0 as int);
        lemma_filter_sorted(s.drop_last(), p, bound);
    }
}

/// Creating a message keeps the cache consistent: a channel never holds
/// more messages than the limit, and stays in identifier order.
pub proof fn lemma_message_created_wf(s: CacheView, t: CacheView, m: Message)
    requires
        s.wf(),
        s.message_created(t, m),
    ensures
        t.wf(),
{
    let c = m.channel_id.0;
    let cap = s.config.message_cache_size;
    if cap != 0 {
        let sq = s.channel_messages(c);
        let s1 = make_room(sq, cap);
        let (x, i) = choose|x: CachedMessage, i: int|
            message_record(x, m) && insert_position(s1, x.id.0, i)
            && t == (CacheView { messages: s.messages.insert(c, put_at(s1, x, i)), ..s });
        assert(sorted_by_id(s1));
        let u = put_at(s1, x, i);
        assert(u.len() <= cap);
        if i < s1.len() && s1[i].id == x.id {
            assert(sorted_by_id(u));
        } else {
            assert forall|a: int, b: int| 0 <= a < b < u.len() implies u[a].id.0 < u[b].id.0 by {
                if i < s1.len() {
                    assert(s1[i].id.0 != x.id.0);
                }
            }
        }
        assert(t.messages_bounded());
    }
}

/// Deleting messages keeps the cache consistent.
pub proof fn lemma_messages_deleted_wf(s: CacheView, c: u64, ids: Seq<MessageId>)
    requires
        s.wf(),
    ensures
        s.messages_deleted(c, ids).wf(),
{
    let sq = s.channel_messages(c);
    lemma_filter_sorted(sq, not_in(ids), u64::MAX as int + 1);
    let t = s.messages_deleted(c, ids);
    assert(t.messages_bounded());
}

/// Replacing message `i` of channel `c` by a record with the same
/// identifier keeps the cache consistent.
proof fn lemma_message_replaced_wf(s: CacheView, c: u64, i: int, x: CachedMessage)
    requires
        s.wf(),
        s.messages.contains_key(c),
        0 <= i < s.messages[c].len(),
        x.id == s.messages[c][i].id,
    ensures
        (CacheView { messages: s.messages.insert(c, s.messages[c].update(i, x)), ..s }).wf(),
{
    let t = CacheView { messages: s.messages.insert(c, s.messages[c].update(i, x)), ..s };
    assert(t.messages_bounded());
}

/// Editing a message keeps the cache consistent.
pub proof fn lemma_message_updated_wf(s: CacheView, t: CacheView, u: MessageUpdate)
    requires
        s.wf(),
        s.message_updated(t, u),
    ensures
        t.wf(),
{
    let c = u.channel_id.0;
    let sq = s.channel_messages(c);
    if holds(sq, u.id) {
        let (x, i) = choose|x: CachedMessage, i: int|
            found_at(sq, u.id, i) && overlaid(x, sq[i], u)
            && t == (CacheView { messages: s.messages.insert(c, sq.update(i, x)), ..s });
        lemma_message_replaced_wf(s, c, i, x);
    }
}

/// Changing the reactions of a message keeps the cache consistent.
pub proof fn lemma_reactions_changed_wf(
    s: CacheView,
    t: CacheView,
    c: ChannelId,
    id: MessageId,
    step: spec_fn(Seq<MessageReaction>, Seq<MessageReaction>) -> bool,
)
    requires
        s.wf(),
        s.reactions_changed(t, c, id, step),
    ensures
        t.wf(),
{
    let sq = s.channel_messages(c.0);
    if holds(sq, id) {
        let (x, i) = choose|x: CachedMessage, i: int|
            found_at(sq, id, i) && same_but_reactions(x, sq[i]) && step(sq[i].reactions@, x.reactions@)
            && t == (CacheView { messages: s.messages.insert(c.0, sq.update(i, x)), ..s });
        lemma_message_replaced_wf(s, c.0, i, x);
    }
}

/// Returns where a message with identifier `id` goes in `list`.
fn position_of(list: &Vec<Arc<CachedMessage>>, id: u64) -> (i: usize)
    ensures
        insert_position(unshare_seq(list@), id, i as int),
{
    let ghost s = unshare_seq(list@);
    let mut i: usize = 0;
    while i < list.len() && list[i].id.0 < id
        invariant
            s == unshare_seq(list@),
            i <= list@.len(),
            forall|j: int| 0 <= j < i ==> (#[trigger] s[j]).id.0 < id,
        decreases list@.len() - i,
    {
        i = i + 1;
    }
    i
}

/// Returns the first position of message `id` in `list`, if it is there.
fn find_message(list: &Vec<Arc<CachedMessage>>, id: MessageId) -> (r: Option<usize>)
    ensures
        match r {
            Some(i) => found_at(unshare_seq(list@), id, i as int),
            None => !holds(unshare_seq(list@), id),
        },
{
    let ghost s = unshare_seq(list@);
    let mut i: usize = 0;
    while i < list.len()
        invariant
            s == unshare_seq(list@),
            i <= list@.len(),
            forall|j: int| 0 <= j < i ==> (#[trigger] s[j]).id != id,
        decreases list@.len() - i,
    {
        if list[i].id == id {
            return Some(i);
        }
        i = i + 1;
    }
    None
}

/// Returns the identifiers of a list of users.
fn user_ids(users: &Vec<User>) -> (r: Vec<UserId>)
    ensures
        user_raw(r@) == mention_ids(users@),
{
    let mut r: Vec<UserId> = Vec::new();
    let mut i: usize = 0;
    while i < users.len()
        invariant
            i <= users@.len(),
            r@.len() == i,
            forall|j: int| 0 <= j < i ==> (#[trigger] r@[j]).0 == users@[j].id.0,
        decreases users@.len() - i,
    {
        r.push(users[i].id);
        i = i + 1;
    }
    assert(user_raw(r@) =~= mention_ids(users@));
    r
}

/// Returns whether `ids` holds `id`.
fn has_id(ids: &Vec<MessageId>, id: MessageId) -> (r: bool)
    ensures
        r == ids@.contains(id),
{
    let mut i: usize = 0;
    while i < ids.len()
        invariant
            i <= ids@.len(),
            forall|j: int| 0 <= j < i ==> ids@[j] != id,
        decreases ids@.len() - i,
    {
        if ids[i] == id {
            return true;
        }
        i = i + 1;
    }
    false
}

/// Returns the messages of `list` whose identifier is not among `ids`.
fn keep_messages(list: &Vec<Arc<CachedMessage>>, ids: &Vec<MessageId>) -> (r: Vec<Arc<CachedMessage>>)
    ensures
        unshare_seq(r@) == unshare_seq(list@).filter(not_in(ids@)),
{
    let ghost s = unshare_seq(list@);
    let mut r: Vec<Arc<CachedMessage>> = Vec::new();
    let mut i: usize = 0;
    while i < list.len()
        invariant
            s == unshare_seq(list@),
            i <= list@.len(),
            unshare_seq(r@) == s.subrange(0, i as int).filter(not_in(ids@)),
        decreases list@.len() - i,
    {
        proof {
            reveal(Seq::filter);
            assert(s.subrange(0, i + 1).drop_last() =~= s.subrange(0, i as int));
        }
        if !has_id(ids, list[i].id) {
            r.push(share(&list[i]));
            assert(unshare_seq(r@) =~= s.subrange(0, i + 1).filter(not_in(ids@)));
        } else {
            assert(unshare_seq(r@) =~= s.subrange(0, i + 1).filter(not_in(ids@)));
        }
        i = i + 1;
    }
    assert(s.subrange(0, i as int) =~= s);
    r
}

/// Returns the first position of a reaction with emoji `e`, if any.
fn find_reaction(rs: &Vec<MessageReaction>, e: &ReactionType) -> (r: Option<usize>)
    ensures
        match r {
            Some(j) => reaction_at(rs@, *e, j as int),
            None => no_reaction(rs@, *e),
        },
{
    let mut i: usize = 0;
    while i < rs.len()
        invariant
            i <= rs@.len(),
            forall|k: int| 0 <= k < i ==> !(#[trigger] rs@[k]).emoji.same(e),
        decreases rs@.len() - i,
    {
        if rs[i].emoji.same_as(e) {
            return Some(i);
        }
        i = i + 1;
    }
    None
}

proof fn lemma_reaction_at_unique(rs: Seq<MessageReaction>, e: ReactionType, j: int)
    requires
        reaction_at(rs, e, j),
    ensures
        (choose|j2: int| reaction_at(rs, e, j2)) == j,
{
    let j2 = choose|j2: int| reaction_at(rs, e, j2);
    assert(reaction_at(rs, e, j2));
    if j2 < j {
        assert(!rs[j2].emoji.same(&e));
    } else if j < j2 {
        assert(!rs[j].emoji.same(&e));
    }
}

/// The reactions after one with emoji `e` is added.
fn add_reaction(rs: &Vec<MessageReaction>, e: ReactionType, me: bool) -> (nr: Vec<MessageReaction>)
    ensures
        reaction_added(rs@, nr@, e, me),
{
    match find_reaction(rs, &e) {
        Some(j) => {
            proof {
                lemma_reaction_at_unique(rs@, e, j as int);
            }
            let mut nr = rs.duplicate();
            let held = &rs[j];
            let count = if held.count < u64::MAX {
                held.count + 1
            } else {
                held.count
            };
            let updated = MessageReaction { count, emoji: held.emoji.duplicate(), me: held.me || me };
            nr.remove(j);
            nr.insert(j, updated);
            nr
        },
        None => {
            let mut nr = rs.duplicate();
            nr.push(MessageReaction { count: 1, emoji: e, me });
            nr
        },
    }
}

/// The reactions whose emoji is not `e`.
fn without_emoji(rs: &Vec<MessageReaction>, e: &ReactionType) -> (nr: Vec<MessageReaction>)
    ensures
        same_reactions(nr@, rs@.filter(other_emoji(*e))),
{
    let mut nr: Vec<MessageReaction> = Vec::new();
    let mut i: usize = 0;
    while i < rs.len()
        invariant
            i <= rs@.len(),
            same_reactions(nr@, rs@.subrange(0, i as int).filter(other_emoji(*e))),
        decreases rs@.len() - i,
    {
        proof {
            reveal(Seq::filter);
            assert(rs@.subrange(0, i + 1).drop_last() =~= rs@.subrange(0, i as int));
            assert(rs@.subrange(0, i + 1).last() == rs@[i as int]);
        }
        if !rs[i].emoji.same_as(e) {
            nr.push(rs[i].duplicate());
        }
        i = i + 1;
    }
    assert(rs@.subrange(0, i as int) =~= rs@);
    nr
}

/// The reactions after one with emoji `e` is taken back.
fn remove_reaction(rs: &Vec<MessageReaction>, e: &ReactionType, me: bool) -> (nr: Vec<MessageReaction>)
    ensures
        reaction_removed(rs@, nr@, *e, me),
{
    match find_reaction(rs, e) {
        Some(j) => {
            proof {
                lemma_reaction_at_unique(rs@, *e, j as int);
            }
            let held = &rs[j];
            if held.count > 1 {
                let mut nr = rs.duplicate();
                let updated = MessageReaction {
                    count: held.count - 1,
                    emoji: held.emoji.duplicate(),
                    me: held.me && !me,
                };
                nr.remove(j);
                nr.insert(j, updated);
                nr
            } else {
                without_emoji(rs, e)
            }
        },
        None => rs.duplicate(),
    }
}

/// Returns message `base` with the fields present in `update` replaced.
fn overlay(base: &CachedMessage, update: MessageUpdate) -> (x: CachedMessage)
    ensures
        overlaid(x, *base, update),
{
    let mut x = base.duplicate();
    let MessageUpdate {
        attachments,
        channel_id: _,
        content,
        edited_timestamp,
        embeds,
        id: _,
        mention_everyone,
        mention_roles,
        mentions,
        pinned,
        timestamp,
        tts,
    } = update;
    if let Some(a) = attachments {
        x.attachments = a;
    }
    if let Some(cn) = content {
        x.content = cn;
    }
    if let Some(e) = edited_timestamp {
        x.edited_timestamp = Some(e);
    }
    if let Some(e) = embeds {
        x.embeds = e;
    }
    if let Some(b) = mention_everyone {
        x.mention_everyone = b;
    }
    if let Some(r) = mention_roles {
        x.mention_roles = r;
    }
    if let Some(us) = mentions {
        x.mentions = user_ids(&us);
    }
    if let Some(b) = pinned {
        x.pinned = b;
    }
    if let Some(ts) = timestamp {
        x.timestamp = ts;
    }
    if let Some(b) = tts {
        x.tts = b;
    }
    x
}

impl InMemoryCache {
    /// Caches a created message. A full channel first evicts its oldest
    /// message; with a limit of zero nothing is kept.
    pub fn cache_message(&mut self, message: Message)
        ensures
            old(self)@.message_created(final(self)@, message),
    {
        let ghost s0 = self@;
        let ghost m = message;
        let cap = self.config.message_cache_size;
        if cap == 0 {
            return;
        }
        let c = message.channel_id.0;
        let mut list = match self.messages.remove(&c) {
            Some(v) => v,
            None => Vec::new(),
        };
        assert(unshare_seq(list@) == s0.channel_messages(c));
        if list.len() >= cap {
            list.remove(0);
        }
        let ghost s = make_room(s0.channel_messages(c), cap);
        assert(unshare_seq(list@) =~= s);
        let mentions = user_ids(&message.mentions);
        let Message {
            activity,
            attachments,
            author,
            channel_id,
            content,
            edited_timestamp,
            embeds,
            flags,
            guild_id,
            id,
            mention_everyone,
            mention_roles,
            mentions: _,
            pinned,
            reactions,
            timestamp,
            tts,
        } = message;
        let x = CachedMessage {
            activity,
            attachments,
            author: author.id,
            channel_id,
            content,
            edited_timestamp,
            embeds,
            flags,
            guild_id,
            id,
            mention_everyone,
            mention_roles,
            mentions,
            pinned,
            reactions,
            timestamp,
            tts,
        };
        let ghost xv = x;
        let i = position_of(&list, id.0);
        if i < list.len() && list[i].id == id {
            list.remove(i);
        }
        list.insert(i, Arc::new(x));
        assert(unshare_seq(list@) =~= put_at(s, xv, i as int));
        self.messages.insert(c, list);
        assert(messages_view(self.messages@) =~= s0.messages.insert(c, put_at(s, xv, i as int)));
        assert(message_record(xv, m) && insert_position(s, xv.id.0, i as int));
    }

    /// Deletes messages of a channel.
    pub fn delete_messages(&mut self, channel_id: ChannelId, ids: &Vec<MessageId>)
        ensures
            final(self)@ == old(self)@.messages_deleted(channel_id.0, ids@),
    {
        let ghost s0 = self@;
        let c = channel_id.0;
        let list = match self.messages.remove(&c) {
            Some(v) => v,
            None => Vec::new(),
        };
        assert(unshare_seq(list@) == s0.channel_messages(c));
        let kept = keep_messages(&list, ids);
        self.messages.insert(c, kept);
        assert(messages_view(self.messages@) =~= s0.messages_deleted(c, ids@).messages);
    }

    /// Deletes one message of a channel.
    pub fn delete_message(&mut self, channel_id: ChannelId, id: MessageId)
        ensures
            final(self)@ == old(self)@.messages_deleted(channel_id.0, seq![id]),
    {
        let ids = vec![id];
        assert(ids@ =~= seq![id]);
        self.delete_messages(channel_id, &ids);
    }

    /// Applies an edit to a cached message, replacing its record; a message
    /// that is not held is ignored.
    pub fn update_message(&mut self, update: MessageUpdate)
        ensures
            old(self)@.message_updated(final(self)@, update),
    {
        let ghost s0 = self@;
        let ghost u = update;
        let c = update.channel_id.0;
        let found = match self.messages.get(&c) {
            Some(list) => match find_message(list, update.id) {
                Some(i) => Some((i, overlay(&list[i], update))),
                None => None,
            },
            None => None,
        };
        if let Some((i, x)) = found {
            let ghost xv = x;
            self.replace_message(c, i, x);
            assert(overlaid(xv, s0.channel_messages(c)[i as int], u));
        }
    }

    /// Returns whether `user_id` is the client's own user.
    fn is_current_user(&self, user_id: UserId) -> (r: bool)
        ensures
            r == self@.is_me(user_id),
    {
        match &self.current_user {
            Some(cu) => cu.id == user_id,
            None => false,
        }
    }

    /// Replaces message `i` of channel `c` by `x`.
    fn replace_message(&mut self, c: u64, i: usize, x: CachedMessage)
        requires
            old(self)@.messages.contains_key(c),
            i < old(self)@.messages[c].len(),
        ensures
            final(self)@ == (CacheView {
                messages: old(self)@.messages.insert(c, old(self)@.messages[c].update(i as int, x)),
                ..old(self)@
            }),
    {
        let ghost s0 = self@;
        let mut list = match self.messages.remove(&c) {
            Some(v) => v,
            None => Vec::new(),
        };
        list.remove(i);
        list.insert(i, Arc::new(x));
        assert(unshare_seq(list@) =~= s0.messages[c].update(i as int, x));
        self.messages.insert(c, list);
        assert(messages_view(self.messages@) =~= s0.messages.insert(c, s0.messages[c].update(i as int, x)));
    }

    /// Records a reaction on a cached message; a message that is not held
    /// is ignored.
    pub fn add_reaction(&mut self, reaction: Reaction)
        ensures
            old(self)@.reaction_added_to(final(self)@, reaction),
    {
        let ghost s0 = self@;
        let ghost r = reaction;
        let me = self.is_current_user(reaction.user_id);
        let c = reaction.channel_id.0;
        let found = match self.messages.get(&c) {
            Some(list) => match find_message(list, reaction.message_id) {
                Some(i) => Some((i, list[i].duplicate(), add_reaction(&list[i].reactions, reaction.emoji, me))),
                None => None,
            },
            None => None,
        };
        let (i, mut x, nr) = match found {
            Some(f) => f,
            None => {
                return;
            },
        };
        let ghost s = s0.channel_messages(c);
        x.reactions = nr;
        let ghost xv = x;
        proof {
            xv.reactions.lemma_same_refl();
            assert(same_but_reactions(xv, s[i as int]));
        }
        self.replace_message(c, i, x);
    }

    /// Takes back a reaction on a cached message; a message that is not
    /// held is ignored.
    pub fn remove_reaction(&mut self, reaction: &Reaction)
        ensures
            old(self)@.reaction_removed_from(final(self)@, *reaction),
    {
        let ghost s0 = self@;
        let me = self.is_current_user(reaction.user_id);
        let c = reaction.channel_id.0;
        let found = match self.messages.get(&c) {
            Some(list) => match find_message(list, reaction.message_id) {
                Some(i) => Some((i, list[i].duplicate(), remove_reaction(&list[i].reactions, &reaction.emoji, me))),
                None => None,
            },
            None => None,
        };
        let (i, mut x, nr) = match found {
            Some(f) => f,
            None => {
                return;
            },
        };
        let ghost s = s0.channel_messages(c);
        x.reactions = nr;
        let ghost xv = x;
        proof {
            xv.reactions.lemma_same_refl();
            assert(same_but_reactions(xv, s[i as int]));
        }
        self.replace_message(c, i, x);
    }

    /// Removes every reaction of a cached message; a message that is not
    /// held is ignored.
    pub fn clear_reactions(&mut self, channel_id: ChannelId, message_id: MessageId)
        ensures
            old(self)@.reactions_cleared(final(self)@, channel_id, message_id),
    {
        let ghost s0 = self@;
        let c = channel_id.0;
        let found = match self.messages.get(&c) {
            Some(list) => match find_message(list, message_id) {
                Some(i) => Some((i, list[i].duplicate())),
                None => None,
            },
            None => None,
        };
        let (i, mut x) = match found {
            Some(f) => f,
            None => {
                return;
            },
        };
        let ghost s = s0.channel_messages(c);
        x.reactions = Vec::new();
        let ghost xv = x;
        proof {
            xv.reactions.lemma_same_refl();
            assert(same_but_reactions(xv, s[i as int]));
        }
        self.replace_message(c, i, x);
    }
}

} // verus!
