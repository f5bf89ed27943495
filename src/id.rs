//! Strongly typed identifiers, each a newtype over a 64-bit integer.
use vstd::prelude::*;

verus! {

/// Identifier of a channel (guild channel, private channel or group).
#[derive(Clone, Copy, Debug, PartialEq, Eq, Structural, Hash, PartialOrd, Ord)]
pub struct ChannelId(pub u64);

/// Identifier of a custom emoji.
#[derive(Clone, Copy, Debug, PartialEq, Eq, Structural, Hash, PartialOrd, Ord)]
pub struct EmojiId(pub u64);

/// Identifier of a guild.
#[derive(Clone, Copy, Debug, PartialEq, Eq, Structural, Hash, PartialOrd, Ord)]
pub struct GuildId(pub u64);

/// Identifier of a message.
#[derive(Clone, Copy, Debug, PartialEq, Eq, Structural, Hash, PartialOrd, Ord)]
pub struct MessageId(pub u64);

/// Identifier of a role.
#[derive(Clone, Copy, Debug, PartialEq, Eq, Structural, Hash, PartialOrd, Ord)]
pub struct RoleId(pub u64);

/// Identifier of a user.
#[derive(Clone, Copy, Debug, PartialEq, Eq, Structural, Hash, PartialOrd, Ord)]
pub struct UserId(pub u64);

/// The raw identifiers of a sequence of channel identifiers.
pub open spec fn channel_raw(s: Seq<ChannelId>) -> Seq<u64> {
    s.map_values(|c: ChannelId| c.0)
}

/// The raw identifiers of a sequence of guild identifiers.
pub open spec fn guild_raw(s: Seq<GuildId>) -> Seq<u64> {
    s.map_values(|g: GuildId| g.0)
}

/// The raw identifiers of a sequence of user identifiers.
pub open spec fn user_raw(s: Seq<UserId>) -> Seq<u64> {
    s.map_values(|u: UserId| u.0)
}

/// The raw identifiers of a sequence of role identifiers.
pub open spec fn role_raw(s: Seq<RoleId>) -> Seq<u64> {
    s.map_values(|r: RoleId| r.0)
}

/// The raw identifiers of a sequence of emoji identifiers.
pub open spec fn emoji_raw(s: Seq<EmojiId>) -> Seq<u64> {
    s.map_values(|e: EmojiId| e.0)
}

/// Base of the composite key: a (guild, user) pair is stored as
/// `guild * PAIR_BASE + user`.
pub const PAIR_BASE: u128 = 0x1_0000_0000_0000_0000;

/// The composite key of a (guild, user) pair, as a mathematical integer.
pub open spec fn pair_key(g: u64, u: u64) -> u128 {
    (g as int * PAIR_BASE as int + u as int) as u128
}

/// Distinct pairs have distinct composite keys.
pub proof fn lemma_pair_key_injective(g1: u64, u1: u64, g2: u64, u2: u64)
    ensures
        pair_key(g1, u1) == pair_key(g2, u2) <==> (g1 == g2 && u1 == u2),
{
    let b = PAIR_BASE as int;
    assert(pair_key(g1, u1) == g1 * b + u1) by (nonlinear_arith)
        requires g1 <= u64::MAX, u1 <= u64::MAX, b == 0x1_0000_0000_0000_0000int;
    assert(pair_key(g2, u2) == g2 * b + u2) by (nonlinear_arith)
        requires g2 <= u64::MAX, u2 <= u64::MAX, b == 0x1_0000_0000_0000_0000int;
    if pair_key(g1, u1) == pair_key(g2, u2) {
        assert(g1 == g2 && u1 == u2) by (nonlinear_arith)
            requires
                g1 * b + u1 == g2 * b + u2,
                0 <= u1 < b, 0 <= u2 < b, g1 >= 0, g2 >= 0;
    }
}

/// The guild part of a composite key.
pub open spec fn key_guild(k: u128) -> u64 {
    (k / PAIR_BASE) as u64
}

/// The user part of a composite key.
pub open spec fn key_user(k: u128) -> u64 {
    (k % PAIR_BASE) as u64
}

/// Packs a (guild, user) pair into its composite key.
pub fn guild_user_key(guild_id: GuildId, user_id: UserId) -> (r: u128)
    ensures
        r == pair_key(guild_id.0, user_id.0),
        key_guild(r) == guild_id.0,
        key_user(r) == user_id.0,
{
    let g = guild_id.0 as u128;
    let u = user_id.0 as u128;
    assert(g * PAIR_BASE + u <= u128::MAX) by (nonlinear_arith)
        requires g <= u64::MAX, u <= u64::MAX;
    let r = g * PAIR_BASE + u;
    assert(r / PAIR_BASE == g && r % PAIR_BASE == u) by (nonlinear_arith)
        requires r == g * PAIR_BASE + u, u < PAIR_BASE;
    r
}

} // verus!
