//! Index primitives: maps from an identifier to a set of identifiers, and
//! copies of sets and key sets as vectors.
use vstd::prelude::*;
use std::collections::{HashMap, HashSet};
use vstd::std_specs::iter::IteratorSpec;

verus! {

broadcast use vstd::std_specs::hash::group_hash_axioms;

/// Lists the elements of a set, each once.
pub fn set_elements(s: &HashSet<u64>) -> (r: Vec<u64>)
    ensures
        r@.to_set() == s@,
        r@.no_duplicates(),
{
    let mut r: Vec<u64> = Vec::new();
    let ghost full = vstd::std_specs::hash::spec_hash_keys_iter(s).remaining();
    for x in iter: s.iter()
        invariant
            iter.seq() == full,
            r@ == iter.seq().subrange(0, iter.index()).unref(),
    {
        r.push(*x);
    }
    assert(r@ =~= full.unref());
    r
}

/// Lists the elements of a set of composite keys, each once.
pub fn pair_set_elements(s: &HashSet<u128>) -> (r: Vec<u128>)
    ensures
        r@.to_set() == s@,
        r@.no_duplicates(),
{
    let mut r: Vec<u128> = Vec::new();
    let ghost full = vstd::std_specs::hash::spec_hash_keys_iter(s).remaining();
    for x in iter: s.iter()
        invariant
            iter.seq() == full,
            r@ == iter.seq().subrange(0, iter.index()).unref(),
    {
        r.push(*x);
    }
    assert(r@ =~= full.unref());
    r
}

/// Lists the keys of a map, each once.
pub fn map_keys<V>(m: &HashMap<u64, V>) -> (r: Vec<u64>)
    ensures
        r@.to_set() == m@.dom(),
        r@.no_duplicates(),
{
    let mut r: Vec<u64> = Vec::new();
    let ghost full = vstd::std_specs::hash::spec_keys_iter(m).remaining();
    for x in iter: m.keys()
        invariant
            iter.seq() == full,
            r@ == iter.seq().subrange(0, iter.index()).unref(),
    {
        r.push(*x);
    }
    assert(r@ =~= full.unref());
    r
}

/// The composite keys of guild `g` with each of the users `us`.
pub open spec fn guild_keys(g: u64, us: Set<u64>) -> Set<u128> {
    us.map(|u: u64| crate::id::pair_key(g, u))
}

pub proof fn lemma_guild_keys_insert(g: u64, a: Set<u64>, u: u64)
    ensures
        guild_keys(g, a.insert(u)) == guild_keys(g, a).insert(crate::id::pair_key(g, u)),
{
    let f = |v: u64| crate::id::pair_key(g, v);
    assert forall|x: u128| #[trigger] guild_keys(g, a.insert(u)).contains(x)
        <==> guild_keys(g, a).insert(crate::id::pair_key(g, u)).contains(x) by {
        if guild_keys(g, a.insert(u)).contains(x) {
            let y = choose|y: u64| a.insert(u).contains(y) && x == f(y);
            if y != u {
                assert(a.contains(y) && x == f(y));
            }
        }
        if guild_keys(g, a).contains(x) {
            let y = choose|y: u64| a.contains(y) && x == f(y);
            assert(a.insert(u).contains(y) && x == f(y));
        }
        if x == crate::id::pair_key(g, u) {
            assert(a.insert(u).contains(u) && x == f(u));
        }
    }
    assert(guild_keys(g, a.insert(u)) =~= guild_keys(g, a).insert(crate::id::pair_key(g, u)));
}

/// Removes every key of `keys` from the map.
pub fn remove_all<V>(m: &mut HashMap<u64, V>, keys: &Vec<u64>)
    ensures
        final(m)@ == old(m)@.remove_keys(keys@.to_set()),
{
    let ghost m0 = m@;
    let mut i: usize = 0;
    while i < keys.len()
        invariant
            i <= keys@.len(),
            m@ == m0.remove_keys(keys@.subrange(0, i as int).to_set()),
        decreases keys@.len() - i,
    {
        m.remove(&keys[i]);
        assert(keys@.subrange(0, i + 1) =~= keys@.subrange(0, i as int).push(keys@[i as int]));
        proof { keys@.subrange(0, i as int).lemma_push_to_set_commute(keys@[i as int]); }
        assert(keys@.subrange(0, i + 1).to_set() =~= keys@.subrange(0, i as int).to_set().insert(keys@[i as int]));
        assert(m@ =~= m0.remove_keys(keys@.subrange(0, i + 1).to_set()));
        i = i + 1;
    }
    assert(keys@.subrange(0, i as int) =~= keys@);
}

/// Removes the key of guild `g` with each user of `users` from the map.
pub fn remove_all_pairs<V>(m: &mut HashMap<u128, V>, g: crate::id::GuildId, users: &Vec<u64>)
    ensures
        final(m)@ == old(m)@.remove_keys(guild_keys(g.0, users@.to_set())),
{
    let ghost m0 = m@;
    let mut i: usize = 0;
    while i < users.len()
        invariant
            i <= users@.len(),
            m@ == m0.remove_keys(guild_keys(g.0, users@.subrange(0, i as int).to_set())),
        decreases users@.len() - i,
    {
        let k = crate::id::guild_user_key(g, crate::id::UserId(users[i]));
        m.remove(&k);
        assert(users@.subrange(0, i + 1) =~= users@.subrange(0, i as int).push(users@[i as int]));
        proof { users@.subrange(0, i as int).lemma_push_to_set_commute(users@[i as int]); }
        assert(users@.subrange(0, i + 1).to_set() =~= users@.subrange(0, i as int).to_set().insert(users@[i as int]));
        proof { lemma_guild_keys_insert(g.0, users@.subrange(0, i as int).to_set(), users@[i as int]); }
        assert(m@ =~= m0.remove_keys(guild_keys(g.0, users@.subrange(0, i + 1).to_set())));
        i = i + 1;
    }
    assert(users@.subrange(0, i as int) =~= users@);
}

/// The mathematical view of a map from keys to sets.
pub open spec fn sets_view<T>(m: Map<u64, HashSet<T>>) -> Map<u64, Set<T>> {
    m.map_values(|s: HashSet<T>| s@)
}

/// The set under key `k`, empty when there is none.
pub open spec fn set_at<T>(m: Map<u64, Set<T>>, k: u64) -> Set<T> {
    if m.contains_key(k) {
        m[k]
    } else {
        Set::empty()
    }
}

/// Adds `x` to the set under `k`, creating that set if needed.
pub open spec fn set_map_add<T>(m: Map<u64, Set<T>>, k: u64, x: T) -> Map<u64, Set<T>> {
    m.insert(k, set_at(m, k).insert(x))
}

/// Removes `x` from the set under `k`, if there is one; the key stays.
pub open spec fn set_map_remove<T>(m: Map<u64, Set<T>>, k: u64, x: T) -> Map<u64, Set<T>> {
    if m.contains_key(k) {
        m.insert(k, m[k].remove(x))
    } else {
        m
    }
}

/// Removes `x` from the set under `k`, and the key with it once its set is empty.
pub open spec fn set_map_remove_prune<T>(m: Map<u64, Set<T>>, k: u64, x: T) -> Map<u64, Set<T>> {
    if m.contains_key(k) {
        if m[k].remove(x).is_empty() {
            m.remove(k)
        } else {
            m.insert(k, m[k].remove(x))
        }
    } else {
        m
    }
}

/// Puts an empty set under `k`, if `k` has none.
pub fn index_ensure(m: &mut HashMap<u64, HashSet<u64>>, k: u64)
    ensures
        sets_view(final(m)@) == (if sets_view(old(m)@).contains_key(k) {
            sets_view(old(m)@)
        } else {
            sets_view(old(m)@).insert(k, Set::empty())
        }),
{
    if !m.contains_key(&k) {
        m.insert(k, HashSet::new());
        assert(sets_view(m@) =~= sets_view(old(m)@).insert(k, Set::empty()));
    }
}

/// Adds `x` to the set under `k`, creating that set if needed.
pub fn index_add(m: &mut HashMap<u64, HashSet<u64>>, k: u64, x: u64)
    ensures
        sets_view(final(m)@) == set_map_add(sets_view(old(m)@), k, x),
{
    let mut s = match m.remove(&k) {
        Some(s) => s,
        None => HashSet::new(),
    };
    s.insert(x);
    m.insert(k, s);
    assert(sets_view(m@) =~= set_map_add(sets_view(old(m)@), k, x));
}

/// Adds `x` to the set under `k`, creating that set if needed.
pub fn pair_index_add(m: &mut HashMap<u64, HashSet<u128>>, k: u64, x: u128)
    ensures
        sets_view(final(m)@) == set_map_add(sets_view(old(m)@), k, x),
{
    let mut s = match m.remove(&k) {
        Some(s) => s,
        None => HashSet::new(),
    };
    s.insert(x);
    m.insert(k, s);
    assert(sets_view(m@) =~= set_map_add(sets_view(old(m)@), k, x));
}

/// Removes `x` from the set under `k`, keeping the key.
pub fn index_remove(m: &mut HashMap<u64, HashSet<u64>>, k: u64, x: u64)
    ensures
        sets_view(final(m)@) == set_map_remove(sets_view(old(m)@), k, x),
{
    match m.remove(&k) {
        Some(mut s) => {
            s.remove(&x);
            m.insert(k, s);
            assert(sets_view(m@) =~= set_map_remove(sets_view(old(m)@), k, x));
        },
        None => {
            assert(sets_view(m@) =~= sets_view(old(m)@));
        },
    }
}

/// Removes `x` from the set under `k`, dropping the key once its set is empty.
pub fn index_remove_prune(m: &mut HashMap<u64, HashSet<u64>>, k: u64, x: u64)
    ensures
        sets_view(final(m)@) == set_map_remove_prune(sets_view(old(m)@), k, x),
{
    match m.remove(&k) {
        Some(mut s) => {
            s.remove(&x);
            if s.is_empty() {
                assert(sets_view(m@) =~= set_map_remove_prune(sets_view(old(m)@), k, x));
            } else {
                m.insert(k, s);
                assert(sets_view(m@) =~= set_map_remove_prune(sets_view(old(m)@), k, x));
            }
        },
        None => {
            assert(sets_view(m@) =~= sets_view(old(m)@));
        },
    }
}

/// Removes `x` from the set under `k`, dropping the key once its set is empty.
pub fn pair_index_remove_prune(m: &mut HashMap<u64, HashSet<u128>>, k: u64, x: u128)
    ensures
        sets_view(final(m)@) == set_map_remove_prune(sets_view(old(m)@), k, x),
{
    match m.remove(&k) {
        Some(mut s) => {
            s.remove(&x);
            if s.is_empty() {
                assert(sets_view(m@) =~= set_map_remove_prune(sets_view(old(m)@), k, x));
            } else {
                m.insert(k, s);
                assert(sets_view(m@) =~= set_map_remove_prune(sets_view(old(m)@), k, x));
            }
        },
        None => {
            assert(sets_view(m@) =~= sets_view(old(m)@));
        },
    }
}

} // verus!
