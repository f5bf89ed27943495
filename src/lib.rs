//! An in-process cache of chat-platform state, driven by gateway events.
//!
//! The cache keeps guilds, channels, roles, emojis, members, presences,
//! messages and voice states in a set of mutually consistent indices.
//! Every update is stated as a transition of the cache's mathematical view
//! (`cache::CacheView`), and every transition keeps the consistency
//! invariant `CacheView::wf`.
//!
//! - `id`: identifier newtypes and the composite (guild, user) key.
//! - `model`: entity records, and their structural comparison.
//! - `config`: event categories and per-channel message limits.
//! - `event`: gateway events and their payloads.
//! - `index`: maps from identifiers to identifier sets.
//! - `cache`: the cache itself, its handlers, queries and laws.
//! - `validate`: limits on names, page sizes and embeds.
use vstd::prelude::*;

pub mod cache;
pub mod config;
pub mod event;
pub mod id;
pub mod index;
pub mod model;
pub mod validate;

verus! {

} // verus!
