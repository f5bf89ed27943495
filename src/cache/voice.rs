//! The voice-state coordinator: join, move and leave.
use vstd::prelude::*;
use std::sync::Arc;
use crate::cache::{CacheView, InMemoryCache, unshare};
use crate::id::{guild_user_key, lemma_pair_key_injective, pair_key, GuildId, UserId};
use crate::index::{
    pair_index_add, pair_index_remove_prune, index_add, index_remove_prune, sets_view,
    set_map_add, set_map_remove_prune,
};
use crate::model::VoiceState;

verus! {

broadcast use vstd::std_specs::hash::group_hash_axioms;

impl CacheView {
    /// The channel index after the (guild, user) pair under `k` leaves the
    /// channel it is recorded in, if any.
    pub open spec fn voice_channels_without(self, k: u128) -> Map<u64, Set<u128>> {
        if self.voice_states.contains_key(k) && self.voice_states[k].channel_id is Some {
            set_map_remove_prune(self.voice_state_channels, (self.voice_states[k].channel_id->0).0, k)
        } else {
            self.voice_state_channels
        }
    }

    /// The cache after user `u` leaves voice in guild `g`.
    pub open spec fn voice_left(self, g: u64, u: u64) -> CacheView {
        let k = pair_key(g, u);
        CacheView {
            voice_state_channels: self.voice_channels_without(k),
            voice_state_guilds: set_map_remove_prune(self.voice_state_guilds, g, u),
            voice_states: self.voice_states.remove(k),
            ..self
        }
    }

    /// The cache after a voice state arrives. A state without a guild is
    /// ignored; one without a channel means that the user left voice in that
    /// guild; one with a channel is a join, a move or a refresh.
    pub open spec fn voice_state_update(self, vs: VoiceState) -> CacheView {
        match vs.guild_id {
            None => self,
            Some(g) => {
                let k = pair_key(g.0, vs.user_id.0);
                let channels = self.voice_channels_without(k);
                match vs.channel_id {
                    None => self.voice_left(g.0, vs.user_id.0),
                    Some(c) => CacheView {
                        voice_state_channels: set_map_add(channels, c.0, k),
                        voice_state_guilds: set_map_add(self.voice_state_guilds, g.0, vs.user_id.0),
                        voice_states: self.voice_states.insert(k, vs),
                        ..self
                    },
                }
            },
        }
    }
}

/// Every (guild, user) pair that has the composite key of `(g, u)` is `(g, u)`.
pub proof fn lemma_key_only(g: u64, u: u64)
    ensures
        forall|g2: u64, u2: u64| #[trigger] pair_key(g2, u2) == pair_key(g, u) ==> g2 == g && u2 == u,
{
    assert forall|g2: u64, u2: u64| #[trigger] pair_key(g2, u2) == pair_key(g, u) implies g2 == g && u2 == u by {
        lemma_pair_key_injective(g2, u2, g, u);
    }
}

/// A user leaving voice keeps the cache consistent.
pub proof fn lemma_voice_left_wf(s: CacheView, g: u64, u: u64)
    requires
        s.wf(),
    ensures
        s.voice_left(g, u).wf(),
{
    let vs = VoiceState {
        channel_id: None,
        guild_id: Some(GuildId(g)),
        user_id: UserId(u),
        ..arbitrary::<VoiceState>()
    };
    lemma_voice_state_update_wf(s, vs);
    assert(s.voice_state_update(vs) == s.voice_left(g, u));
}

/// A voice-state update keeps the cache consistent.
pub proof fn lemma_voice_state_update_wf(s: CacheView, vs: VoiceState)
    requires
        s.wf(),
    ensures
        s.voice_state_update(vs).wf(),
{
    if let Some(g) = vs.guild_id {
        let u = vs.user_id.0;
        let k = pair_key(g.0, u);
        lemma_key_only(g.0, u);
        let t = s.voice_state_update(vs);
        let ch = s.voice_channels_without(k);
        assert forall|c: u64| #[trigger] ch.contains_key(c) implies {
            &&& !ch[c].is_empty()
            &&& forall|k2: u128| #[trigger] ch[c].contains(k2) ==> k2 != k && s.voice_states.contains_key(k2)
                && s.voice_states[k2].channel_id == Some(crate::id::ChannelId(c))
        } by {
            if s.voice_states.contains_key(k) && s.voice_states[k].channel_id is Some {
                let c0 = (s.voice_states[k].channel_id->0).0;
                assert(s.voice_state_channels[c0].contains(k));
                if c != c0 {
                    assert(s.voice_state_channels[c].contains(k) ==> s.voice_states[k].channel_id == Some(crate::id::ChannelId(c)));
                }
            } else {
                assert(!s.voice_state_channels[c].contains(k));
            }
        }
        assert(t.voice_indexed());
    }
}

impl InMemoryCache {
    /// Records a voice state, moving the user between channels or removing
    /// the user from voice as the state says. Returns the state now held for
    /// the user, or the state that was removed when the user left.
    pub fn cache_voice_state(&mut self, vs: VoiceState) -> (r: Option<Arc<VoiceState>>)
        ensures
            final(self)@ == old(self)@.voice_state_update(vs),
            vs.guild_id is None ==> r is None,
            vs.guild_id is Some && vs.channel_id is Some ==> (r matches Some(x) && *x == vs),
            vs.guild_id is Some && vs.channel_id is None ==> match r {
                Some(x) => old(self)@.voice_states.contains_key(pair_key((vs.guild_id->0).0, vs.user_id.0))
                    && *x == old(self)@.voice_states[pair_key((vs.guild_id->0).0, vs.user_id.0)],
                None => !old(self)@.voice_states.contains_key(pair_key((vs.guild_id->0).0, vs.user_id.0)),
            },
    {
        let guild_id = match vs.guild_id {
            Some(id) => id,
            None => return None,
        };
        let user_id = vs.user_id;
        let k = guild_user_key(guild_id, user_id);
        let ghost s0 = self@;
        let old_channel = match self.voice_states.get(&k) {
            Some(state) => state.channel_id,
            None => None,
        };
        if let Some(channel_id) = old_channel {
            pair_index_remove_prune(&mut self.voice_state_channels, channel_id.0, k);
        }
        assert(sets_view(self.voice_state_channels@) == s0.voice_channels_without(k));
        match vs.channel_id {
            None => {
                index_remove_prune(&mut self.voice_state_guilds, guild_id.0, user_id.0);
                let removed = self.voice_states.remove(&k);
                assert(unshare(self.voice_states@) =~= s0.voice_states.remove(k));
                removed
            },
            Some(channel_id) => {
                let state = Arc::new(vs);
                let stored = crate::cache::share(&state);
                self.voice_states.insert(k, stored);
                assert(unshare(self.voice_states@) =~= s0.voice_states.insert(k, vs));
                index_add(&mut self.voice_state_guilds, guild_id.0, user_id.0);
                pair_index_add(&mut self.voice_state_channels, channel_id.0, k);
                Some(state)
            },
        }
    }
}

} // verus!
