//! Event dispatch, the event-category filter, and the invariant of the
//! cache over every sequence of events.
use vstd::prelude::*;
use crate::cache::{CacheView, InMemoryCache};
use crate::cache::channels::{lemma_channel_events_wf, lemma_channel_pins_updated_wf, lemma_emojis_cached_wf, lemma_role_events_wf};
use crate::cache::guilds::{
    lemma_guild_created_wf, lemma_guild_deleted_wf, lemma_guild_misc_wf,
    lemma_guild_statuses_cached_wf, lemma_members_cached_wf,
};
use crate::cache::members::{lemma_member_cached_wf, lemma_member_removed_wf, lemma_member_updated_wf, lemma_presence_cached_wf};
use crate::cache::messages::{
    lemma_message_created_wf, lemma_message_updated_wf, lemma_messages_deleted_wf,
    lemma_reactions_changed_wf,
};
use crate::cache::voice::lemma_voice_state_update_wf;
use crate::config::EventType;
use crate::event::{Event, PresenceUpdate};
use crate::model::Presence;

verus! {

/// The category that decides whether an event is processed; events that
/// carry nothing to cache have none.
pub open spec fn event_category(e: Event) -> Option<EventType> {
    match e {
        Event::ChannelCreate(_) => Some(EventType::CHANNEL_CREATE),
        Event::ChannelDelete(_) => Some(EventType::CHANNEL_DELETE),
        Event::ChannelPinsUpdate(_) => Some(EventType::CHANNEL_UPDATE),
        Event::ChannelUpdate(_) => Some(EventType::CHANNEL_UPDATE),
        Event::GuildCreate(_) => Some(EventType::GUILD_CREATE),
        Event::GuildDelete(_) => Some(EventType::GUILD_DELETE),
        Event::GuildEmojisUpdate(_) => Some(EventType::GUILD_EMOJIS_UPDATE),
        Event::GuildUpdate(_) => Some(EventType::GUILD_UPDATE),
        Event::MemberAdd(_) => Some(EventType::MEMBER_ADD),
        Event::MemberChunk(_) => Some(EventType::MEMBER_CHUNK),
        Event::MemberRemove(_) => Some(EventType::MEMBER_REMOVE),
        Event::MemberUpdate(_) => Some(EventType::MEMBER_UPDATE),
        Event::MessageCreate(_) => Some(EventType::MESSAGE_CREATE),
        Event::MessageDelete(_) => Some(EventType::MESSAGE_DELETE),
        Event::MessageDeleteBulk(_) => Some(EventType::MESSAGE_DELETE_BULK),
        Event::MessageUpdate(_) => Some(EventType::MESSAGE_UPDATE),
        Event::PresenceUpdate(_) => Some(EventType::PRESENCE_UPDATE),
        Event::ReactionAdd(_) => Some(EventType::REACTION_ADD),
        Event::ReactionRemove(_) => Some(EventType::REACTION_REMOVE),
        Event::ReactionRemoveAll(_) => Some(EventType::REACTION_REMOVE_ALL),
        Event::Ready(_) => Some(EventType::READY),
        Event::RoleCreate(_) => Some(EventType::ROLE_CREATE),
        Event::RoleDelete(_) => Some(EventType::ROLE_DELETE),
        Event::RoleUpdate(_) => Some(EventType::ROLE_UPDATE),
        Event::UnavailableGuild(_) => Some(EventType::UNAVAILABLE_GUILD),
        Event::UserUpdate(_) => Some(EventType::USER_UPDATE),
        Event::VoiceStateUpdate(_) => Some(EventType::VOICE_STATE_UPDATE),
        _ => None,
    }
}

/// The presence that a presence update carries.
pub open spec fn presence_of(p: PresenceUpdate) -> Presence {
    Presence {
        activities: p.activities,
        guild_id: Some(p.guild_id),
        nick: p.nick,
        status: p.status,
        user: p.user,
    }
}

impl CacheView {
    /// Whether `t` is the cache after event `e` takes effect.
    pub open spec fn event_effect(self, t: CacheView, e: Event) -> bool {
        match e {
            Event::ChannelCreate(c) => t == self.channel_cached(c),
            Event::ChannelDelete(c) => t == self.channel_deleted(c),
            Event::ChannelPinsUpdate(p) => self.channel_pins_updated(t, p.channel_id.0, p.last_pin_timestamp),
            Event::ChannelUpdate(c) => t == self.channel_cached(c),
            Event::GuildCreate(gd) => t == self.guild_created(gd),
            Event::GuildDelete(d) => self.guild_deleted(t, d.id),
            Event::GuildEmojisUpdate(u) => t == self.emojis_cached(u.guild_id, u.emojis@),
            Event::GuildUpdate(pg) => t == self.guild_updated(pg),
            Event::MemberAdd(m) => t == self.member_cached(m.0.guild_id, m.0),
            Event::MemberChunk(c) => t == self.members_cached(c.guild_id, c.members@),
            Event::MemberRemove(r) => t == self.member_removed(r.guild_id, r.user.id),
            Event::MemberUpdate(u) => t == self.member_updated(u.guild_id, u.user.id, u.nick, u.roles),
            Event::MessageCreate(m) => self.message_created(t, m),
            Event::MessageDelete(d) => t == self.messages_deleted(d.channel_id.0, seq![d.id]),
            Event::MessageDeleteBulk(d) => t == self.messages_deleted(d.channel_id.0, d.ids@),
            Event::MessageUpdate(u) => self.message_updated(t, u),
            Event::PresenceUpdate(p) => t == self.presence_cached(p.guild_id, presence_of(p)),
            Event::ReactionAdd(r) => self.reaction_added_to(t, r),
            Event::ReactionRemove(r) => self.reaction_removed_from(t, r),
            Event::ReactionRemoveAll(r) => self.reactions_cleared(t, r.channel_id, r.message_id),
            Event::Ready(r) => t == self.current_user_cached(r.user).guild_statuses_cached(r.guilds@),
            Event::RoleCreate(r) => t == self.role_cached(r.guild_id, r.role),
            Event::RoleDelete(r) => t == self.role_deleted(r.role_id.0),
            Event::RoleUpdate(r) => t == self.role_cached(r.guild_id, r.role),
            Event::UnavailableGuild(u) => t == self.guild_unavailable(u.id.0),
            Event::UserUpdate(cu) => t == self.current_user_cached(cu),
            Event::VoiceStateUpdate(v) => t == self.voice_state_update(v.0),
            _ => t == self,
        }
    }

    /// Whether `t` is the cache after event `e` arrives: an event whose
    /// category is not enabled changes nothing.
    pub open spec fn event_applied(self, t: CacheView, e: Event) -> bool {
        match event_category(e) {
            Some(cat) => if self.config.event_types.spec_contains(cat) {
                self.event_effect(t, e)
            } else {
                t == self
            },
            None => self.event_effect(t, e),
        }
    }
}

/// Every event keeps the cache consistent: the invariant holds in every
/// state reached from a consistent one.
pub proof fn lemma_event_applied_wf(s: CacheView, t: CacheView, e: Event)
    requires
        s.wf(),
        s.event_applied(t, e),
    ensures
        t.wf(),
{
    if t != s {
        match e {
            Event::ChannelCreate(c) => lemma_channel_events_wf(s, c),
            Event::ChannelDelete(c) => lemma_channel_events_wf(s, c),
            Event::ChannelPinsUpdate(p) => lemma_channel_pins_updated_wf(s, t, p.channel_id.0, p.last_pin_timestamp),
            Event::ChannelUpdate(c) => lemma_channel_events_wf(s, c),
            Event::GuildCreate(gd) => lemma_guild_created_wf(s, gd),
            Event::GuildDelete(d) => lemma_guild_deleted_wf(s, t, d.id),
            Event::GuildEmojisUpdate(u) => lemma_emojis_cached_wf(s, u.guild_id, u.emojis@),
            Event::GuildUpdate(pg) => lemma_guild_misc_wf(s, pg, 0, arbitrary()),
            Event::MemberAdd(m) => lemma_member_cached_wf(s, m.0.guild_id, m.0),
            Event::MemberChunk(c) => lemma_members_cached_wf(s, c.guild_id, c.members@),
            Event::MemberRemove(r) => lemma_member_removed_wf(s, r.guild_id, r.user.id),
            Event::MemberUpdate(u) => lemma_member_updated_wf(s, u.guild_id, u.user.id, u.nick, u.roles),
            Event::MessageCreate(m) => lemma_message_created_wf(s, t, m),
            Event::MessageDelete(d) => lemma_messages_deleted_wf(s, d.channel_id.0, seq![d.id]),
            Event::MessageDeleteBulk(d) => lemma_messages_deleted_wf(s, d.channel_id.0, d.ids@),
            Event::MessageUpdate(u) => lemma_message_updated_wf(s, t, u),
            Event::PresenceUpdate(p) => lemma_presence_cached_wf(s, p.guild_id, presence_of(p)),
            Event::ReactionAdd(r) => {
                let me = s.is_me(r.user_id);
                lemma_reactions_changed_wf(s, t, r.channel_id, r.message_id,
                    |rs: Seq<crate::model::MessageReaction>, nr: Seq<crate::model::MessageReaction>|
                        crate::cache::messages::reaction_added(rs, nr, r.emoji, me));
            },
            Event::ReactionRemove(r) => {
                let me = s.is_me(r.user_id);
                lemma_reactions_changed_wf(s, t, r.channel_id, r.message_id,
                    |rs: Seq<crate::model::MessageReaction>, nr: Seq<crate::model::MessageReaction>|
                        crate::cache::messages::reaction_removed(rs, nr, r.emoji, me));
            },
            Event::ReactionRemoveAll(r) => {
                lemma_reactions_changed_wf(s, t, r.channel_id, r.message_id,
                    |rs: Seq<crate::model::MessageReaction>, nr: Seq<crate::model::MessageReaction>| nr.len() == 0);
            },
            Event::Ready(r) => {
                lemma_guild_misc_wf(s, arbitrary(), 0, r.user);
                lemma_guild_statuses_cached_wf(s.current_user_cached(r.user), r.guilds@);
            },
            Event::RoleCreate(r) => lemma_role_events_wf(s, r.guild_id, r.role, 0),
            Event::RoleDelete(r) => lemma_role_events_wf(s, r.guild_id, arbitrary(), r.role_id.0),
            Event::RoleUpdate(r) => lemma_role_events_wf(s, r.guild_id, r.role, 0),
            Event::UnavailableGuild(u) => lemma_guild_misc_wf(s, arbitrary(), u.id.0, arbitrary()),
            Event::UserUpdate(cu) => lemma_guild_misc_wf(s, arbitrary(), 0, cu),
            Event::VoiceStateUpdate(v) => lemma_voice_state_update_wf(s, v.0),
            _ => {},
        }
    }
}

impl InMemoryCache {
    /// Returns whether events of category `t` are processed.
    fn wants(&self, t: EventType) -> (r: bool)
        ensures
            r == self@.config.event_types.spec_contains(t),
    {
        self.config.event_types.contains(t)
    }

    /// Updates the cache with an event. Events whose category is not
    /// enabled, and events that carry nothing to cache, change nothing.
    pub fn update(&mut self, event: Event)
        ensures
            old(self)@.event_applied(final(self)@, event),
            old(self).wf() ==> final(self).wf(),
    {
        let ghost s0 = self@;
        let ghost e = event;
        match event {
            Event::ChannelCreate(c) => {
                if self.wants(EventType::CHANNEL_CREATE) {
                    self.cache_channel(c);
                }
            },
            Event::ChannelDelete(c) => {
                if self.wants(EventType::CHANNEL_DELETE) {
                    self.delete_channel(&c);
                }
            },
            Event::ChannelPinsUpdate(p) => {
                if self.wants(EventType::CHANNEL_UPDATE) {
                    self.update_channel_pins(p.channel_id, p.last_pin_timestamp);
                }
            },
            Event::ChannelUpdate(c) => {
                if self.wants(EventType::CHANNEL_UPDATE) {
                    self.cache_channel(c);
                }
            },
            Event::GuildCreate(gd) => {
                if self.wants(EventType::GUILD_CREATE) {
                    self.cache_guild(gd);
                }
            },
            Event::GuildDelete(d) => {
                if self.wants(EventType::GUILD_DELETE) {
                    self.delete_guild(d.id);
                }
            },
            Event::GuildEmojisUpdate(u) => {
                if self.wants(EventType::GUILD_EMOJIS_UPDATE) {
                    self.cache_emojis(u.guild_id, u.emojis);
                }
            },
            Event::GuildUpdate(pg) => {
                if self.wants(EventType::GUILD_UPDATE) {
                    self.update_guild(pg);
                }
            },
            Event::MemberAdd(m) => {
                if self.wants(EventType::MEMBER_ADD) {
                    let g = m.0.guild_id;
                    self.cache_member(g, m.0);
                }
            },
            Event::MemberChunk(c) => {
                if self.wants(EventType::MEMBER_CHUNK) {
                    self.cache_members(c.guild_id, c.members);
                }
            },
            Event::MemberRemove(r) => {
                if self.wants(EventType::MEMBER_REMOVE) {
                    self.remove_member(r.guild_id, r.user.id);
                }
            },
            Event::MemberUpdate(u) => {
                if self.wants(EventType::MEMBER_UPDATE) {
                    self.update_member(u.guild_id, u.user.id, u.nick, u.roles);
                }
            },
            Event::MessageCreate(m) => {
                if self.wants(EventType::MESSAGE_CREATE) {
                    self.cache_message(m);
                }
            },
            Event::MessageDelete(d) => {
                if self.wants(EventType::MESSAGE_DELETE) {
                    self.delete_message(d.channel_id, d.id);
                }
            },
            Event::MessageDeleteBulk(d) => {
                if self.wants(EventType::MESSAGE_DELETE_BULK) {
                    self.delete_messages(d.channel_id, &d.ids);
                }
            },
            Event::MessageUpdate(u) => {
                if self.wants(EventType::MESSAGE_UPDATE) {
                    self.update_message(u);
                }
            },
            Event::PresenceUpdate(p) => {
                if self.wants(EventType::PRESENCE_UPDATE) {
                    let PresenceUpdate { activities, guild_id, nick, status, user } = p;
                    let presence = Presence { activities, guild_id: Some(guild_id), nick, status, user };
                    self.cache_presence(guild_id, presence);
                }
            },
            Event::ReactionAdd(r) => {
                if self.wants(EventType::REACTION_ADD) {
                    self.add_reaction(r);
                }
            },
            Event::ReactionRemove(r) => {
                if self.wants(EventType::REACTION_REMOVE) {
                    self.remove_reaction(&r);
                }
            },
            Event::ReactionRemoveAll(r) => {
                if self.wants(EventType::REACTION_REMOVE_ALL) {
                    self.clear_reactions(r.channel_id, r.message_id);
                }
            },
            Event::Ready(r) => {
                if self.wants(EventType::READY) {
                    self.cache_current_user(r.user);
                    self.cache_guild_statuses(r.guilds);
                }
            },
            Event::RoleCreate(r) => {
                if self.wants(EventType::ROLE_CREATE) {
                    self.cache_role(r.guild_id, r.role);
                }
            },
            Event::RoleDelete(r) => {
                if self.wants(EventType::ROLE_DELETE) {
                    self.delete_role(r.role_id);
                }
            },
            Event::RoleUpdate(r) => {
                if self.wants(EventType::ROLE_UPDATE) {
                    self.cache_role(r.guild_id, r.role);
                }
            },
            Event::UnavailableGuild(u) => {
                if self.wants(EventType::UNAVAILABLE_GUILD) {
                    self.unavailable_guild(u.id);
                }
            },
            Event::UserUpdate(cu) => {
                if self.wants(EventType::USER_UPDATE) {
                    self.cache_current_user(cu);
                }
            },
            Event::VoiceStateUpdate(v) => {
                if self.wants(EventType::VOICE_STATE_UPDATE) {
                    self.cache_voice_state(v.0);
                }
            },
            _ => {},
        }
        proof {
            if s0.wf() {
                lemma_event_applied_wf(s0, self@, e);
            }
        }
    }
}

} // verus!
