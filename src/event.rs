//! Gateway events and their payloads.
use vstd::prelude::*;
use crate::config::EventType;
use crate::id::{ChannelId, EmojiId, GuildId, MessageId, RoleId, UserId};
use crate::model::{
    Attachment, Channel, CurrentUser, Emoji, Member, Message, Presence, ReactionType, Role, Status,
    User, UserOrId, VoiceState, Activity, CachedGuild, GuildChannel,
};
use crate::validate::Embed;

verus! {

/// A guild with every child it holds, as a guild-create event carries it.
#[derive(Clone, Debug)]
pub struct Guild {
    pub channels: Vec<GuildChannel>,
    pub emojis: Vec<Emoji>,
    pub info: CachedGuild,
    pub members: Vec<Member>,
    pub presences: Vec<Presence>,
    pub roles: Vec<Role>,
    pub voice_states: Vec<VoiceState>,
}

/// The fields of a guild that a guild-update event carries.
#[derive(Clone, Debug)]
pub struct PartialGuild {
    pub afk_channel_id: Option<ChannelId>,
    pub afk_timeout: u64,
    pub banner: Option<String>,
    pub default_message_notifications: u8,
    pub description: Option<String>,
    pub embed_channel_id: Option<ChannelId>,
    pub embed_enabled: bool,
    pub features: Vec<String>,
    pub icon: Option<String>,
    pub id: GuildId,
    pub max_members: Option<u64>,
    pub max_presences: Option<u64>,
    pub mfa_level: u8,
    pub name: String,
    pub owner: Option<bool>,
    pub owner_id: UserId,
    pub permissions: Option<u64>,
    pub preferred_locale: String,
    pub premium_subscription_count: Option<u64>,
    pub premium_tier: u8,
    pub region: String,
    pub splash: Option<String>,
    pub system_channel_id: Option<ChannelId>,
    pub vanity_url_code: Option<String>,
    pub verification_level: u8,
    pub widget_channel_id: Option<ChannelId>,
    pub widget_enabled: Option<bool>,
}

/// A guild that is offline.
#[derive(Clone, Copy, Debug, PartialEq, Eq, Structural)]
pub struct UnavailableGuild {
    pub id: GuildId,
}

/// A guild listed by a ready event: online with its data, or offline.
#[derive(Clone, Debug)]
pub enum GuildStatus {
    Offline(UnavailableGuild),
    Online(Guild),
}

/// A member joined a guild.
#[derive(Clone, Debug)]
pub struct MemberAdd(pub Member);

/// A page of a guild's member list.
#[derive(Clone, Debug)]
pub struct MemberChunk {
    pub guild_id: GuildId,
    pub members: Vec<Member>,
}

/// A member left a guild.
#[derive(Clone, Debug)]
pub struct MemberRemove {
    pub guild_id: GuildId,
    pub user: User,
}

/// A member's nickname or roles changed.
#[derive(Clone, Debug)]
pub struct MemberUpdate {
    pub guild_id: GuildId,
    pub nick: Option<String>,
    pub roles: Vec<RoleId>,
    pub user: User,
}

/// The pins of a channel changed.
#[derive(Clone, Debug)]
pub struct ChannelPinsUpdate {
    pub channel_id: ChannelId,
    pub guild_id: Option<GuildId>,
    pub last_pin_timestamp: Option<String>,
}

/// A guild was deleted, or the client left it.
#[derive(Clone, Copy, Debug, PartialEq, Eq, Structural)]
pub struct GuildDelete {
    pub id: GuildId,
    pub unavailable: bool,
}

/// The emoji list of a guild changed.
#[derive(Clone, Debug)]
pub struct GuildEmojisUpdate {
    pub emojis: Vec<Emoji>,
    pub guild_id: GuildId,
}

/// A message was deleted.
#[derive(Clone, Copy, Debug, PartialEq, Eq, Structural)]
pub struct MessageDelete {
    pub channel_id: ChannelId,
    pub id: MessageId,
}

/// Several messages of one channel were deleted.
#[derive(Clone, Debug)]
pub struct MessageDeleteBulk {
    pub channel_id: ChannelId,
    pub ids: Vec<MessageId>,
}

/// A message was edited; absent fields did not change.
#[derive(Clone, Debug)]
pub struct MessageUpdate {
    pub attachments: Option<Vec<Attachment>>,
    pub channel_id: ChannelId,
    pub content: Option<String>,
    pub edited_timestamp: Option<String>,
    pub embeds: Option<Vec<Embed>>,
    pub id: MessageId,
    pub mention_everyone: Option<bool>,
    pub mention_roles: Option<Vec<RoleId>>,
    pub mentions: Option<Vec<User>>,
    pub pinned: Option<bool>,
    pub timestamp: Option<String>,
    pub tts: Option<bool>,
}

/// A user's presence in a guild changed.
#[derive(Clone, Debug)]
pub struct PresenceUpdate {
    pub activities: Vec<Activity>,
    pub guild_id: GuildId,
    pub nick: Option<String>,
    pub status: Status,
    pub user: UserOrId,
}

/// A user reacted to a message, or took a reaction back.
#[derive(Clone, Debug)]
pub struct Reaction {
    pub channel_id: ChannelId,
    pub emoji: ReactionType,
    pub guild_id: Option<GuildId>,
    pub message_id: MessageId,
    pub user_id: UserId,
}

/// Every reaction was removed from a message.
#[derive(Clone, Copy, Debug, PartialEq, Eq, Structural)]
pub struct ReactionRemoveAll {
    pub channel_id: ChannelId,
    pub guild_id: Option<GuildId>,
    pub message_id: MessageId,
}

/// The session is ready: the client's user and its guilds.
#[derive(Clone, Debug)]
pub struct Ready {
    /// The client's guilds, each listed once; they are taken in order, so
    /// should a guild appear twice its later status is the one that holds.
    pub guilds: Vec<GuildStatus>,
    pub session_id: String,
    pub user: CurrentUser,
}

/// A role was created or updated.
#[derive(Clone, Debug)]
pub struct RoleUpsert {
    pub guild_id: GuildId,
    pub role: Role,
}

/// A role was deleted.
#[derive(Clone, Copy, Debug, PartialEq, Eq, Structural)]
pub struct RoleDelete {
    pub guild_id: GuildId,
    pub role_id: RoleId,
}

/// A voice state changed.
#[derive(Clone, Debug)]
pub struct VoiceStateUpdate(pub VoiceState);

/// The webhooks of a channel changed.
#[derive(Clone, Copy, Debug, PartialEq, Eq, Structural)]
pub struct WebhooksUpdate {
    pub channel_id: ChannelId,
    pub guild_id: GuildId,
}

/// An event from the gateway.
#[derive(Clone, Debug)]
pub enum Event {
    BanAdd(GuildId, UserId),
    BanRemove(GuildId, UserId),
    ChannelCreate(Channel),
    ChannelDelete(Channel),
    ChannelPinsUpdate(ChannelPinsUpdate),
    ChannelUpdate(Channel),
    GatewayHeartbeat(u64),
    GatewayHeartbeatAck,
    GatewayHello(u64),
    GatewayInvalidateSession(bool),
    GatewayReconnect,
    GiftCodeUpdate,
    GuildCreate(Guild),
    GuildDelete(GuildDelete),
    GuildEmojisUpdate(GuildEmojisUpdate),
    GuildIntegrationsUpdate(GuildId),
    GuildUpdate(PartialGuild),
    InviteCreate(ChannelId),
    InviteDelete(ChannelId),
    MemberAdd(MemberAdd),
    MemberChunk(MemberChunk),
    MemberRemove(MemberRemove),
    MemberUpdate(MemberUpdate),
    MessageCreate(Message),
    MessageDelete(MessageDelete),
    MessageDeleteBulk(MessageDeleteBulk),
    MessageUpdate(MessageUpdate),
    PresenceUpdate(PresenceUpdate),
    PresencesReplace,
    ReactionAdd(Reaction),
    ReactionRemove(Reaction),
    ReactionRemoveAll(ReactionRemoveAll),
    ReactionRemoveEmoji(ChannelId, MessageId),
    Ready(Ready),
    Resumed,
    RoleCreate(RoleUpsert),
    RoleDelete(RoleDelete),
    RoleUpdate(RoleUpsert),
    ShardConnected(u64),
    ShardConnecting(u64),
    ShardDisconnected(u64),
    ShardIdentifying(u64),
    ShardReconnecting(u64),
    ShardResuming(u64),
    TypingStart(ChannelId, UserId),
    UnavailableGuild(UnavailableGuild),
    UserUpdate(CurrentUser),
    VoiceServerUpdate(GuildId),
    VoiceStateUpdate(VoiceStateUpdate),
    WebhooksUpdate(WebhooksUpdate),
}

} // verus!
