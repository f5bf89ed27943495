//! Entity records held by the cache and the payloads that events carry.
//!
//! Records are immutable snapshots: an update replaces a whole record.
use vstd::prelude::*;
use crate::id::{ChannelId, EmojiId, GuildId, MessageId, RoleId, UserId};
use crate::validate::{Embed, EmbedAuthor, EmbedField, EmbedFooter};

verus! {

/// Structural comparison of two records, used to leave an unchanged record
/// (and the handle that holds it) in place.
pub trait Snapshot: Sized {
    /// Whether the two records hold the same data.
    spec fn same(&self, other: &Self) -> bool;

    /// Every record holds the same data as itself.
    proof fn lemma_same_refl(&self)
        ensures
            self.same(self),
    ;

    /// Returns whether the two records hold the same data.
    fn same_as(&self, other: &Self) -> (r: bool)
        ensures
            r == self.same(other),
    ;
}

/// A copy of a record that holds the same data.
pub trait Duplicate: Snapshot {
    /// Returns a copy holding the same data.
    fn duplicate(&self) -> (r: Self)
        ensures
            r.same(self),
    ;
}

impl Snapshot for String {
    open spec fn same(&self, other: &Self) -> bool {
        self@ == other@
    }

    proof fn lemma_same_refl(&self) {
    }

    fn same_as(&self, other: &Self) -> (r: bool) {
        *self == *other
    }
}

impl Snapshot for RoleId {
    open spec fn same(&self, other: &Self) -> bool {
        *self == *other
    }

    proof fn lemma_same_refl(&self) {
    }

    fn same_as(&self, other: &Self) -> (r: bool) {
        *self == *other
    }
}

impl Snapshot for UserId {
    open spec fn same(&self, other: &Self) -> bool {
        *self == *other
    }

    proof fn lemma_same_refl(&self) {
    }

    fn same_as(&self, other: &Self) -> (r: bool) {
        *self == *other
    }
}

impl<T: Snapshot> Snapshot for Option<T> {
    open spec fn same(&self, other: &Self) -> bool {
        match (self, other) {
            (Some(a), Some(b)) => a.same(b),
            (None, None) => true,
            _ => false,
        }
    }

    proof fn lemma_same_refl(&self) {
        if let Some(a) = self {
            a.lemma_same_refl();
        }
    }

    fn same_as(&self, other: &Self) -> (r: bool) {
        match (self, other) {
            (Some(a), Some(b)) => a.same_as(b),
            (None, None) => true,
            _ => false,
        }
    }
}

impl Duplicate for String {
    fn duplicate(&self) -> (r: Self) {
        self.clone()
    }
}

impl Duplicate for RoleId {
    fn duplicate(&self) -> (r: Self) {
        *self
    }
}

impl Duplicate for UserId {
    fn duplicate(&self) -> (r: Self) {
        *self
    }
}

impl<T: Duplicate> Duplicate for Option<T> {
    fn duplicate(&self) -> (r: Self) {
        match self {
            Some(a) => Some(a.duplicate()),
            None => None,
        }
    }
}

impl<T: Snapshot> Snapshot for Vec<T> {
    open spec fn same(&self, other: &Self) -> bool {
        &&& self@.len() == other@.len()
        &&& forall|i: int| 0 <= i < self@.len() ==> (#[trigger] self@[i]).same(&other@[i])
    }

    proof fn lemma_same_refl(&self) {
        assert forall|i: int| 0 <= i < self@.len() implies (#[trigger] self@[i]).same(&self@[i]) by {
            self@[i].lemma_same_refl();
        }
    }

    fn same_as(&self, other: &Self) -> (r: bool) {
        if self.len() != other.len() {
            return false;
        }
        let mut i: usize = 0;
        while i < self.len()
            invariant
                self@.len() == other@.len(),
                i <= self@.len(),
                forall|j: int| 0 <= j < i ==> (#[trigger] self@[j]).same(&other@[j]),
            decreases self@.len() - i,
        {
            if !self[i].same_as(&other[i]) {
                return false;
            }
            i = i + 1;
        }
        true
    }
}

impl<T: Duplicate> Duplicate for Vec<T> {
    fn duplicate(&self) -> (r: Self) {
        let mut r: Vec<T> = Vec::new();
        let mut i: usize = 0;
        while i < self.len()
            invariant
                i <= self@.len(),
                r@.len() == i,
                forall|j: int| 0 <= j < i ==> (#[trigger] r@[j]).same(&self@[j]),
            decreases self@.len() - i,
        {
            r.push(self[i].duplicate());
            i = i + 1;
        }
        r
    }
}

/// A user account.
#[derive(Clone, Debug)]
pub struct User {
    pub avatar: Option<String>,
    pub bot: bool,
    pub discriminator: String,
    pub id: UserId,
    pub name: String,
}

impl Snapshot for User {
    open spec fn same(&self, other: &Self) -> bool {
        &&& self.avatar.same(&other.avatar)
        &&& self.bot == other.bot
        &&& self.discriminator@ == other.discriminator@
        &&& self.id == other.id
        &&& self.name@ == other.name@
    }

    proof fn lemma_same_refl(&self) {
        self.avatar.lemma_same_refl();
    }

    fn same_as(&self, other: &Self) -> (r: bool) {
        self.avatar.same_as(&other.avatar) && self.bot == other.bot
            && self.discriminator == other.discriminator && self.id == other.id
            && self.name == other.name
    }
}

/// The account the client is logged in as.
#[derive(Clone, Debug)]
pub struct CurrentUser {
    pub avatar: Option<String>,
    pub bot: bool,
    pub discriminator: String,
    pub email: Option<String>,
    pub id: UserId,
    pub mfa_enabled: bool,
    pub name: String,
    pub verified: bool,
}

/// Whether a permission overwrite targets a member or a role.
#[derive(Clone, Copy, Debug, PartialEq, Eq, Structural, Hash)]
pub enum PermissionOverwriteType {
    Member(UserId),
    Role(RoleId),
}

/// Permissions granted and denied in one channel to a member or a role.
#[derive(Clone, Copy, Debug, PartialEq, Eq, Structural, Hash)]
pub struct PermissionOverwrite {
    pub allow: u64,
    pub deny: u64,
    pub kind: PermissionOverwriteType,
}

impl Snapshot for PermissionOverwrite {
    open spec fn same(&self, other: &Self) -> bool {
        *self == *other
    }

    proof fn lemma_same_refl(&self) {
    }

    fn same_as(&self, other: &Self) -> (r: bool) {
        *self == *other
    }
}

impl Duplicate for PermissionOverwrite {
    fn duplicate(&self) -> (r: Self) {
        *self
    }
}

/// A category that groups channels of a guild.
#[derive(Clone, Debug)]
pub struct CategoryChannel {
    pub guild_id: Option<GuildId>,
    pub id: ChannelId,
    pub name: String,
    pub permission_overwrites: Vec<PermissionOverwrite>,
    pub position: i64,
}

/// A text channel of a guild.
#[derive(Clone, Debug)]
pub struct TextChannel {
    pub guild_id: Option<GuildId>,
    pub id: ChannelId,
    pub last_message_id: Option<MessageId>,
    pub last_pin_timestamp: Option<String>,
    pub name: String,
    pub nsfw: bool,
    pub parent_id: Option<ChannelId>,
    pub permission_overwrites: Vec<PermissionOverwrite>,
    pub position: i64,
    pub rate_limit_per_user: Option<u64>,
    pub topic: Option<String>,
}

/// A voice channel of a guild.
#[derive(Clone, Debug)]
pub struct VoiceChannel {
    pub bitrate: u64,
    pub guild_id: Option<GuildId>,
    pub id: ChannelId,
    pub name: String,
    pub parent_id: Option<ChannelId>,
    pub permission_overwrites: Vec<PermissionOverwrite>,
    pub position: i64,
    pub user_limit: Option<u64>,
}

/// A channel of a guild, of one of three kinds.
#[derive(Clone, Debug)]
pub enum GuildChannel {
    Category(CategoryChannel),
    Text(TextChannel),
    Voice(VoiceChannel),
}

impl GuildChannel {
    /// The channel's identifier.
    pub open spec fn spec_id(&self) -> ChannelId {
        match self {
            GuildChannel::Category(c) => c.id,
            GuildChannel::Text(c) => c.id,
            GuildChannel::Voice(c) => c.id,
        }
    }

    /// The guild the channel says it belongs to.
    pub open spec fn spec_guild_id(&self) -> Option<GuildId> {
        match self {
            GuildChannel::Category(c) => c.guild_id,
            GuildChannel::Text(c) => c.guild_id,
            GuildChannel::Voice(c) => c.guild_id,
        }
    }

    /// Returns the channel's identifier.
    pub fn id(&self) -> (r: ChannelId)
        ensures
            r == self.spec_id(),
    {
        match self {
            GuildChannel::Category(c) => c.id,
            GuildChannel::Text(c) => c.id,
            GuildChannel::Voice(c) => c.id,
        }
    }

    /// Returns the guild the channel says it belongs to.
    pub fn guild_id(&self) -> (r: Option<GuildId>)
        ensures
            r == self.spec_guild_id(),
    {
        match self {
            GuildChannel::Category(c) => c.guild_id,
            GuildChannel::Text(c) => c.guild_id,
            GuildChannel::Voice(c) => c.guild_id,
        }
    }

    /// The same channel, attached to guild `g`.
    pub open spec fn with_guild(self, g: GuildId) -> GuildChannel {
        match self {
            GuildChannel::Category(c) => GuildChannel::Category(CategoryChannel { guild_id: Some(g), ..c }),
            GuildChannel::Text(c) => GuildChannel::Text(TextChannel { guild_id: Some(g), ..c }),
            GuildChannel::Voice(c) => GuildChannel::Voice(VoiceChannel { guild_id: Some(g), ..c }),
        }
    }

    /// Attaches the channel to guild `g`.
    pub fn set_guild_id(&mut self, g: GuildId)
        ensures
            *final(self) == old(self).with_guild(g),
    {
        match self {
            GuildChannel::Category(c) => c.guild_id = Some(g),
            GuildChannel::Text(c) => c.guild_id = Some(g),
            GuildChannel::Voice(c) => c.guild_id = Some(g),
        }
    }
}

impl Snapshot for GuildChannel {
    open spec fn same(&self, other: &Self) -> bool {
        match (self, other) {
            (GuildChannel::Category(a), GuildChannel::Category(b)) => {
                &&& a.guild_id == b.guild_id
                &&& a.id == b.id
                &&& a.name@ == b.name@
                &&& a.permission_overwrites.same(&b.permission_overwrites)
                &&& a.position == b.position
            },
            (GuildChannel::Text(a), GuildChannel::Text(b)) => {
                &&& a.guild_id == b.guild_id
                &&& a.id == b.id
                &&& a.last_message_id == b.last_message_id
                &&& a.last_pin_timestamp.same(&b.last_pin_timestamp)
                &&& a.name@ == b.name@
                &&& a.nsfw == b.nsfw
                &&& a.parent_id == b.parent_id
                &&& a.permission_overwrites.same(&b.permission_overwrites)
                &&& a.position == b.position
                &&& a.rate_limit_per_user == b.rate_limit_per_user
                &&& a.topic.same(&b.topic)
            },
            (GuildChannel::Voice(a), GuildChannel::Voice(b)) => {
                &&& a.bitrate == b.bitrate
                &&& a.guild_id == b.guild_id
                &&& a.id == b.id
                &&& a.name@ == b.name@
                &&& a.parent_id == b.parent_id
                &&& a.permission_overwrites.same(&b.permission_overwrites)
                &&& a.position == b.position
                &&& a.user_limit == b.user_limit
            },
            _ => false,
        }
    }

    proof fn lemma_same_refl(&self) {
        match self {
            GuildChannel::Category(a) => {
                a.permission_overwrites.lemma_same_refl();
            },
            GuildChannel::Text(a) => {
                a.permission_overwrites.lemma_same_refl();
                a.last_pin_timestamp.lemma_same_refl();
                a.topic.lemma_same_refl();
            },
            GuildChannel::Voice(a) => {
                a.permission_overwrites.lemma_same_refl();
            },
        }
    }

    fn same_as(&self, other: &Self) -> (r: bool) {
        match (self, other) {
            (GuildChannel::Category(a), GuildChannel::Category(b)) => {
                a.guild_id == b.guild_id && a.id == b.id && a.name == b.name
                    && a.permission_overwrites.same_as(&b.permission_overwrites)
                    && a.position == b.position
            },
            (GuildChannel::Text(a), GuildChannel::Text(b)) => {
                a.guild_id == b.guild_id && a.id == b.id && a.last_message_id == b.last_message_id
                    && a.last_pin_timestamp.same_as(&b.last_pin_timestamp) && a.name == b.name
                    && a.nsfw == b.nsfw && a.parent_id == b.parent_id
                    && a.permission_overwrites.same_as(&b.permission_overwrites)
                    && a.position == b.position && a.rate_limit_per_user == b.rate_limit_per_user
                    && a.topic.same_as(&b.topic)
            },
            (GuildChannel::Voice(a), GuildChannel::Voice(b)) => {
                a.bitrate == b.bitrate && a.guild_id == b.guild_id && a.id == b.id
                    && a.name == b.name && a.parent_id == b.parent_id
                    && a.permission_overwrites.same_as(&b.permission_overwrites)
                    && a.position == b.position && a.user_limit == b.user_limit
            },
            _ => false,
        }
    }
}

impl Duplicate for GuildChannel {
    fn duplicate(&self) -> (r: Self) {
        match self {
            GuildChannel::Category(a) => GuildChannel::Category(CategoryChannel {
                guild_id: a.guild_id,
                id: a.id,
                name: a.name.clone(),
                permission_overwrites: a.permission_overwrites.duplicate(),
                position: a.position,
            }),
            GuildChannel::Text(a) => GuildChannel::Text(TextChannel {
                guild_id: a.guild_id,
                id: a.id,
                last_message_id: a.last_message_id,
                last_pin_timestamp: a.last_pin_timestamp.duplicate(),
                name: a.name.clone(),
                nsfw: a.nsfw,
                parent_id: a.parent_id,
                permission_overwrites: a.permission_overwrites.duplicate(),
                position: a.position,
                rate_limit_per_user: a.rate_limit_per_user,
                topic: a.topic.duplicate(),
            }),
            GuildChannel::Voice(a) => GuildChannel::Voice(VoiceChannel {
                bitrate: a.bitrate,
                guild_id: a.guild_id,
                id: a.id,
                name: a.name.clone(),
                parent_id: a.parent_id,
                permission_overwrites: a.permission_overwrites.duplicate(),
                position: a.position,
                user_limit: a.user_limit,
            }),
        }
    }
}

/// A direct-message channel between the client and one user.
#[derive(Clone, Debug)]
pub struct PrivateChannel {
    pub id: ChannelId,
    pub last_message_id: Option<MessageId>,
    pub last_pin_timestamp: Option<String>,
    pub recipients: Vec<UserId>,
}

impl Snapshot for PrivateChannel {
    open spec fn same(&self, other: &Self) -> bool {
        &&& self.id == other.id
        &&& self.last_message_id == other.last_message_id
        &&& self.last_pin_timestamp.same(&other.last_pin_timestamp)
        &&& self.recipients.same(&other.recipients)
    }

    proof fn lemma_same_refl(&self) {
        self.last_pin_timestamp.lemma_same_refl();
        self.recipients.lemma_same_refl();
    }

    fn same_as(&self, other: &Self) -> (r: bool) {
        self.id == other.id && self.last_message_id == other.last_message_id
            && self.last_pin_timestamp.same_as(&other.last_pin_timestamp)
            && self.recipients.same_as(&other.recipients)
    }
}

impl Duplicate for PrivateChannel {
    fn duplicate(&self) -> (r: Self) {
        PrivateChannel {
            id: self.id,
            last_message_id: self.last_message_id,
            last_pin_timestamp: self.last_pin_timestamp.duplicate(),
            recipients: self.recipients.duplicate(),
        }
    }
}

/// A direct-message channel between several users.
#[derive(Clone, Debug)]
pub struct Group {
    pub icon: Option<String>,
    pub id: ChannelId,
    pub last_message_id: Option<MessageId>,
    pub last_pin_timestamp: Option<String>,
    pub name: Option<String>,
    pub owner_id: UserId,
    pub recipients: Vec<UserId>,
}

impl Snapshot for Group {
    open spec fn same(&self, other: &Self) -> bool {
        &&& self.icon.same(&other.icon)
        &&& self.id == other.id
        &&& self.last_message_id == other.last_message_id
        &&& self.last_pin_timestamp.same(&other.last_pin_timestamp)
        &&& self.name.same(&other.name)
        &&& self.owner_id == other.owner_id
        &&& self.recipients.same(&other.recipients)
    }

    proof fn lemma_same_refl(&self) {
        self.icon.lemma_same_refl();
        self.last_pin_timestamp.lemma_same_refl();
        self.name.lemma_same_refl();
        self.recipients.lemma_same_refl();
    }

    fn same_as(&self, other: &Self) -> (r: bool) {
        self.icon.same_as(&other.icon) && self.id == other.id
            && self.last_message_id == other.last_message_id
            && self.last_pin_timestamp.same_as(&other.last_pin_timestamp)
            && self.name.same_as(&other.name) && self.owner_id == other.owner_id
            && self.recipients.same_as(&other.recipients)
    }
}

impl Duplicate for Group {
    fn duplicate(&self) -> (r: Self) {
        Group {
            icon: self.icon.duplicate(),
            id: self.id,
            last_message_id: self.last_message_id,
            last_pin_timestamp: self.last_pin_timestamp.duplicate(),
            name: self.name.duplicate(),
            owner_id: self.owner_id,
            recipients: self.recipients.duplicate(),
        }
    }
}

/// Any channel, as a channel event carries it.
#[derive(Clone, Debug)]
pub enum Channel {
    Group(Group),
    Guild(GuildChannel),
    Private(PrivateChannel),
}

/// A role of a guild.
#[derive(Clone, Debug)]
pub struct Role {
    pub color: u32,
    pub hoist: bool,
    pub id: RoleId,
    pub managed: bool,
    pub mentionable: bool,
    pub name: String,
    pub permissions: u64,
    pub position: i64,
}

impl Snapshot for Role {
    open spec fn same(&self, other: &Self) -> bool {
        &&& self.color == other.color
        &&& self.hoist == other.hoist
        &&& self.id == other.id
        &&& self.managed == other.managed
        &&& self.mentionable == other.mentionable
        &&& self.name@ == other.name@
        &&& self.permissions == other.permissions
        &&& self.position == other.position
    }

    proof fn lemma_same_refl(&self) {
    }

    fn same_as(&self, other: &Self) -> (r: bool) {
        self.color == other.color && self.hoist == other.hoist && self.id == other.id
            && self.managed == other.managed && self.mentionable == other.mentionable
            && self.name == other.name && self.permissions == other.permissions
            && self.position == other.position
    }
}

/// A custom emoji, as events carry it.
#[derive(Clone, Debug)]
pub struct Emoji {
    pub animated: bool,
    pub available: bool,
    pub id: EmojiId,
    pub managed: bool,
    pub name: String,
    pub require_colons: bool,
    pub roles: Vec<RoleId>,
    pub user: Option<User>,
}

/// A custom emoji as the cache keeps it: its creator by identifier only.
#[derive(Clone, Debug)]
pub struct CachedEmoji {
    pub animated: bool,
    pub available: bool,
    pub id: EmojiId,
    pub managed: bool,
    pub name: String,
    pub require_colons: bool,
    pub roles: Vec<RoleId>,
    pub user_id: Option<UserId>,
}

impl Snapshot for CachedEmoji {
    open spec fn same(&self, other: &Self) -> bool {
        &&& self.animated == other.animated
        &&& self.available == other.available
        &&& self.id == other.id
        &&& self.managed == other.managed
        &&& self.name@ == other.name@
        &&& self.require_colons == other.require_colons
        &&& self.roles.same(&other.roles)
        &&& self.user_id == other.user_id
    }

    proof fn lemma_same_refl(&self) {
        self.roles.lemma_same_refl();
    }

    fn same_as(&self, other: &Self) -> (r: bool) {
        self.animated == other.animated && self.available == other.available
            && self.id == other.id && self.managed == other.managed && self.name == other.name
            && self.require_colons == other.require_colons && self.roles.same_as(&other.roles)
            && self.user_id == other.user_id
    }
}

/// A member of a guild, as events carry it.
#[derive(Clone, Debug)]
pub struct Member {
    pub deaf: bool,
    pub guild_id: GuildId,
    pub joined_at: Option<String>,
    pub mute: bool,
    pub nick: Option<String>,
    pub premium_since: Option<String>,
    pub roles: Vec<RoleId>,
    pub user: User,
}

/// A member of a guild as the cache keeps it: the user by identifier only.
#[derive(Clone, Debug)]
pub struct CachedMember {
    pub deaf: bool,
    pub guild_id: GuildId,
    pub joined_at: Option<String>,
    pub mute: bool,
    pub nick: Option<String>,
    pub premium_since: Option<String>,
    pub roles: Vec<RoleId>,
    pub user_id: UserId,
}

impl Snapshot for CachedMember {
    open spec fn same(&self, other: &Self) -> bool {
        &&& self.deaf == other.deaf
        &&& self.guild_id == other.guild_id
        &&& self.joined_at.same(&other.joined_at)
        &&& self.mute == other.mute
        &&& self.nick.same(&other.nick)
        &&& self.premium_since.same(&other.premium_since)
        &&& self.roles.same(&other.roles)
        &&& self.user_id == other.user_id
    }

    proof fn lemma_same_refl(&self) {
        self.joined_at.lemma_same_refl();
        self.nick.lemma_same_refl();
        self.premium_since.lemma_same_refl();
        self.roles.lemma_same_refl();
    }

    fn same_as(&self, other: &Self) -> (r: bool) {
        self.deaf == other.deaf && self.guild_id == other.guild_id
            && self.joined_at.same_as(&other.joined_at) && self.mute == other.mute
            && self.nick.same_as(&other.nick) && self.premium_since.same_as(&other.premium_since)
            && self.roles.same_as(&other.roles) && self.user_id == other.user_id
    }
}

/// Online status of a user.
#[derive(Clone, Copy, Debug, PartialEq, Eq, Structural, Hash)]
pub enum Status {
    DoNotDisturb,
    Idle,
    Invisible,
    Offline,
    Online,
}

/// Secrets for joining or spectating an activity.
#[derive(Clone, Debug)]
pub struct ActivitySecrets {
    pub join: Option<String>,
    pub match_: Option<String>,
    pub spectate: Option<String>,
}

impl Snapshot for ActivitySecrets {
    open spec fn same(&self, other: &Self) -> bool {
        &&& self.join.same(&other.join)
        &&& self.match_.same(&other.match_)
        &&& self.spectate.same(&other.spectate)
    }

    proof fn lemma_same_refl(&self) {
        self.join.lemma_same_refl();
        self.match_.lemma_same_refl();
        self.spectate.lemma_same_refl();
    }

    fn same_as(&self, other: &Self) -> (r: bool) {
        self.join.same_as(&other.join) && self.match_.same_as(&other.match_)
            && self.spectate.same_as(&other.spectate)
    }
}

/// Something a user is doing.
#[derive(Clone, Debug)]
pub struct Activity {
    pub details: Option<String>,
    pub kind: u8,
    pub name: String,
    pub secrets: Option<ActivitySecrets>,
    pub state: Option<String>,
    pub url: Option<String>,
}

impl Snapshot for Activity {
    open spec fn same(&self, other: &Self) -> bool {
        &&& self.details.same(&other.details)
        &&& self.kind == other.kind
        &&& self.name@ == other.name@
        &&& self.secrets.same(&other.secrets)
        &&& self.state.same(&other.state)
        &&& self.url.same(&other.url)
    }

    proof fn lemma_same_refl(&self) {
        self.details.lemma_same_refl();
        self.secrets.lemma_same_refl();
        self.state.lemma_same_refl();
        self.url.lemma_same_refl();
    }

    fn same_as(&self, other: &Self) -> (r: bool) {
        self.details.same_as(&other.details) && self.kind == other.kind && self.name == other.name
            && self.secrets.same_as(&other.secrets) && self.state.same_as(&other.state)
            && self.url.same_as(&other.url)
    }
}

/// A full user, or only the user's identifier.
#[derive(Clone, Debug)]
pub enum UserOrId {
    User(User),
    UserId { id: UserId },
}

impl UserOrId {
    /// The identifier of the user.
    pub open spec fn spec_id(&self) -> UserId {
        match self {
            UserOrId::User(u) => u.id,
            UserOrId::UserId { id } => *id,
        }
    }

    /// Returns the identifier of the user.
    pub fn id(&self) -> (r: UserId)
        ensures
            r == self.spec_id(),
    {
        match self {
            UserOrId::User(u) => u.id,
            UserOrId::UserId { id } => *id,
        }
    }
}

/// Presence of a user in a guild, as events carry it.
#[derive(Clone, Debug)]
pub struct Presence {
    pub activities: Vec<Activity>,
    pub guild_id: Option<GuildId>,
    pub nick: Option<String>,
    pub status: Status,
    pub user: UserOrId,
}

/// Presence of a user in a guild as the cache keeps it.
#[derive(Clone, Debug)]
pub struct CachedPresence {
    pub activities: Vec<Activity>,
    pub guild_id: GuildId,
    pub nick: Option<String>,
    pub status: Status,
    pub user_id: UserId,
}

impl Snapshot for CachedPresence {
    open spec fn same(&self, other: &Self) -> bool {
        &&& self.activities.same(&other.activities)
        &&& self.guild_id == other.guild_id
        &&& self.nick.same(&other.nick)
        &&& self.status == other.status
        &&& self.user_id == other.user_id
    }

    proof fn lemma_same_refl(&self) {
        self.activities.lemma_same_refl();
        self.nick.lemma_same_refl();
    }

    fn same_as(&self, other: &Self) -> (r: bool) {
        self.activities.same_as(&other.activities) && self.guild_id == other.guild_id
            && self.nick.same_as(&other.nick) && self.status == other.status
            && self.user_id == other.user_id
    }
}

/// A user's connection to voice in a guild.
#[derive(Clone, Debug)]
pub struct VoiceState {
    pub channel_id: Option<ChannelId>,
    pub deaf: bool,
    pub guild_id: Option<GuildId>,
    pub mute: bool,
    pub self_deaf: bool,
    pub self_mute: bool,
    pub self_stream: bool,
    pub session_id: String,
    pub suppress: bool,
    pub token: Option<String>,
    pub user_id: UserId,
}

/// A guild as the cache keeps it, without its children.
#[derive(Clone, Debug)]
pub struct CachedGuild {
    pub afk_channel_id: Option<ChannelId>,
    pub afk_timeout: u64,
    pub banner: Option<String>,
    pub default_message_notifications: u8,
    pub description: Option<String>,
    pub embed_channel_id: Option<ChannelId>,
    pub embed_enabled: Option<bool>,
    pub explicit_content_filter: u8,
    pub features: Vec<String>,
    pub icon: Option<String>,
    pub id: GuildId,
    pub joined_at: Option<String>,
    pub large: bool,
    pub max_members: Option<u64>,
    pub max_presences: Option<u64>,
    pub member_count: Option<u64>,
    pub mfa_level: u8,
    pub name: String,
    pub owner: Option<bool>,
    pub owner_id: UserId,
    pub permissions: Option<u64>,
    pub preferred_locale: String,
    pub premium_subscription_count: Option<u64>,
    pub premium_tier: u8,
    pub region: String,
    pub rules_channel_id: Option<ChannelId>,
    pub splash: Option<String>,
    pub system_channel_id: Option<ChannelId>,
    pub unavailable: bool,
    pub vanity_url_code: Option<String>,
    pub verification_level: u8,
    pub widget_channel_id: Option<ChannelId>,
    pub widget_enabled: Option<bool>,
}

/// A file attached to a message.
#[derive(Clone, Debug)]
pub struct Attachment {
    pub filename: String,
    pub height: Option<u64>,
    pub id: u64,
    pub proxy_url: String,
    pub size: u64,
    pub url: String,
    pub width: Option<u64>,
}

impl Snapshot for Attachment {
    open spec fn same(&self, other: &Self) -> bool {
        &&& self.filename@ == other.filename@
        &&& self.height == other.height
        &&& self.id == other.id
        &&& self.proxy_url@ == other.proxy_url@
        &&& self.size == other.size
        &&& self.url@ == other.url@
        &&& self.width == other.width
    }

    proof fn lemma_same_refl(&self) {
    }

    fn same_as(&self, other: &Self) -> (r: bool) {
        self.filename == other.filename && self.height == other.height && self.id == other.id
            && self.proxy_url == other.proxy_url && self.size == other.size && self.url == other.url
            && self.width == other.width
    }
}

impl Duplicate for Attachment {
    fn duplicate(&self) -> (r: Self) {
        Attachment {
            filename: self.filename.clone(),
            height: self.height,
            id: self.id,
            proxy_url: self.proxy_url.clone(),
            size: self.size,
            url: self.url.clone(),
            width: self.width,
        }
    }
}

impl Snapshot for EmbedAuthor {
    open spec fn same(&self, other: &Self) -> bool {
        &&& self.icon_url.same(&other.icon_url)
        &&& self.name.same(&other.name)
        &&& self.url.same(&other.url)
    }

    proof fn lemma_same_refl(&self) {
        self.icon_url.lemma_same_refl();
        self.name.lemma_same_refl();
        self.url.lemma_same_refl();
    }

    fn same_as(&self, other: &Self) -> (r: bool) {
        self.icon_url.same_as(&other.icon_url) && self.name.same_as(&other.name)
            && self.url.same_as(&other.url)
    }
}

impl Duplicate for EmbedAuthor {
    fn duplicate(&self) -> (r: Self) {
        EmbedAuthor {
            icon_url: self.icon_url.duplicate(),
            name: self.name.duplicate(),
            url: self.url.duplicate(),
        }
    }
}

impl Snapshot for EmbedField {
    open spec fn same(&self, other: &Self) -> bool {
        &&& self.inline == other.inline
        &&& self.name@ == other.name@
        &&& self.value@ == other.value@
    }

    proof fn lemma_same_refl(&self) {
    }

    fn same_as(&self, other: &Self) -> (r: bool) {
        self.inline == other.inline && self.name == other.name && self.value == other.value
    }
}

impl Duplicate for EmbedField {
    fn duplicate(&self) -> (r: Self) {
        EmbedField { inline: self.inline, name: self.name.clone(), value: self.value.clone() }
    }
}

impl Snapshot for EmbedFooter {
    open spec fn same(&self, other: &Self) -> bool {
        &&& self.icon_url.same(&other.icon_url)
        &&& self.text@ == other.text@
    }

    proof fn lemma_same_refl(&self) {
        self.icon_url.lemma_same_refl();
    }

    fn same_as(&self, other: &Self) -> (r: bool) {
        self.icon_url.same_as(&other.icon_url) && self.text == other.text
    }
}

impl Duplicate for EmbedFooter {
    fn duplicate(&self) -> (r: Self) {
        EmbedFooter { icon_url: self.icon_url.duplicate(), text: self.text.clone() }
    }
}

impl Snapshot for Embed {
    open spec fn same(&self, other: &Self) -> bool {
        &&& self.author.same(&other.author)
        &&& self.color == other.color
        &&& self.description.same(&other.description)
        &&& self.fields.same(&other.fields)
        &&& self.footer.same(&other.footer)
        &&& self.kind@ == other.kind@
        &&& self.timestamp.same(&other.timestamp)
        &&& self.title.same(&other.title)
        &&& self.url.same(&other.url)
    }

    proof fn lemma_same_refl(&self) {
        self.author.lemma_same_refl();
        self.description.lemma_same_refl();
        self.fields.lemma_same_refl();
        self.footer.lemma_same_refl();
        self.timestamp.lemma_same_refl();
        self.title.lemma_same_refl();
        self.url.lemma_same_refl();
    }

    fn same_as(&self, other: &Self) -> (r: bool) {
        self.author.same_as(&other.author) && self.color == other.color
            && self.description.same_as(&other.description) && self.fields.same_as(&other.fields)
            && self.footer.same_as(&other.footer) && self.kind == other.kind
            && self.timestamp.same_as(&other.timestamp) && self.title.same_as(&other.title)
            && self.url.same_as(&other.url)
    }
}

impl Duplicate for Embed {
    fn duplicate(&self) -> (r: Self) {
        Embed {
            author: self.author.duplicate(),
            color: self.color,
            description: self.description.duplicate(),
            fields: self.fields.duplicate(),
            footer: self.footer.duplicate(),
            kind: self.kind.clone(),
            timestamp: self.timestamp.duplicate(),
            title: self.title.duplicate(),
            url: self.url.duplicate(),
        }
    }
}

/// Kind of a rich-presence activity attached to a message.
#[derive(Clone, Copy, Debug, PartialEq, Eq, Structural, Hash)]
pub enum MessageActivityType {
    Join,
    JoinRequest,
    Listen,
    Spectate,
}

/// A rich-presence activity attached to a message.
#[derive(Clone, Debug)]
pub struct MessageActivity {
    pub kind: MessageActivityType,
    pub party_id: Option<String>,
}

impl Snapshot for MessageActivity {
    open spec fn same(&self, other: &Self) -> bool {
        &&& self.kind == other.kind
        &&& self.party_id.same(&other.party_id)
    }

    proof fn lemma_same_refl(&self) {
        self.party_id.lemma_same_refl();
    }

    fn same_as(&self, other: &Self) -> (r: bool) {
        self.kind == other.kind && self.party_id.same_as(&other.party_id)
    }
}

impl Duplicate for MessageActivity {
    fn duplicate(&self) -> (r: Self) {
        MessageActivity { kind: self.kind, party_id: self.party_id.duplicate() }
    }
}

/// The emoji of a reaction: a custom emoji or a unicode one.
#[derive(Clone, Debug)]
pub enum ReactionType {
    Custom { animated: bool, id: EmojiId, name: Option<String> },
    Unicode { name: String },
}

impl Snapshot for ReactionType {
    open spec fn same(&self, other: &Self) -> bool {
        match (self, other) {
            (
                ReactionType::Custom { animated: a1, id: i1, name: n1 },
                ReactionType::Custom { animated: a2, id: i2, name: n2 },
            ) => a1 == a2 && i1 == i2 && n1.same(n2),
            (ReactionType::Unicode { name: n1 }, ReactionType::Unicode { name: n2 }) => n1@ == n2@,
            _ => false,
        }
    }

    proof fn lemma_same_refl(&self) {
        if let ReactionType::Custom { name, .. } = self {
            name.lemma_same_refl();
        }
    }

    fn same_as(&self, other: &Self) -> (r: bool) {
        match (self, other) {
            (
                ReactionType::Custom { animated: a1, id: i1, name: n1 },
                ReactionType::Custom { animated: a2, id: i2, name: n2 },
            ) => *a1 == *a2 && *i1 == *i2 && n1.same_as(n2),
            (ReactionType::Unicode { name: n1 }, ReactionType::Unicode { name: n2 }) => *n1 == *n2,
            _ => false,
        }
    }
}

impl Duplicate for ReactionType {
    fn duplicate(&self) -> (r: Self) {
        match self {
            ReactionType::Custom { animated, id, name } => ReactionType::Custom {
                animated: *animated,
                id: *id,
                name: name.duplicate(),
            },
            ReactionType::Unicode { name } => ReactionType::Unicode { name: name.clone() },
        }
    }
}

/// How many users reacted to a message with one emoji.
#[derive(Clone, Debug)]
pub struct MessageReaction {
    pub count: u64,
    pub emoji: ReactionType,
    pub me: bool,
}

impl Snapshot for MessageReaction {
    open spec fn same(&self, other: &Self) -> bool {
        &&& self.count == other.count
        &&& self.emoji.same(&other.emoji)
        &&& self.me == other.me
    }

    proof fn lemma_same_refl(&self) {
        self.emoji.lemma_same_refl();
    }

    fn same_as(&self, other: &Self) -> (r: bool) {
        self.count == other.count && self.emoji.same_as(&other.emoji) && self.me == other.me
    }
}

impl Duplicate for MessageReaction {
    fn duplicate(&self) -> (r: Self) {
        MessageReaction { count: self.count, emoji: self.emoji.duplicate(), me: self.me }
    }
}

/// A message, as events carry it.
#[derive(Clone, Debug)]
pub struct Message {
    pub activity: Option<MessageActivity>,
    pub attachments: Vec<Attachment>,
    pub author: User,
    pub channel_id: ChannelId,
    pub content: String,
    pub edited_timestamp: Option<String>,
    pub embeds: Vec<Embed>,
    pub flags: Option<u64>,
    pub guild_id: Option<GuildId>,
    pub id: MessageId,
    pub mention_everyone: bool,
    pub mention_roles: Vec<RoleId>,
    pub mentions: Vec<User>,
    pub pinned: bool,
    pub reactions: Vec<MessageReaction>,
    pub timestamp: String,
    pub tts: bool,
}

/// A message as the cache keeps it: users by identifier only.
#[derive(Clone, Debug)]
pub struct CachedMessage {
    pub activity: Option<MessageActivity>,
    pub attachments: Vec<Attachment>,
    pub author: UserId,
    pub channel_id: ChannelId,
    pub content: String,
    pub edited_timestamp: Option<String>,
    pub embeds: Vec<Embed>,
    pub flags: Option<u64>,
    pub guild_id: Option<GuildId>,
    pub id: MessageId,
    pub mention_everyone: bool,
    pub mention_roles: Vec<RoleId>,
    pub mentions: Vec<UserId>,
    pub pinned: bool,
    pub reactions: Vec<MessageReaction>,
    pub timestamp: String,
    pub tts: bool,
}

impl Snapshot for CachedMessage {
    open spec fn same(&self, other: &Self) -> bool {
        &&& self.activity.same(&other.activity)
        &&& self.attachments.same(&other.attachments)
        &&& self.author == other.author
        &&& self.channel_id == other.channel_id
        &&& self.content@ == other.content@
        &&& self.edited_timestamp.same(&other.edited_timestamp)
        &&& self.embeds.same(&other.embeds)
        &&& self.flags == other.flags
        &&& self.guild_id == other.guild_id
        &&& self.id == other.id
        &&& self.mention_everyone == other.mention_everyone
        &&& self.mention_roles.same(&other.mention_roles)
        &&& self.mentions.same(&other.mentions)
        &&& self.pinned == other.pinned
        &&& self.reactions.same(&other.reactions)
        &&& self.timestamp@ == other.timestamp@
        &&& self.tts == other.tts
    }

    proof fn lemma_same_refl(&self) {
        self.activity.lemma_same_refl();
        self.attachments.lemma_same_refl();
        self.edited_timestamp.lemma_same_refl();
        self.embeds.lemma_same_refl();
        self.mention_roles.lemma_same_refl();
        self.mentions.lemma_same_refl();
        self.reactions.lemma_same_refl();
    }

    fn same_as(&self, other: &Self) -> (r: bool) {
        self.activity.same_as(&other.activity) && self.attachments.same_as(&other.attachments)
            && self.author == other.author && self.channel_id == other.channel_id
            && self.content == other.content
            && self.edited_timestamp.same_as(&other.edited_timestamp)
            && self.embeds.same_as(&other.embeds) && self.flags == other.flags
            && self.guild_id == other.guild_id && self.id == other.id
            && self.mention_everyone == other.mention_everyone
            && self.mention_roles.same_as(&other.mention_roles)
            && self.mentions.same_as(&other.mentions) && self.pinned == other.pinned
            && self.reactions.same_as(&other.reactions) && self.timestamp == other.timestamp
            && self.tts == other.tts
    }
}

impl Duplicate for CachedMessage {
    fn duplicate(&self) -> (r: Self) {
        CachedMessage {
            activity: self.activity.duplicate(),
            attachments: self.attachments.duplicate(),
            author: self.author,
            channel_id: self.channel_id,
            content: self.content.clone(),
            edited_timestamp: self.edited_timestamp.duplicate(),
            embeds: self.embeds.duplicate(),
            flags: self.flags,
            guild_id: self.guild_id,
            id: self.id,
            mention_everyone: self.mention_everyone,
            mention_roles: self.mention_roles.duplicate(),
            mentions: self.mentions.duplicate(),
            pinned: self.pinned,
            reactions: self.reactions.duplicate(),
            timestamp: self.timestamp.clone(),
            tts: self.tts,
        }
    }
}

} // verus!
