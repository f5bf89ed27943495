use twilight_cache_inmemory::cache::InMemoryCache;
use twilight_cache_inmemory::config::{Config, EventType};
use twilight_cache_inmemory::event::{
    ChannelPinsUpdate, Event, Guild, GuildDelete, MemberAdd, MemberRemove, MessageDelete,
    MessageUpdate, PartialGuild, Reaction, ReactionRemoveAll, RoleDelete, RoleUpsert,
    UnavailableGuild, VoiceStateUpdate,
};
use twilight_cache_inmemory::id::{ChannelId, GuildId, MessageId, RoleId, UserId};
use twilight_cache_inmemory::model::{
    MessageReaction,
    CachedGuild, Channel, CurrentUser, GuildChannel, Member, Message, PrivateChannel,
    ReactionType, Role, TextChannel, User, VoiceState,
};

fn current_user(id: u64) -> CurrentUser {
    CurrentUser {
        avatar: None,
        bot: true,
        discriminator: "9876".to_owned(),
        email: None,
        id: UserId(id),
        mfa_enabled: true,
        name: "test".to_owned(),
        verified: true,
    }
}

fn user(id: UserId) -> User {
    User {
        avatar: None,
        bot: false,
        discriminator: "0001".to_owned(),
        id,
        name: "user".to_owned(),
    }
}

fn member(guild_id: GuildId, user_id: UserId) -> Member {
    Member {
        deaf: false,
        guild_id,
        joined_at: None,
        mute: false,
        nick: None,
        premium_since: None,
        roles: Vec::new(),
        user: user(user_id),
    }
}

fn voice_state(guild_id: GuildId, channel_id: Option<ChannelId>, user_id: UserId) -> VoiceState {
    VoiceState {
        channel_id,
        deaf: false,
        guild_id: Some(guild_id),
        mute: true,
        self_deaf: false,
        self_mute: true,
        self_stream: false,
        session_id: "a".to_owned(),
        suppress: false,
        token: None,
        user_id,
    }
}

fn guild_info(id: u64) -> CachedGuild {
    CachedGuild {
        afk_channel_id: None,
        afk_timeout: 300,
        banner: None,
        default_message_notifications: 1,
        description: None,
        embed_channel_id: None,
        embed_enabled: None,
        explicit_content_filter: 2,
        features: vec![],
        icon: None,
        id: GuildId(id),
        joined_at: Some("".to_owned()),
        large: false,
        max_members: Some(50),
        max_presences: Some(100),
        member_count: Some(25),
        mfa_level: 1,
        name: "this is a guild".to_owned(),
        owner: Some(false),
        owner_id: UserId(456),
        permissions: Some(2048),
        preferred_locale: "en-GB".to_owned(),
        premium_subscription_count: Some(0),
        premium_tier: 0,
        region: "us-east".to_owned(),
        rules_channel_id: None,
        splash: None,
        system_channel_id: None,
        unavailable: false,
        vanity_url_code: None,
        verification_level: 4,
        widget_channel_id: None,
        widget_enabled: None,
    }
}

fn empty_guild(id: u64) -> Guild {
    Guild {
        channels: Vec::new(),
        emojis: Vec::new(),
        info: guild_info(id),
        members: Vec::new(),
        presences: Vec::new(),
        roles: Vec::new(),
        voice_states: Vec::new(),
    }
}

fn text_channel(id: u64, guild_id: Option<GuildId>) -> GuildChannel {
    GuildChannel::Text(TextChannel {
        guild_id,
        id: ChannelId(id),
        last_message_id: None,
        last_pin_timestamp: None,
        name: "guild channel with no guild id".to_owned(),
        nsfw: true,
        parent_id: None,
        permission_overwrites: Vec::new(),
        position: 1,
        rate_limit_per_user: None,
        topic: None,
    })
}

fn role(id: u64) -> Role {
    Role {
        color: 0,
        hoist: false,
        id: RoleId(id),
        managed: false,
        mentionable: false,
        name: "role".to_owned(),
        permissions: 0,
        position: 0,
    }
}

fn message(channel_id: u64, id: u64) -> Message {
    Message {
        activity: None,
        attachments: Vec::new(),
        author: user(UserId(1)),
        channel_id: ChannelId(channel_id),
        content: "content".to_owned(),
        edited_timestamp: None,
        embeds: Vec::new(),
        flags: None,
        guild_id: None,
        id: MessageId(id),
        mention_everyone: false,
        mention_roles: Vec::new(),
        mentions: vec![user(UserId(7))],
        pinned: false,
        reactions: Vec::new(),
        timestamp: "now".to_owned(),
        tts: false,
    }
}

fn reaction(channel_id: u64, message_id: u64, user_id: u64) -> Reaction {
    Reaction {
        channel_id: ChannelId(channel_id),
        emoji: ReactionType::Unicode { name: "x".to_owned() },
        guild_id: None,
        message_id: MessageId(message_id),
        user_id: UserId(user_id),
    }
}

#[test]
fn test_current_user_retrieval() {
    let mut cache = InMemoryCache::new();
    assert!(cache.current_user().is_none());
    cache.cache_current_user(current_user(1));
    assert!(cache.current_user().is_some());
}

#[test]
fn test_guild_create_channels_have_guild_ids() {
    let mut guild = empty_guild(123);
    guild.channels.push(text_channel(111, None));

    let mut cache = InMemoryCache::new();
    cache.cache_guild(guild);

    let channel = cache.guild_channel(ChannelId(111)).unwrap();

    // The channel came without a guild ID; the guild create attached it.
    match *channel {
        GuildChannel::Text(ref c) => {
            assert_eq!(Some(GuildId(123)), c.guild_id);
        }
        _ => assert!(false, "{:?}", channel),
    }
    let channels = cache.guild_channels(GuildId(123)).unwrap();
    assert_eq!(vec![ChannelId(111)], channels);
}

#[test]
fn test_syntax_update() {
    let mut cache = InMemoryCache::new();
    cache.update(Event::RoleDelete(RoleDelete {
        guild_id: GuildId(0),
        role_id: RoleId(1),
    }));
}

#[test]
fn test_cache_user_guild_state() {
    let user_id = UserId(2);
    let mut cache = InMemoryCache::new();
    cache.cache_user(user(user_id), GuildId(1));

    // The guild's ID is the only one in the user's set of guilds.
    {
        let guilds = cache.user_guilds(user_id).unwrap();
        assert!(guilds.contains(&GuildId(1)));
        assert_eq!(1, guilds.len());
    }

    // A second guild makes two.
    cache.cache_user(user(user_id), GuildId(3));

    {
        let guilds = cache.user_guilds(user_id).unwrap();
        assert!(guilds.contains(&GuildId(3)));
        assert_eq!(2, guilds.len());
    }

    // Removing the user from a guild drops that guild, leaving the other.
    cache.update(Event::MemberRemove(MemberRemove {
        guild_id: GuildId(3),
        user: user(user_id),
    }));

    {
        let guilds = cache.user_guilds(user_id).unwrap();
        assert!(!guilds.contains(&GuildId(3)));
        assert_eq!(1, guilds.len());
    }

    // Removing the user from its last guild removes the user.
    cache.update(Event::MemberRemove(MemberRemove {
        guild_id: GuildId(1),
        user: user(user_id),
    }));
    assert!(cache.user(user_id).is_none());
}

#[test]
fn test_voice_state_inserts_and_removes() {
    let mut cache = InMemoryCache::new();

    // Channel ids are `<guild id><index>`, so that they never collide.

    // User 1 joins guild 1's channel 11 (1 channel, 1 guild)
    {
        let (guild_id, channel_id, user_id) = (GuildId(1), ChannelId(11), UserId(1));
        cache.cache_voice_state(voice_state(guild_id, Some(channel_id), user_id));

        assert!(cache.voice_state(user_id, guild_id).is_some());
        assert_eq!(1, cache.voice_state_count());

        assert!(cache.voice_channel_ids().contains(&channel_id));
        assert_eq!(1, cache.voice_channel_ids().len());

        assert!(cache.voice_guild_ids().contains(&guild_id));
        assert_eq!(1, cache.voice_guild_ids().len());
    }

    // User 2 joins guild 2's channel 21 (2 channels, 2 guilds)
    {
        let (guild_id, channel_id, user_id) = (GuildId(2), ChannelId(21), UserId(2));
        cache.cache_voice_state(voice_state(guild_id, Some(channel_id), user_id));

        assert!(cache.voice_state(user_id, guild_id).is_some());
        assert_eq!(2, cache.voice_state_count());

        assert!(cache.voice_channel_ids().contains(&channel_id));
        assert_eq!(2, cache.voice_channel_ids().len());

        assert!(cache.voice_guild_ids().contains(&guild_id));
        assert_eq!(2, cache.voice_guild_ids().len());
    }

    // User 3 joins guild 1's channel 12 (3 channels, 2 guilds)
    {
        let (guild_id, channel_id, user_id) = (GuildId(1), ChannelId(12), UserId(3));
        cache.cache_voice_state(voice_state(guild_id, Some(channel_id), user_id));

        assert!(cache.voice_state(user_id, guild_id).is_some());
        assert_eq!(3, cache.voice_state_count());

        assert!(cache.voice_channel_ids().contains(&channel_id));
        assert_eq!(3, cache.voice_channel_ids().len());

        assert!(cache.voice_guild_ids().contains(&guild_id));
        assert_eq!(2, cache.voice_guild_ids().len());
    }

    // User 3 moves to guild 1's channel 11 (2 channels, 2 guilds)
    {
        let (guild_id, channel_id, user_id) = (GuildId(1), ChannelId(11), UserId(3));
        cache.cache_voice_state(voice_state(guild_id, Some(channel_id), user_id));

        assert!(cache.voice_state(user_id, guild_id).is_some());
        assert_eq!(3, cache.voice_state_count());

        assert!(cache.voice_channel_ids().contains(&channel_id));
        assert_eq!(2, cache.voice_channel_ids().len());

        assert!(cache.voice_guild_ids().contains(&guild_id));
        assert_eq!(2, cache.voice_guild_ids().len());
    }

    // User 3 leaves (2 channels, 2 guilds)
    {
        let (guild_id, channel_id, user_id) = (GuildId(1), ChannelId(11), UserId(3));
        cache.cache_voice_state(voice_state(guild_id, None, user_id));

        assert!(cache.voice_state(user_id, guild_id).is_none());
        assert_eq!(2, cache.voice_state_count());

        assert!(cache.voice_channel_ids().contains(&channel_id));
        assert!(cache.voice_guild_ids().contains(&guild_id));
        assert_eq!(2, cache.voice_guild_ids().len());
    }

    // User 2 leaves (1 channel, 1 guild)
    {
        let (guild_id, channel_id, user_id) = (GuildId(2), ChannelId(21), UserId(2));
        cache.cache_voice_state(voice_state(guild_id, None, user_id));

        assert!(cache.voice_state(user_id, guild_id).is_none());
        assert_eq!(1, cache.voice_state_count());

        assert!(!cache.voice_channel_ids().contains(&channel_id));
        assert_eq!(1, cache.voice_channel_ids().len());

        assert!(!cache.voice_guild_ids().contains(&guild_id));
        assert_eq!(1, cache.voice_guild_ids().len());
    }

    // User 1 leaves (0 channels, 0 guilds)
    {
        let (guild_id, _channel_id, user_id) = (GuildId(1), ChannelId(11), UserId(1));
        cache.cache_voice_state(voice_state(guild_id, None, user_id));

        assert_eq!(0, cache.voice_state_count());
        assert!(cache.voice_channel_ids().is_empty());
        assert!(cache.voice_guild_ids().is_empty());
    }
}

#[test]
fn test_voice_states() {
    let mut cache = InMemoryCache::new();
    cache.cache_voice_state(voice_state(GuildId(1), Some(ChannelId(2)), UserId(3)));
    cache.cache_voice_state(voice_state(GuildId(1), Some(ChannelId(2)), UserId(4)));

    // Returns both voice states for the channel that exists.
    assert_eq!(2, cache.voice_channel_states(ChannelId(2)).unwrap().len());

    // Returns None if the channel does not exist.
    assert!(cache.voice_channel_states(ChannelId(0)).is_none());
}

#[test]
fn voice_state_without_guild_is_ignored() {
    let mut cache = InMemoryCache::new();
    let mut vs = voice_state(GuildId(1), Some(ChannelId(11)), UserId(1));
    vs.guild_id = None;
    assert!(cache.cache_voice_state(vs).is_none());
    assert_eq!(0, cache.voice_state_count());
}

#[test]
fn voice_leave_then_join_equals_join() {
    let mut direct = InMemoryCache::new();
    direct.cache_voice_state(voice_state(GuildId(1), Some(ChannelId(11)), UserId(1)));
    direct.cache_voice_state(voice_state(GuildId(1), Some(ChannelId(12)), UserId(1)));

    let mut via_leave = InMemoryCache::new();
    via_leave.cache_voice_state(voice_state(GuildId(1), Some(ChannelId(11)), UserId(1)));
    via_leave.cache_voice_state(voice_state(GuildId(1), None, UserId(1)));
    via_leave.cache_voice_state(voice_state(GuildId(1), Some(ChannelId(12)), UserId(1)));

    assert_eq!(direct.voice_state_count(), via_leave.voice_state_count());
    assert_eq!(direct.voice_channel_ids(), via_leave.voice_channel_ids());
    assert_eq!(direct.voice_guild_ids(), via_leave.voice_guild_ids());
    assert_eq!(vec![ChannelId(12)], via_leave.voice_channel_ids());
}

#[test]
fn role_delete_removes_role_from_both_indices() {
    let mut cache = InMemoryCache::new();
    cache.update(Event::RoleCreate(RoleUpsert { guild_id: GuildId(5), role: role(50) }));
    assert!(cache.role(RoleId(50)).is_some());
    assert_eq!(Some(vec![RoleId(50)]), cache.guild_roles(GuildId(5)));

    cache.update(Event::RoleDelete(RoleDelete { guild_id: GuildId(5), role_id: RoleId(50) }));
    assert!(cache.role(RoleId(50)).is_none());
    assert_eq!(Some(vec![]), cache.guild_roles(GuildId(5)));
}

#[test]
fn message_cap_evicts_oldest() {
    let config = Config::builder().message_cache_size(2).build();
    let mut cache = InMemoryCache::new_with_config(config);
    for id in [100u64, 101, 102] {
        cache.update(Event::MessageCreate(message(9, id)));
    }
    assert_eq!(2, cache.message_count(ChannelId(9)));
    assert!(cache.message(ChannelId(9), MessageId(100)).is_none());
    assert!(cache.message(ChannelId(9), MessageId(101)).is_some());
    assert!(cache.message(ChannelId(9), MessageId(102)).is_some());
}

#[test]
fn message_cap_plus_k_keeps_cap_newest() {
    let config = Config::builder().message_cache_size(3).build();
    let mut cache = InMemoryCache::new_with_config(config);
    for id in 1u64..=8 {
        cache.update(Event::MessageCreate(message(4, id)));
    }
    assert_eq!(3, cache.message_count(ChannelId(4)));
    for id in 1u64..=5 {
        assert!(cache.message(ChannelId(4), MessageId(id)).is_none());
    }
    for id in 6u64..=8 {
        assert!(cache.message(ChannelId(4), MessageId(id)).is_some());
    }
}

#[test]
fn message_cap_zero_keeps_nothing() {
    let config = Config::builder().message_cache_size(0).build();
    let mut cache = InMemoryCache::new_with_config(config);
    cache.update(Event::MessageCreate(message(4, 1)));
    assert_eq!(0, cache.message_count(ChannelId(4)));
}

#[test]
fn message_keeps_mentions_by_id() {
    let mut cache = InMemoryCache::new();
    cache.cache_message(message(4, 1));
    let m = cache.message(ChannelId(4), MessageId(1)).unwrap();
    assert_eq!(vec![UserId(7)], m.mentions);
    assert_eq!(UserId(1), m.author);
}

#[test]
fn message_delete_and_bulk_delete() {
    let mut cache = InMemoryCache::new();
    for id in 1u64..=4 {
        cache.cache_message(message(4, id));
    }
    cache.update(Event::MessageDelete(MessageDelete { channel_id: ChannelId(4), id: MessageId(2) }));
    assert_eq!(3, cache.message_count(ChannelId(4)));
    assert!(cache.message(ChannelId(4), MessageId(2)).is_none());
    cache.delete_messages(ChannelId(4), &vec![MessageId(1), MessageId(4)]);
    assert_eq!(1, cache.message_count(ChannelId(4)));
    assert!(cache.message(ChannelId(4), MessageId(3)).is_some());
}

#[test]
fn message_update_overlays_present_fields() {
    let mut cache = InMemoryCache::new();
    cache.cache_message(message(4, 1));
    cache.update(Event::MessageUpdate(MessageUpdate {
        attachments: None,
        channel_id: ChannelId(4),
        content: Some("edited".to_owned()),
        edited_timestamp: Some("later".to_owned()),
        embeds: None,
        id: MessageId(1),
        mention_everyone: None,
        mention_roles: None,
        mentions: None,
        pinned: Some(true),
        timestamp: None,
        tts: None,
    }));
    let m = cache.message(ChannelId(4), MessageId(1)).unwrap();
    assert_eq!("edited", m.content);
    assert_eq!(Some("later".to_owned()), m.edited_timestamp);
    assert!(m.pinned);
    assert_eq!("now", m.timestamp);
    assert_eq!(vec![UserId(7)], m.mentions);
}

#[test]
fn message_update_for_unknown_message_is_ignored() {
    let mut cache = InMemoryCache::new();
    cache.update(Event::MessageUpdate(MessageUpdate {
        attachments: None,
        channel_id: ChannelId(4),
        content: Some("edited".to_owned()),
        edited_timestamp: None,
        embeds: None,
        id: MessageId(1),
        mention_everyone: None,
        mention_roles: None,
        mentions: None,
        pinned: None,
        timestamp: None,
        tts: None,
    }));
    assert!(cache.message(ChannelId(4), MessageId(1)).is_none());
}

#[test]
fn snapshots_outlive_updates() {
    let mut cache = InMemoryCache::new();
    cache.cache_message(message(4, 1));
    let before = cache.message(ChannelId(4), MessageId(1)).unwrap();
    cache.add_reaction(reaction(4, 1, 2));
    assert!(before.reactions.is_empty());
    let after = cache.message(ChannelId(4), MessageId(1)).unwrap();
    assert_eq!(1, after.reactions.len());
}

#[test]
fn reactions_count_and_mark_own_user() {
    let mut cache = InMemoryCache::new();
    cache.cache_current_user(current_user(5));
    cache.cache_message(message(4, 1));
    cache.update(Event::ReactionAdd(reaction(4, 1, 2)));
    cache.update(Event::ReactionAdd(reaction(4, 1, 5)));
    {
        let m = cache.message(ChannelId(4), MessageId(1)).unwrap();
        assert_eq!(1, m.reactions.len());
        assert_eq!(2, m.reactions[0].count);
        assert!(m.reactions[0].me);
    }
    cache.update(Event::ReactionRemove(reaction(4, 1, 5)));
    {
        let m = cache.message(ChannelId(4), MessageId(1)).unwrap();
        assert_eq!(1, m.reactions[0].count);
        assert!(!m.reactions[0].me);
    }
    cache.update(Event::ReactionRemove(reaction(4, 1, 2)));
    {
        let m = cache.message(ChannelId(4), MessageId(1)).unwrap();
        assert!(m.reactions.is_empty());
    }
    cache.update(Event::ReactionAdd(reaction(4, 1, 2)));
    cache.update(Event::ReactionRemoveAll(ReactionRemoveAll {
        channel_id: ChannelId(4),
        guild_id: None,
        message_id: MessageId(1),
    }));
    let m = cache.message(ChannelId(4), MessageId(1)).unwrap();
    assert!(m.reactions.is_empty());
}

#[test]
fn unavailable_then_available() {
    let mut cache = InMemoryCache::new();
    cache.update(Event::UnavailableGuild(UnavailableGuild { id: GuildId(7) }));
    assert!(cache.guild(GuildId(7)).is_none());
    assert!(cache.is_unavailable(GuildId(7)));

    cache.update(Event::GuildCreate(empty_guild(7)));
    assert!(cache.guild(GuildId(7)).is_some());
    assert!(!cache.is_unavailable(GuildId(7)));
}

#[test]
fn member_add_twice_equals_once() {
    let mut cache = InMemoryCache::new();
    cache.update(Event::MemberAdd(MemberAdd(member(GuildId(1), UserId(2)))));
    let first = cache.member(GuildId(1), UserId(2)).unwrap();
    cache.update(Event::MemberAdd(MemberAdd(member(GuildId(1), UserId(2)))));
    let second = cache.member(GuildId(1), UserId(2)).unwrap();
    // The unchanged record keeps its handle.
    assert!(std::sync::Arc::ptr_eq(&first, &second));
    assert_eq!(Some(vec![UserId(2)]), cache.guild_members(GuildId(1)));
    assert_eq!(Some(vec![GuildId(1)]), cache.user_guilds(UserId(2)));
}

#[test]
fn guild_create_then_delete_restores_keys() {
    let mut cache = InMemoryCache::new();
    let mut guild = empty_guild(9);
    guild.channels.push(text_channel(91, None));
    guild.roles.push(role(92));
    guild.members.push(member(GuildId(9), UserId(93)));
    guild.voice_states.push(voice_state(GuildId(9), Some(ChannelId(91)), UserId(93)));
    cache.update(Event::GuildCreate(guild));
    assert!(cache.guild(GuildId(9)).is_some());
    assert!(cache.member(GuildId(9), UserId(93)).is_some());
    assert_eq!(1, cache.voice_state_count());

    cache.update(Event::GuildDelete(GuildDelete { id: GuildId(9), unavailable: false }));
    assert!(cache.guild(GuildId(9)).is_none());
    assert!(cache.guild_channel(ChannelId(91)).is_none());
    assert!(cache.role(RoleId(92)).is_none());
    assert!(cache.member(GuildId(9), UserId(93)).is_none());
    assert!(cache.user(UserId(93)).is_none());
    assert!(cache.guild_channels(GuildId(9)).is_none());
    assert!(cache.guild_members(GuildId(9)).is_none());
    assert_eq!(0, cache.voice_state_count());
    assert!(cache.voice_channel_ids().is_empty());
}

#[test]
fn guild_update_fills_defaults() {
    let mut cache = InMemoryCache::new();
    cache.update(Event::GuildCreate(empty_guild(3)));
    cache.update(Event::GuildUpdate(PartialGuild {
        afk_channel_id: None,
        afk_timeout: 60,
        banner: None,
        default_message_notifications: 0,
        description: None,
        embed_channel_id: None,
        embed_enabled: true,
        features: vec!["NEWS".to_owned()],
        icon: None,
        id: GuildId(3),
        max_members: None,
        max_presences: None,
        mfa_level: 0,
        name: "renamed".to_owned(),
        owner: None,
        owner_id: UserId(1),
        permissions: None,
        preferred_locale: "en-US".to_owned(),
        premium_subscription_count: None,
        premium_tier: 1,
        region: "eu".to_owned(),
        splash: None,
        system_channel_id: None,
        vanity_url_code: None,
        verification_level: 0,
        widget_channel_id: None,
        widget_enabled: None,
    }));
    let g = cache.guild(GuildId(3)).unwrap();
    assert_eq!("renamed", g.name);
    assert_eq!(Some(25000), g.max_presences);
    assert_eq!(Some(0), g.premium_subscription_count);
    assert_eq!(Some(true), g.embed_enabled);
    assert_eq!(Some(25), g.member_count);
}

#[test]
fn disabled_event_type_changes_nothing() {
    let mut types = EventType::all();
    types.remove(EventType::ROLE_CREATE);
    let config = Config::builder().event_types(types).build();
    let mut cache = InMemoryCache::new_with_config(config);
    cache.update(Event::RoleCreate(RoleUpsert { guild_id: GuildId(5), role: role(50) }));
    assert!(cache.role(RoleId(50)).is_none());
}

#[test]
fn channel_pins_update_private_channel() {
    let mut cache = InMemoryCache::new();
    cache.update(Event::ChannelCreate(Channel::Private(PrivateChannel {
        id: ChannelId(8),
        last_message_id: None,
        last_pin_timestamp: None,
        recipients: vec![UserId(1)],
    })));
    cache.update(Event::ChannelPinsUpdate(ChannelPinsUpdate {
        channel_id: ChannelId(8),
        guild_id: None,
        last_pin_timestamp: Some("t".to_owned()),
    }));
    let c = cache.private_channel(ChannelId(8)).unwrap();
    assert_eq!(Some("t".to_owned()), c.last_pin_timestamp);
    assert_eq!(vec![UserId(1)], c.recipients);
}

#[test]
fn channel_delete_removes_from_guild_set() {
    let mut cache = InMemoryCache::new();
    cache.update(Event::ChannelCreate(Channel::Guild(text_channel(20, Some(GuildId(2))))));
    assert_eq!(Some(vec![ChannelId(20)]), cache.guild_channels(GuildId(2)));
    cache.update(Event::ChannelDelete(Channel::Guild(text_channel(20, Some(GuildId(2))))));
    assert!(cache.guild_channel(ChannelId(20)).is_none());
    assert_eq!(Some(vec![]), cache.guild_channels(GuildId(2)));
}

#[test]
fn voice_state_update_event_and_clear() {
    let mut cache = InMemoryCache::new();
    cache.update(Event::VoiceStateUpdate(VoiceStateUpdate(voice_state(GuildId(1), Some(ChannelId(11)), UserId(1)))));
    assert_eq!(1, cache.voice_state_count());
    cache.cache_current_user(current_user(1));
    cache.clear();
    assert_eq!(0, cache.voice_state_count());
    assert!(cache.current_user().is_none());
    assert_eq!(100, cache.config().message_cache_size());
}

#[test]
fn reaction_remove_at_last_count_drops_every_entry_of_the_emoji() {
    let mut cache = InMemoryCache::new();
    let mut m = message(4, 1);
    m.reactions = vec![
        MessageReaction { count: 1, emoji: ReactionType::Unicode { name: "x".to_owned() }, me: false },
        MessageReaction { count: 2, emoji: ReactionType::Unicode { name: "y".to_owned() }, me: false },
        MessageReaction { count: 2, emoji: ReactionType::Unicode { name: "x".to_owned() }, me: false },
    ];
    cache.cache_message(m);
    cache.update(Event::ReactionRemove(reaction(4, 1, 2)));
    let m = cache.message(ChannelId(4), MessageId(1)).unwrap();
    assert_eq!(1, m.reactions.len());
    assert_eq!(2, m.reactions[0].count);
    assert!(matches!(m.reactions[0].emoji, ReactionType::Unicode { ref name } if name == "y"));
}

#[test]
fn builder_builds_configured_cache() {
    let mut cache = InMemoryCache::builder().message_cache_size(1).build();
    assert_eq!(1, cache.config().message_cache_size());
    cache.cache_message(message(4, 1));
    cache.cache_message(message(4, 2));
    assert_eq!(1, cache.message_count(ChannelId(4)));
    assert!(cache.message(ChannelId(4), MessageId(2)).is_some());
}
