use twilight_cache_inmemory::config::{Config, ConfigBuilder, EventType};

#[test]
fn test_event_type_const_values() {
    assert_eq!(1, EventType::BAN_ADD.bits());
    assert_eq!(1 << 1, EventType::BAN_REMOVE.bits());
    assert_eq!(1 << 2, EventType::CHANNEL_CREATE.bits());
    assert_eq!(1 << 3, EventType::CHANNEL_DELETE.bits());
    assert_eq!(1 << 4, EventType::CHANNEL_UPDATE.bits());
    assert_eq!(1 << 5, EventType::GUILD_CREATE.bits());
    assert_eq!(1 << 6, EventType::GUILD_DELETE.bits());
    assert_eq!(1 << 7, EventType::GUILD_EMOJIS_UPDATE.bits());
    assert_eq!(1 << 8, EventType::GUILD_INTEGRATIONS_UPDATE.bits());
    assert_eq!(1 << 9, EventType::GUILD_UPDATE.bits());
    assert_eq!(1 << 10, EventType::MEMBER_ADD.bits());
    assert_eq!(1 << 11, EventType::MEMBER_CHUNK.bits());
    assert_eq!(1 << 12, EventType::MEMBER_REMOVE.bits());
    assert_eq!(1 << 13, EventType::MEMBER_UPDATE.bits());
    assert_eq!(1 << 14, EventType::MESSAGE_CREATE.bits());
    assert_eq!(1 << 15, EventType::MESSAGE_DELETE.bits());
    assert_eq!(1 << 16, EventType::MESSAGE_DELETE_BULK.bits());
    assert_eq!(1 << 17, EventType::MESSAGE_UPDATE.bits());
    assert_eq!(1 << 18, EventType::PRESENCE_UPDATE.bits());
    assert_eq!(1 << 19, EventType::REACTION_ADD.bits());
    assert_eq!(1 << 20, EventType::REACTION_REMOVE.bits());
    assert_eq!(1 << 21, EventType::REACTION_REMOVE_ALL.bits());
    assert_eq!(1 << 22, EventType::READY.bits());
    assert_eq!(1 << 23, EventType::ROLE_CREATE.bits());
    assert_eq!(1 << 24, EventType::ROLE_DELETE.bits());
    assert_eq!(1 << 25, EventType::ROLE_UPDATE.bits());
    assert_eq!(1 << 26, EventType::TYPING_START.bits());
    assert_eq!(1 << 27, EventType::UNAVAILABLE_GUILD.bits());
    assert_eq!(1 << 28, EventType::UPDATE_VOICE_STATE.bits());
    assert_eq!(1 << 29, EventType::USER_UPDATE.bits());
    assert_eq!(1 << 30, EventType::VOICE_SERVER_UPDATE.bits());
    assert_eq!(1 << 31, EventType::VOICE_STATE_UPDATE.bits());
    assert_eq!(1 << 32, EventType::WEBHOOK_UPDATE.bits());
}

#[test]
fn test_defaults() {
    let conf = Config {
        event_types: EventType::all(),
        message_cache_size: 100,
    };
    let default = Config::default();
    assert_eq!(conf.event_types, default.event_types);
    assert_eq!(conf.message_cache_size, default.message_cache_size);
    let default = ConfigBuilder::default();
    assert_eq!(conf.event_types, default.0.event_types);
    assert_eq!(conf.message_cache_size, default.0.message_cache_size);
}

#[test]
fn builder_sets_fields() {
    let config = Config::builder()
        .message_cache_size(10)
        .event_types(EventType::empty())
        .build();
    assert_eq!(10, config.message_cache_size());
    assert_eq!(0, config.event_types().bits());
}

#[test]
fn mutable_accessors_change_config() {
    let mut config = Config::default();
    *config.message_cache_size_mut() = 5;
    config.event_types_mut().remove(EventType::READY);
    assert_eq!(5, config.message_cache_size());
    assert!(!config.event_types().contains(EventType::READY));
    assert!(config.event_types().contains(EventType::GUILD_CREATE));
}

#[test]
fn all_event_types_cover_every_category() {
    let all = EventType::all();
    assert!(all.contains(EventType::BAN_ADD));
    assert!(all.contains(EventType::WEBHOOK_UPDATE));
    assert_eq!((1u64 << 33) - 1, all.bits());
}
