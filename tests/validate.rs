use twilight_cache_inmemory::validate::{
    ban_delete_message_days, channel_name, content_limit, embed, get_audit_log_limit,
    get_channel_messages_limit, get_current_user_guilds_limit, get_guild_members_limit,
    get_reactions_limit, guild_name, guild_prune_days, nickname, username, Embed, EmbedAuthor,
    EmbedField, EmbedFooter, EmbedValidationError, prune_count_days, prune_days,
    CreateGuildPruneError, GetGuildPruneCountErrorType,
};

fn base_embed() -> Embed {
    Embed {
        author: None,
        color: None,
        description: None,
        fields: Vec::new(),
        footer: None,
        kind: "rich".to_owned(),
        timestamp: None,
        title: None,
        url: None,
    }
}

#[test]
fn test_ban_delete_message_days() {
    assert!(ban_delete_message_days(0));
    assert!(ban_delete_message_days(1));
    assert!(ban_delete_message_days(7));

    assert!(!ban_delete_message_days(8));
}

#[test]
fn test_channel_name() {
    assert!(channel_name("aa"));
    assert!(channel_name(&"a".repeat(100)));

    assert!(!channel_name(""));
    assert!(!channel_name("a"));
    assert!(!channel_name(&"a".repeat(101)));
}

#[test]
fn test_content_limit() {
    assert!(content_limit(""));
    assert!(content_limit(&"a".repeat(2000)));

    assert!(!content_limit(&"a".repeat(2001)));
}

#[test]
fn test_get_audit_log_limit() {
    assert!(get_audit_log_limit(1));
    assert!(get_audit_log_limit(100));

    assert!(!get_audit_log_limit(0));
    assert!(!get_audit_log_limit(101));
}

#[test]
fn test_get_channels_limit() {
    assert!(get_channel_messages_limit(1));
    assert!(get_channel_messages_limit(100));

    assert!(!get_channel_messages_limit(0));
    assert!(!get_channel_messages_limit(101));
}

#[test]
fn test_get_current_user_guilds_limit() {
    assert!(get_current_user_guilds_limit(1));
    assert!(get_current_user_guilds_limit(100));

    assert!(!get_current_user_guilds_limit(0));
    assert!(!get_current_user_guilds_limit(101));
}

#[test]
fn test_get_guild_members_limit() {
    assert!(get_guild_members_limit(1));
    assert!(get_guild_members_limit(1000));

    assert!(!get_guild_members_limit(0));
    assert!(!get_guild_members_limit(1001));
}

#[test]
fn test_get_reactions_limit() {
    assert!(get_reactions_limit(1));
    assert!(get_reactions_limit(100));

    assert!(!get_reactions_limit(0));
    assert!(!get_reactions_limit(101));
}

#[test]
fn test_guild_name() {
    assert!(guild_name("aa"));
    assert!(guild_name(&"a".repeat(100)));

    assert!(!guild_name(""));
    assert!(!guild_name("a"));
    assert!(!guild_name(&"a".repeat(101)));
}

#[test]
fn test_guild_prune_days() {
    assert!(!guild_prune_days(0));
    assert!(guild_prune_days(1));
    assert!(guild_prune_days(100));
}

#[test]
fn test_nickname() {
    assert!(nickname("a"));
    assert!(nickname(&"a".repeat(32)));

    assert!(!nickname(""));
    assert!(!nickname(&"a".repeat(33)));
}

#[test]
fn test_username() {
    assert!(username("aa"));
    assert!(username(&"a".repeat(32)));

    assert!(!username("a"));
    assert!(!username(&"a".repeat(33)));
}

#[test]
fn names_count_characters_not_bytes() {
    // Two characters of two bytes each.
    assert!(channel_name("éé"));
    assert!(!username("é"));
}

#[test]
fn test_embed_base() {
    let embed_value = base_embed();

    assert!(embed(&embed_value).is_ok());
}

#[test]
fn test_embed_normal() {
    let mut embed_value = base_embed();
    embed_value.author = Some(EmbedAuthor {
        icon_url: None,
        name: Some("twilight".to_owned()),
        url: None,
    });
    embed_value.color = Some(0xff0000);
    embed_value.description = Some("a".repeat(100));
    embed_value.fields.push(EmbedField {
        inline: true,
        name: "b".repeat(25),
        value: "c".repeat(200),
    });
    embed_value.title = Some("this is a normal title".to_owned());

    assert!(embed(&embed_value).is_ok());
}

#[test]
fn test_embed_author_name_limit() {
    let mut embed_value = base_embed();
    embed_value.author = Some(EmbedAuthor {
        icon_url: None,
        name: Some(str::repeat("a", 256)),
        url: None,
    });
    assert!(embed(&embed_value).is_ok());

    embed_value.author = Some(EmbedAuthor {
        icon_url: None,
        name: Some(str::repeat("a", 257)),
        url: None,
    });
    assert!(matches!(
        embed(&embed_value),
        Err(EmbedValidationError::AuthorNameTooLarge { chars: 257 })
    ));
}

#[test]
fn test_embed_description_limit() {
    let mut embed_value = base_embed();
    embed_value.description = Some(str::repeat("a", 2048));
    assert!(embed(&embed_value).is_ok());

    embed_value.description = Some(str::repeat("a", 2049));
    assert!(matches!(
        embed(&embed_value),
        Err(EmbedValidationError::DescriptionTooLarge { chars: 2049 })
    ));
}

#[test]
fn test_embed_field_count_limit() {
    let mut embed_value = base_embed();

    for _ in 0..26 {
        embed_value.fields.push(EmbedField {
            inline: true,
            name: "a".to_owned(),
            value: "a".to_owned(),
        });
    }

    assert!(matches!(
        embed(&embed_value),
        Err(EmbedValidationError::TooManyFields { amount: 26 })
    ));
}

#[test]
fn test_embed_field_name_limit() {
    let mut embed_value = base_embed();
    embed_value.fields.push(EmbedField {
        inline: true,
        name: str::repeat("a", 256),
        value: "a".to_owned(),
    });
    assert!(embed(&embed_value).is_ok());

    embed_value.fields.push(EmbedField {
        inline: true,
        name: str::repeat("a", 257),
        value: "a".to_owned(),
    });
    assert!(matches!(
        embed(&embed_value),
        Err(EmbedValidationError::FieldNameTooLarge { chars: 257 })
    ));
}

#[test]
fn test_embed_field_value_limit() {
    let mut embed_value = base_embed();
    embed_value.fields.push(EmbedField {
        inline: true,
        name: "a".to_owned(),
        value: str::repeat("a", 1024),
    });
    assert!(embed(&embed_value).is_ok());

    embed_value.fields.push(EmbedField {
        inline: true,
        name: "a".to_owned(),
        value: str::repeat("a", 1025),
    });
    assert!(matches!(
        embed(&embed_value),
        Err(EmbedValidationError::FieldValueTooLarge { chars: 1025 })
    ));
}

#[test]
fn test_embed_footer_text_limit() {
    let mut embed_value = base_embed();
    embed_value.footer = Some(EmbedFooter {
        icon_url: None,
        text: str::repeat("a", 2048),
    });
    assert!(embed(&embed_value).is_ok());

    embed_value.footer = Some(EmbedFooter {
        icon_url: None,
        text: str::repeat("a", 2049),
    });
    assert!(matches!(
        embed(&embed_value),
        Err(EmbedValidationError::FooterTextTooLarge { chars: 2049 })
    ));
}

#[test]
fn test_embed_title_limit() {
    let mut embed_value = base_embed();
    embed_value.title = Some(str::repeat("a", 256));
    assert!(embed(&embed_value).is_ok());

    embed_value.title = Some(str::repeat("a", 257));
    assert!(matches!(
        embed(&embed_value),
        Err(EmbedValidationError::TitleTooLarge { chars: 257 })
    ));
}

#[test]
fn test_embed_combined_limit() {
    let mut embed_value = base_embed();
    embed_value.description = Some(str::repeat("a", 2048));
    embed_value.title = Some(str::repeat("a", 256));

    for _ in 0..5 {
        embed_value.fields.push(EmbedField {
            inline: true,
            name: str::repeat("a", 100),
            value: str::repeat("a", 500),
        })
    }

    // we're at 5304 characters now
    assert!(embed(&embed_value).is_ok());

    embed_value.footer = Some(EmbedFooter {
        icon_url: None,
        text: str::repeat("a", 1000),
    });

    assert!(matches!(
        embed(&embed_value),
        Err(EmbedValidationError::EmbedTooLarge { chars: 6304 })
    ));
}

#[test]
fn test_days() {
    assert!(prune_count_days(0).is_err());
    assert_eq!(
        GetGuildPruneCountErrorType::DaysInvalid,
        *prune_count_days(0).unwrap_err().kind()
    );
    assert_eq!(Ok(1), prune_count_days(1));
    assert_eq!(Ok(100), prune_count_days(100));
    assert_eq!(Err(CreateGuildPruneError::DaysInvalid), prune_days(0));
    assert_eq!(Ok(7), prune_days(7));
}
