use modmail::config::{Config, ConfigError};

fn some(text: &str) -> Option<String> {
    Some(text.to_string())
}

#[test]
fn complete_settings_are_taken() {
    let config = Config::get(some("secret"), some("1234"), some("5678")).unwrap();
    assert_eq!(config.token, "secret");
    assert_eq!(config.forum_channel_id, 1234);
    assert_eq!(config.role_id, 5678);
}

#[test]
fn the_token_is_asked_for_first() {
    assert_eq!(Config::get(None, None, None), Err(ConfigError::TokenMissing));
    assert_eq!(Config::get(None, some("x"), some("y")), Err(ConfigError::TokenMissing));
}

#[test]
fn the_forum_channel_is_asked_for_next() {
    assert_eq!(Config::get(some("t"), None, None), Err(ConfigError::ForumChannelMissing));
    assert_eq!(Config::get(some("t"), some("x"), None), Err(ConfigError::ForumChannelInvalid));
    assert_eq!(Config::get(some("t"), some(""), some("1")), Err(ConfigError::ForumChannelInvalid));
    assert_eq!(
        Config::get(some("t"), some("18446744073709551616"), some("1")),
        Err(ConfigError::ForumChannelInvalid)
    );
}

#[test]
fn the_role_is_asked_for_last() {
    assert_eq!(Config::get(some("t"), some("1"), None), Err(ConfigError::RoleMissing));
    assert_eq!(Config::get(some("t"), some("1"), some("-2")), Err(ConfigError::RoleInvalid));
    assert_eq!(Config::get(some("t"), some("1"), some(" 2")), Err(ConfigError::RoleInvalid));
}

#[test]
fn the_errors_say_what_is_wrong() {
    assert_eq!(ConfigError::TokenMissing.message(), "DISCORD_TOKEN must be set");
    assert_eq!(ConfigError::ForumChannelMissing.message(), "FORUM_CHANNEL_ID must be set");
    assert_eq!(
        ConfigError::ForumChannelInvalid.message(),
        "FORUM_CHANNEL_ID must be a valid u64"
    );
    assert_eq!(ConfigError::RoleMissing.message(), "ROLE_ID must be set");
    assert_eq!(ConfigError::RoleInvalid.message(), "ROLE_ID must be a valid u64");
}
