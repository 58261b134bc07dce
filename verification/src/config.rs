//! The settings of the bot.

use crate::text::{chars_of, parse_decimal, parse_u64};
use vstd::prelude::*;

verus! {

/// The settings that the bot runs with.
#[derive(Debug, Clone, PartialEq, Eq)]
pub struct Config {
    /// The token that the bot signs in with.
    pub token: String,
    /// The forum channel in which the threads are opened.
    pub forum_channel_id: u64,
    /// The staff role that is mentioned when a thread opens.
    pub role_id: u64,
}

/// Why the settings are unusable.
#[derive(Debug, Clone, Copy, PartialEq, Eq)]
pub enum ConfigError {
    /// No token is set.
    TokenMissing,
    /// No forum channel is set.
    ForumChannelMissing,
    /// The forum channel is set to something that is no 64-bit number.
    ForumChannelInvalid,
    /// No staff role is set.
    RoleMissing,
    /// The staff role is set to something that is no 64-bit number.
    RoleInvalid,
}

impl ConfigError {
    /// The error in words.
    pub fn message(&self) -> (text: &'static str)
        ensures
            text@ == match *self {
                ConfigError::TokenMissing => "DISCORD_TOKEN must be set"@,
                ConfigError::ForumChannelMissing => "FORUM_CHANNEL_ID must be set"@,
                ConfigError::ForumChannelInvalid => "FORUM_CHANNEL_ID must be a valid u64"@,
                ConfigError::RoleMissing => "ROLE_ID must be set"@,
                ConfigError::RoleInvalid => "ROLE_ID must be a valid u64"@,
            },
    {
        match self {
            ConfigError::TokenMissing => "DISCORD_TOKEN must be set",
            ConfigError::ForumChannelMissing => "FORUM_CHANNEL_ID must be set",
            ConfigError::ForumChannelInvalid => "FORUM_CHANNEL_ID must be a valid u64",
            ConfigError::RoleMissing => "ROLE_ID must be set",
            ConfigError::RoleInvalid => "ROLE_ID must be a valid u64",
        }
    }
}

/// The first thing that is wrong with the three settings, if any is: the
/// token is looked at first, then the forum channel, then the staff role.
pub open spec fn config_fault(
    token: Option<String>,
    forum_channel_id: Option<String>,
    role_id: Option<String>,
) -> Option<ConfigError> {
    if token is None {
        Some(ConfigError::TokenMissing)
    } else if forum_channel_id is None {
        Some(ConfigError::ForumChannelMissing)
    } else if parse_decimal(forum_channel_id->0@) is None {
        Some(ConfigError::ForumChannelInvalid)
    } else if role_id is None {
        Some(ConfigError::RoleMissing)
    } else if parse_decimal(role_id->0@) is None {
        Some(ConfigError::RoleInvalid)
    } else {
        None
    }
}

impl Config {
    /// Builds the settings from the values of `DISCORD_TOKEN`,
    /// `FORUM_CHANNEL_ID` and `ROLE_ID`, each `None` where it is not set.
    /// The two identities are read as decimal numbers.
    pub fn get(
        token: Option<String>,
        forum_channel_id: Option<String>,
        role_id: Option<String>,
    ) -> (r: Result<Config, ConfigError>)
        ensures
            match r {
                Ok(config) => {
                    &&& config_fault(token, forum_channel_id, role_id) is None
                    &&& config.token@ == token->0@
                    &&& Some(config.forum_channel_id) == parse_decimal(forum_channel_id->0@)
                    &&& Some(config.role_id) == parse_decimal(role_id->0@)
                },
                Err(e) => config_fault(token, forum_channel_id, role_id) == Some(e),
            },
    {
        let token = match token {
            Some(token) => token,
            None => { return Err(ConfigError::TokenMissing); },
        };
        let forum_text = match forum_channel_id {
            Some(text) => text,
            None => { return Err(ConfigError::ForumChannelMissing); },
        };
        let forum_chars = chars_of(forum_text.as_str());
        assert(forum_chars@.subrange(0, forum_chars@.len() as int) =~= forum_chars@);
        let forum = match parse_u64(&forum_chars, 0, forum_chars.len()) {
            Some(forum) => forum,
            None => { return Err(ConfigError::ForumChannelInvalid); },
        };
        let role_text = match role_id {
            Some(text) => text,
            None => { return Err(ConfigError::RoleMissing); },
        };
        let role_chars = chars_of(role_text.as_str());
        assert(role_chars@.subrange(0, role_chars@.len() as int) =~= role_chars@);
        let role = match parse_u64(&role_chars, 0, role_chars.len()) {
            Some(role) => role,
            None => { return Err(ConfigError::RoleInvalid); },
        };
        Ok(Config { token, forum_channel_id: forum, role_id: role })
    }
}

} // verus!
