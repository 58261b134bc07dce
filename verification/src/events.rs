//! Telling the events of the platform apart: which command was given, and
//! which messages are relayed.

use vstd::prelude::*;

verus! {

/// The commands that the bot knows.
#[derive(Debug, Clone, Copy, PartialEq, Eq)]
pub enum CommandKind {
    /// Send a message to the staff.
    Modmail,
    /// Close the thread in which the command is given.
    Close,
    /// Any other name.
    Unknown,
}

/// Where a message is to go.
#[derive(Debug, Clone, Copy, PartialEq, Eq)]
pub enum Route {
    /// A private message: it goes to the correspondent's thread.
    Private,
    /// A message in a public thread: it goes to the thread's correspondent.
    Thread,
    /// Nothing is done with it.
    Ignored,
}

/// The kinds of channel that the routing tells apart.
#[derive(Debug, Clone, Copy, PartialEq, Eq)]
pub enum ChannelKind {
    PublicThread,
    Other,
}

/// The command that is called `name`.
pub open spec fn command_named(name: Seq<char>) -> CommandKind {
    if name == "modmail"@ {
        CommandKind::Modmail
    } else if name == "close"@ {
        CommandKind::Close
    } else {
        CommandKind::Unknown
    }
}

/// The answer to a command that the bot does not know.
pub open spec fn unknown_command_reply() -> Seq<char> {
    "Not implemented"@
}

/// Where a message goes: `guild` is the guild that it was sent in, if any;
/// `channel` is the kind of its channel, where the platform could tell and
/// the channel belongs to a guild.
pub open spec fn route_of(guild: Option<u64>, channel: Option<ChannelKind>) -> Route {
    if guild is None {
        Route::Private
    } else if channel == Some(ChannelKind::PublicThread) {
        Route::Thread
    } else {
        Route::Ignored
    }
}

/// Tells which command `name` calls.
pub fn command_kind(name: &str) -> (kind: CommandKind)
    ensures
        kind == command_named(name@),
{
    let name = String::from_str(name);
    if name == String::from_str("modmail") {
        CommandKind::Modmail
    } else if name == String::from_str("close") {
        CommandKind::Close
    } else {
        CommandKind::Unknown
    }
}

/// Writes the answer to a command that the bot does not know.
pub fn unknown_command_text() -> (text: String)
    ensures
        text@ == unknown_command_reply(),
{
    String::from_str("Not implemented")
}

/// Whether the kind of the channel has to be asked for before a message
/// sent in `guild` can be routed: it has to for every message of a guild.
pub fn needs_channel_kind(guild: Option<u64>) -> (b: bool)
    ensures
        b == (guild is Some),
{
    guild.is_some()
}

/// Tells where a message goes.
pub fn route_message(guild: Option<u64>, channel: Option<ChannelKind>) -> (route: Route)
    ensures
        route == route_of(guild, channel),
{
    match guild {
        None => Route::Private,
        Some(_) => match channel {
            Some(ChannelKind::PublicThread) => Route::Thread,
            _ => Route::Ignored,
        },
    }
}

} // verus!
