//! The texts that the bot writes.
//!
//! The opening message of a thread names the correspondent in the two forms
//! that the recovery reads back.

use crate::text::{decimal, decimal_text};
use vstd::prelude::*;

verus! {

/// The mention of a user: `<@`, the user's number, `>`.
pub open spec fn mention_text(user: u64) -> Seq<char> {
    "<@"@ + decimal(user as nat) + ">"@
}

/// The title of the thread of the correspondent called `name`.
pub open spec fn thread_title(name: Seq<char>) -> Seq<char> {
    "Modmail from "@ + name
}

/// The opening message of the thread of `user`: a mention of the staff role,
/// a mention of the correspondent, and the correspondent's number in the marker.
pub open spec fn opening_message(role: u64, user: u64) -> Seq<char> {
    "<@&"@ + decimal(role as nat) + "> New modmail from "@ + mention_text(user) + " (ID: "@
        + decimal(user as nat) + ")"@
}

/// What is passed on of a message: its text, or a note in its place where
/// the message is nothing but attachments.
pub open spec fn relay_body(content: Seq<char>, attachments: nat) -> Seq<char> {
    if content.len() == 0 && attachments > 0 {
        "Sent an attachment"@
    } else {
        content
    }
}

/// A correspondent's words as the staff reads them.
pub open spec fn user_relay_text(user: u64, body: Seq<char>) -> Seq<char> {
    "(**User**) "@ + mention_text(user) + ": **"@ + body + "**"@
}

/// The staff's words as the correspondent reads them.
pub open spec fn staff_relay_text(name: Seq<char>, body: Seq<char>) -> Seq<char> {
    "(**Staff**) "@ + name + ": **"@ + body + "**"@
}

/// The text of a slash command: what was given, or a note that nothing was.
pub open spec fn command_content(given: Option<Seq<char>>) -> Seq<char> {
    match given {
        Some(text) => text,
        None => "No content provided"@,
    }
}

/// Writes the mention of `user`, by `Mentionable::mention` of serenity's
/// `UserId` and the `Display` of the `Mention` that it returns: the
/// characters `<@`, the number in decimal notation, and `>`. Zero is no
/// identity; `UserId::new` panics on it.
#[verifier::external_body]
fn user_mention(user: u64) -> (text: String)
    requires
        user != 0,
    ensures
        text@ == mention_text(user),
{
    let id = serenity::model::id::UserId::new(user);
    serenity::model::mention::Mentionable::mention(&id).to_string()
}

/// Writes the number of `user`, by the `Display` of serenity's `UserId`,
/// which is that of the number it holds: decimal notation. Zero is no
/// identity; `UserId::new` panics on it.
#[verifier::external_body]
fn user_id_text(user: u64) -> (text: String)
    requires
        user != 0,
    ensures
        text@ == decimal(user as nat),
{
    serenity::model::id::UserId::new(user).to_string()
}

/// Writes the title of the thread of the correspondent called `name`.
pub fn thread_title_text(name: &str) -> (text: String)
    ensures
        text@ == thread_title(name@),
{
    let mut text = String::from_str("Modmail from ");
    text.append(name);
    text
}

/// Writes the opening message of the thread of `user`.
pub fn opening_message_text(role: u64, user: u64) -> (text: String)
    requires
        user != 0,
    ensures
        text@ == opening_message(role, user),
{
    let mut text = String::from_str("<@&");
    text.append(decimal_text(role).as_str());
    text.append("> New modmail from ");
    text.append(user_mention(user).as_str());
    text.append(" (ID: ");
    text.append(user_id_text(user).as_str());
    text.append(")");
    assert(text@ =~= opening_message(role, user));
    text
}

/// Writes what is passed on of a message with this text and this many
/// attachments.
pub fn relay_body_text(content: &str, attachments: usize) -> (text: String)
    ensures
        text@ == relay_body(content@, attachments as nat),
{
    if content.is_empty() && attachments > 0 {
        String::from_str("Sent an attachment")
    } else {
        String::from_str(content)
    }
}

/// Writes a correspondent's words for the staff.
pub fn user_relay(user: u64, body: &str) -> (text: String)
    requires
        user != 0,
    ensures
        text@ == user_relay_text(user, body@),
{
    let mut text = String::from_str("(**User**) ");
    text.append(user_mention(user).as_str());
    text.append(": **");
    text.append(body);
    text.append("**");
    assert(text@ =~= user_relay_text(user, body@));
    text
}

/// Writes the staff's words for the correspondent.
pub fn staff_relay(name: &str, body: &str) -> (text: String)
    ensures
        text@ == staff_relay_text(name@, body@),
{
    let mut text = String::from_str("(**Staff**) ");
    text.append(name);
    text.append(": **");
    text.append(body);
    text.append("**");
    assert(text@ =~= staff_relay_text(name@, body@));
    text
}

} // verus!
