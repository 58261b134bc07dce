//! What the engine and the chat platform tell each other.
//!
//! The engine never talks to the platform itself. It hands out an [`Action`],
//! the caller performs it, and the caller hands back the [`Event`] that the
//! platform answered with. Identities are the platform's numbers.

use crate::directory::Sessions;
use vstd::prelude::*;

verus! {

/// A user of the platform: the number and the display name.
#[derive(Debug, Clone, PartialEq, Eq)]
pub struct Correspondent {
    pub id: u64,
    pub name: String,
}

/// A user of the platform, as a mathematical value.
pub struct CorrespondentView {
    pub id: u64,
    pub name: Seq<char>,
}

impl View for Correspondent {
    type V = CorrespondentView;

    open spec fn view(&self) -> CorrespondentView {
        CorrespondentView { id: self.id, name: self.name@ }
    }
}

/// A message that arrived, in private or in a thread.
#[derive(Debug, Clone, PartialEq, Eq)]
pub struct IncomingMessage {
    /// Who wrote it.
    pub author: Correspondent,
    /// The channel it arrived in: a private channel or a thread.
    pub channel_id: u64,
    /// Its text, which is empty for a message of attachments only.
    pub content: String,
    /// How many attachments it carries.
    pub attachments: usize,
}

/// A message that arrived, as a mathematical value.
pub struct MessageView {
    pub author: CorrespondentView,
    pub channel_id: u64,
    pub content: Seq<char>,
    pub attachments: nat,
}

impl View for IncomingMessage {
    type V = MessageView;

    open spec fn view(&self) -> MessageView {
        MessageView {
            author: self.author@,
            channel_id: self.channel_id,
            content: self.content@,
            attachments: self.attachments as nat,
        }
    }
}

/// What the platform answered when a channel was asked for.
#[derive(Debug, Clone, Copy, PartialEq, Eq)]
pub enum ChannelLookup {
    /// The channel could not be had.
    Missing,
    /// The channel exists, outside any guild.
    Private,
    /// A channel of a guild; `forum` tells whether it is a forum.
    Guild { id: u64, guild_id: u64, forum: bool },
}

/// What went wrong while a thread was opened or the directory was rebuilt.
#[derive(Debug, Clone, PartialEq, Eq)]
pub enum RelayError {
    /// The configured forum channel could not be had, or is no guild channel.
    ForumMissing,
    /// The configured channel is no forum.
    NotForum,
    /// The platform refused to open the thread.
    ThreadCreation { reason: String },
    /// The platform did not list the active threads.
    ThreadListing { reason: String },
    /// An event arrived that does not answer the action in flight.
    OutOfTurn,
}

/// An error, as a mathematical value.
pub enum RelayErrorView {
    ForumMissing,
    NotForum,
    ThreadCreation { reason: Seq<char> },
    ThreadListing { reason: Seq<char> },
    OutOfTurn,
}

impl View for RelayError {
    type V = RelayErrorView;

    open spec fn view(&self) -> RelayErrorView {
        match *self {
            RelayError::ForumMissing => RelayErrorView::ForumMissing,
            RelayError::NotForum => RelayErrorView::NotForum,
            RelayError::ThreadCreation { reason } => RelayErrorView::ThreadCreation {
                reason: reason@,
            },
            RelayError::ThreadListing { reason } => RelayErrorView::ThreadListing {
                reason: reason@,
            },
            RelayError::OutOfTurn => RelayErrorView::OutOfTurn,
        }
    }
}

/// The error in words.
pub open spec fn error_text(error: RelayErrorView) -> Seq<char> {
    match error {
        RelayErrorView::ForumMissing => "Could not find the specified forum channel"@,
        RelayErrorView::NotForum => "The specified channel is not a forum channel"@,
        RelayErrorView::ThreadCreation { reason } => "Error creating modmail thread: "@ + reason,
        RelayErrorView::ThreadListing { reason } => "Failed to fetch threads: "@ + reason,
        RelayErrorView::OutOfTurn => "Unexpected answer from the platform"@,
    }
}

impl RelayError {
    /// The error in words.
    pub fn message(&self) -> (text: String)
        ensures
            text@ == error_text(self@),
    {
        match self {
            RelayError::ForumMissing => String::from_str(
                "Could not find the specified forum channel",
            ),
            RelayError::NotForum => String::from_str(
                "The specified channel is not a forum channel",
            ),
            RelayError::ThreadCreation { reason } => {
                let mut text = String::from_str("Error creating modmail thread: ");
                text.append(reason.as_str());
                text
            },
            RelayError::ThreadListing { reason } => {
                let mut text = String::from_str("Failed to fetch threads: ");
                text.append(reason.as_str());
                text
            },
            RelayError::OutOfTurn => String::from_str("Unexpected answer from the platform"),
        }
    }
}

/// What the platform answered to the last action.
#[derive(Debug, Clone, PartialEq, Eq)]
pub enum Event {
    /// Nothing yet: the task starts.
    Begin,
    /// The bot's own identity.
    SelfIdentity { user: u64 },
    /// Whether the thread that was asked for still exists.
    ThreadChecked { exists: bool },
    /// The answer to the lookup of the forum channel.
    ForumFetched { lookup: ChannelLookup },
    /// The thread that was opened.
    ThreadCreated { thread: u64 },
    /// No thread was opened, and why.
    ThreadNotCreated { reason: String },
    /// The pinning was tried; nothing depends on how it went.
    PinAttempted,
    /// A message was sent, or could not be.
    Sent { delivered: bool },
    /// The private channel with the correspondent.
    DmOpened { channel: u64 },
    /// The correspondent takes no private messages.
    DmRefused,
    /// The thread is gone.
    Deleted,
    /// The thread could not be deleted, and why.
    NotDeleted { reason: String },
}

/// An event, as a mathematical value.
pub enum EventView {
    Begin,
    SelfIdentity { user: u64 },
    ThreadChecked { exists: bool },
    ForumFetched { lookup: ChannelLookup },
    ThreadCreated { thread: u64 },
    ThreadNotCreated { reason: Seq<char> },
    PinAttempted,
    Sent { delivered: bool },
    DmOpened { channel: u64 },
    DmRefused,
    Deleted,
    NotDeleted { reason: Seq<char> },
}

impl View for Event {
    type V = EventView;

    open spec fn view(&self) -> EventView {
        match *self {
            Event::Begin => EventView::Begin,
            Event::SelfIdentity { user } => EventView::SelfIdentity { user },
            Event::ThreadChecked { exists } => EventView::ThreadChecked { exists },
            Event::ForumFetched { lookup } => EventView::ForumFetched { lookup },
            Event::ThreadCreated { thread } => EventView::ThreadCreated { thread },
            Event::ThreadNotCreated { reason } => EventView::ThreadNotCreated { reason: reason@ },
            Event::PinAttempted => EventView::PinAttempted,
            Event::Sent { delivered } => EventView::Sent { delivered },
            Event::DmOpened { channel } => EventView::DmOpened { channel },
            Event::DmRefused => EventView::DmRefused,
            Event::Deleted => EventView::Deleted,
            Event::NotDeleted { reason } => EventView::NotDeleted { reason: reason@ },
        }
    }
}

/// What the caller is to do next on the platform.
#[derive(Debug, Clone, PartialEq, Eq)]
pub enum Action {
    /// Ask for the bot's own identity.
    IdentifySelf,
    /// Ask whether `thread` still exists.
    CheckThread { thread: u64 },
    /// Look up the forum channel.
    FetchForum { channel: u64 },
    /// Open a thread in the forum, with this title and opening message.
    CreateThread { forum: u64, title: String, opening: String },
    /// Pin the first message of `thread`.
    PinFirstMessage { thread: u64 },
    /// Send `text` to `channel`, with the attachments of the message that is
    /// being handled uploaded again.
    Relay { channel: u64, text: String },
    /// Send `text` to `channel`.
    Say { channel: u64, text: String },
    /// Open the private channel of `user`.
    OpenDm { user: u64 },
    /// Delete `thread`.
    DeleteThread { thread: u64 },
    /// The task is over.
    Done,
    /// The task is over; answer the command with `text`.
    Reply { text: String },
    /// The task is over, without success.
    Failed { error: RelayError },
}

/// An action, as a mathematical value.
pub enum ActionView {
    IdentifySelf,
    CheckThread { thread: u64 },
    FetchForum { channel: u64 },
    CreateThread { forum: u64, title: Seq<char>, opening: Seq<char> },
    PinFirstMessage { thread: u64 },
    Relay { channel: u64, text: Seq<char> },
    Say { channel: u64, text: Seq<char> },
    OpenDm { user: u64 },
    DeleteThread { thread: u64 },
    Done,
    Reply { text: Seq<char> },
    Failed { error: RelayErrorView },
}

impl View for Action {
    type V = ActionView;

    open spec fn view(&self) -> ActionView {
        match *self {
            Action::IdentifySelf => ActionView::IdentifySelf,
            Action::CheckThread { thread } => ActionView::CheckThread { thread },
            Action::FetchForum { channel } => ActionView::FetchForum { channel },
            Action::CreateThread { forum, title, opening } => ActionView::CreateThread {
                forum,
                title: title@,
                opening: opening@,
            },
            Action::PinFirstMessage { thread } => ActionView::PinFirstMessage { thread },
            Action::Relay { channel, text } => ActionView::Relay { channel, text: text@ },
            Action::Say { channel, text } => ActionView::Say { channel, text: text@ },
            Action::OpenDm { user } => ActionView::OpenDm { user },
            Action::DeleteThread { thread } => ActionView::DeleteThread { thread },
            Action::Done => ActionView::Done,
            Action::Reply { text } => ActionView::Reply { text: text@ },
            Action::Failed { error } => ActionView::Failed { error: error@ },
        }
    }
}

/// The outcome of one step of a task: the directory after it, the phase that
/// the task is in, and what is to be done next.
pub struct Turn<P> {
    pub sessions: Sessions,
    pub phase: P,
    pub action: ActionView,
}

impl ActionView {
    /// Whether the action ends the task.
    pub open spec fn is_final(self) -> bool {
        self is Done || self is Reply || self is Failed
    }
}

impl Action {
    /// Whether the action ends the task: nothing is to be performed, and no
    /// further event is expected.
    pub fn is_final(&self) -> (b: bool)
        ensures
            b == self@.is_final(),
    {
        match self {
            Action::Done => true,
            Action::Reply { .. } => true,
            Action::Failed { .. } => true,
            _ => false,
        }
    }
}

} // verus!
