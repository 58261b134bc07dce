//! The relay engine: a private message goes to the correspondent's thread,
//! a message in a thread goes to the correspondent.
//!
//! Each task is a small machine. A step takes the phase that the task is in
//! and the event that the platform answered with, and gives the next phase
//! and the next action. The directory is touched within a step only, never
//! while the platform is waited for. An event that does not answer the action
//! in flight ends the task.

use crate::compose::{
    command_content, opening_message, opening_message_text, relay_body, relay_body_text,
    staff_relay, staff_relay_text, thread_title, thread_title_text, user_relay, user_relay_text,
};
use crate::config::Config;
use crate::directory::{ModmailState, Sessions};
use crate::platform::{
    error_text, Action, ActionView, ChannelLookup, Correspondent, CorrespondentView, Event,
    EventView, IncomingMessage, MessageView, RelayError, RelayErrorView, Turn,
};
use vstd::prelude::*;

verus! {

/// Where the opening of a thread stands.
#[derive(Debug, Clone, Copy, PartialEq, Eq)]
pub enum CreatePhase {
    /// Nothing was done yet.
    Start,
    /// The directory named `thread`; the platform is asked whether it exists.
    Recheck { thread: u64 },
    /// The forum channel is being looked up.
    Forum,
    /// The thread is being opened.
    Post,
    /// `thread` was opened; its first message is being pinned.
    Pin { thread: u64 },
}

/// What a step of the opening of a thread gives.
#[derive(Debug, Clone, PartialEq, Eq)]
pub enum Creation {
    /// More is to be done: perform `action`, and come back in `phase`.
    Pending { phase: CreatePhase, action: Action },
    /// The correspondent has this thread.
    Ready { thread: u64 },
    /// No thread could be had.
    Failed { error: RelayError },
}

/// A step of the opening of a thread, as a mathematical value.
pub enum CreationView {
    Pending { phase: CreatePhase, action: ActionView },
    Ready { thread: u64 },
    Failed { error: RelayErrorView },
}

impl View for Creation {
    type V = CreationView;

    open spec fn view(&self) -> CreationView {
        match *self {
            Creation::Pending { phase, action } => CreationView::Pending { phase, action: action@ },
            Creation::Ready { thread } => CreationView::Ready { thread },
            Creation::Failed { error } => CreationView::Failed { error: error@ },
        }
    }
}

/// Where the handling of a private message stands.
#[derive(Debug, Clone, Copy, PartialEq, Eq)]
pub enum DmPhase {
    Start,
    /// The bot's own identity is being asked for.
    Identify,
    /// The directory named `thread`; the platform is asked whether it exists.
    Check { thread: u64 },
    /// A thread is being opened.
    Create { phase: CreatePhase },
    /// The message is on its way to the thread.
    Forward,
    /// The correspondent is being told that the message arrived.
    Acknowledge,
    Finished,
}

/// Where the handling of a message in a thread stands.
#[derive(Debug, Clone, Copy, PartialEq, Eq)]
pub enum ThreadPhase {
    Start,
    /// The bot's own identity is being asked for.
    Identify,
    /// The private channel of the correspondent is being opened.
    Dm,
    /// The message is on its way to the correspondent.
    Deliver,
    /// The staff is being told how it went.
    Notice,
    Finished,
}

/// Where the handling of the command that sends a message to the staff stands.
#[derive(Debug, Clone, Copy, PartialEq, Eq)]
pub enum ModmailPhase {
    Start,
    /// The directory named `thread`; the platform is asked whether it exists.
    Check { thread: u64 },
    /// A thread is being opened.
    Create { phase: CreatePhase },
    /// The message is on its way to the thread.
    Post,
    Finished,
}

/// A slash command as it arrived: who gave it, and the text that came with it.
#[derive(Debug, Clone, PartialEq, Eq)]
pub struct CommandRequest {
    pub user: Correspondent,
    pub content: Option<String>,
}

/// What the correspondent reads after a private message was passed on.
pub open spec fn acknowledgement() -> Seq<char> {
    "Your message has been received and forwarded to the staff. They will respond as soon as possible."@
}

/// What the staff reads where the correspondent takes no private messages.
pub open spec fn dm_refused_notice() -> Seq<char> {
    "Unable to send a message to this user. They may have DMs disabled or have blocked the bot."@
}

/// What the staff reads after a message reached the correspondent, or did not.
pub open spec fn delivery_notice(delivered: bool) -> Seq<char> {
    if delivered {
        "Your message has been sent to the user."@
    } else {
        "Failed to send the message to the user. They may have DMs disabled."@
    }
}

/// The answer to the command after its message reached the thread, or did not.
pub open spec fn modmail_reply(delivered: bool) -> Seq<char> {
    if delivered {
        "Modmail sent successfully! You can now continue the conversation in DMs."@
    } else {
        "Error sending message to modmail thread."@
    }
}

/// The answer to the command where no thread could be had.
pub open spec fn modmail_failure(error: RelayErrorView) -> Seq<char> {
    "Error creating modmail thread: "@ + error_text(error)
}

/// One step of the opening of a thread for `user`.
///
/// The directory is asked first: a thread that it names and that still
/// exists is taken. Else the forum is looked up, the thread is opened with
/// its title and opening message, its first message is pinned, and the pair
/// enters the directory.
pub open spec fn create_next(
    sessions: Sessions,
    forum: u64,
    role: u64,
    user: CorrespondentView,
    phase: CreatePhase,
    event: EventView,
) -> (Sessions, CreationView) {
    match (phase, event) {
        (CreatePhase::Start, EventView::Begin) => if sessions.by_user.contains_key(user.id) {
            let thread = sessions.by_user[user.id];
            (
                sessions,
                CreationView::Pending {
                    phase: CreatePhase::Recheck { thread },
                    action: ActionView::CheckThread { thread },
                },
            )
        } else {
            (
                sessions,
                CreationView::Pending {
                    phase: CreatePhase::Forum,
                    action: ActionView::FetchForum { channel: forum },
                },
            )
        },
        (CreatePhase::Recheck { thread }, EventView::ThreadChecked { exists }) => if exists {
            (sessions, CreationView::Ready { thread })
        } else {
            (
                sessions,
                CreationView::Pending {
                    phase: CreatePhase::Forum,
                    action: ActionView::FetchForum { channel: forum },
                },
            )
        },
        (CreatePhase::Forum, EventView::ForumFetched { lookup }) => match lookup {
            ChannelLookup::Guild { id, guild_id, forum: is_forum } => if is_forum {
                (
                    sessions,
                    CreationView::Pending {
                        phase: CreatePhase::Post,
                        action: ActionView::CreateThread {
                            forum: id,
                            title: thread_title(user.name),
                            opening: opening_message(role, user.id),
                        },
                    },
                )
            } else {
                (sessions, CreationView::Failed { error: RelayErrorView::NotForum })
            },
            _ => (sessions, CreationView::Failed { error: RelayErrorView::ForumMissing }),
        },
        (CreatePhase::Post, EventView::ThreadCreated { thread }) => (
            sessions,
            CreationView::Pending {
                phase: CreatePhase::Pin { thread },
                action: ActionView::PinFirstMessage { thread },
            },
        ),
        (CreatePhase::Post, EventView::ThreadNotCreated { reason }) => (
            sessions,
            CreationView::Failed { error: RelayErrorView::ThreadCreation { reason } },
        ),
        (CreatePhase::Pin { thread }, EventView::PinAttempted) => (
            sessions.insert(user.id, thread),
            CreationView::Ready { thread },
        ),
        _ => (sessions, CreationView::Failed { error: RelayErrorView::OutOfTurn }),
    }
}

/// The turn that ends a task because of `error`.
pub open spec fn failed_turn<P>(sessions: Sessions, finished: P, error: RelayErrorView) -> Turn<P> {
    Turn { sessions, phase: finished, action: ActionView::Failed { error } }
}

/// What the handling of a private message does with a step of the opening of
/// a thread: it goes on with it, passes the message on to the thread that is
/// ready, or gives up.
pub open spec fn dm_after_creation(msg: MessageView, step: (Sessions, CreationView)) -> Turn<
    DmPhase,
> {
    match step.1 {
        CreationView::Pending { phase, action } => Turn {
            sessions: step.0,
            phase: DmPhase::Create { phase },
            action,
        },
        CreationView::Ready { thread } => dm_forward(step.0, msg, thread),
        CreationView::Failed { error } => failed_turn(step.0, DmPhase::Finished, error),
    }
}

/// The turn that passes the private message `msg` on to `thread`.
pub open spec fn dm_forward(sessions: Sessions, msg: MessageView, thread: u64) -> Turn<DmPhase> {
    Turn {
        sessions,
        phase: DmPhase::Forward,
        action: ActionView::Relay {
            channel: thread,
            text: user_relay_text(msg.author.id, relay_body(msg.content, msg.attachments)),
        },
    }
}

/// One step of the handling of the private message `msg`.
///
/// A message of the bot itself is dropped. The correspondent's thread is
/// taken from the directory if the platform still has it, else a thread is
/// opened. The message goes to the thread, and the correspondent is told so,
/// however the sending went.
pub open spec fn dm_next(
    sessions: Sessions,
    forum: u64,
    role: u64,
    msg: MessageView,
    phase: DmPhase,
    event: EventView,
) -> Turn<DmPhase> {
    match (phase, event) {
        (DmPhase::Start, EventView::Begin) => Turn {
            sessions,
            phase: DmPhase::Identify,
            action: ActionView::IdentifySelf,
        },
        (DmPhase::Identify, EventView::SelfIdentity { user }) => if user == msg.author.id {
            Turn { sessions, phase: DmPhase::Finished, action: ActionView::Done }
        } else if sessions.by_user.contains_key(msg.author.id) {
            let thread = sessions.by_user[msg.author.id];
            Turn {
                sessions,
                phase: DmPhase::Check { thread },
                action: ActionView::CheckThread { thread },
            }
        } else {
            dm_after_creation(
                msg,
                create_next(sessions, forum, role, msg.author, CreatePhase::Start, EventView::Begin),
            )
        },
        (DmPhase::Check { thread }, EventView::ThreadChecked { exists }) => if exists {
            dm_forward(sessions, msg, thread)
        } else {
            dm_after_creation(
                msg,
                create_next(sessions, forum, role, msg.author, CreatePhase::Start, EventView::Begin),
            )
        },
        (DmPhase::Create { phase }, event) => dm_after_creation(
            msg,
            create_next(sessions, forum, role, msg.author, phase, event),
        ),
        (DmPhase::Forward, EventView::Sent { delivered }) => Turn {
            sessions,
            phase: DmPhase::Acknowledge,
            action: ActionView::Say { channel: msg.channel_id, text: acknowledgement() },
        },
        (DmPhase::Acknowledge, EventView::Sent { delivered }) => Turn {
            sessions,
            phase: DmPhase::Finished,
            action: ActionView::Done,
        },
        _ => failed_turn(sessions, DmPhase::Finished, RelayErrorView::OutOfTurn),
    }
}

/// One step of the handling of `msg`, a message that was posted in a thread.
///
/// A message of the bot itself is dropped, and so is one in a thread that
/// belongs to no session. Else the message goes to the correspondent's
/// private channel, and the staff reads in the thread whether it arrived.
pub open spec fn thread_next(
    sessions: Sessions,
    msg: MessageView,
    phase: ThreadPhase,
    event: EventView,
) -> Turn<ThreadPhase> {
    match (phase, event) {
        (ThreadPhase::Start, EventView::Begin) => Turn {
            sessions,
            phase: ThreadPhase::Identify,
            action: ActionView::IdentifySelf,
        },
        (ThreadPhase::Identify, EventView::SelfIdentity { user }) => if user == msg.author.id
            || !sessions.by_thread.contains_key(msg.channel_id) {
            Turn { sessions, phase: ThreadPhase::Finished, action: ActionView::Done }
        } else {
            Turn {
                sessions,
                phase: ThreadPhase::Dm,
                action: ActionView::OpenDm { user: sessions.by_thread[msg.channel_id] },
            }
        },
        (ThreadPhase::Dm, EventView::DmOpened { channel }) => Turn {
            sessions,
            phase: ThreadPhase::Deliver,
            action: ActionView::Relay {
                channel,
                text: staff_relay_text(msg.author.name, relay_body(msg.content, msg.attachments)),
            },
        },
        (ThreadPhase::Dm, EventView::DmRefused) => Turn {
            sessions,
            phase: ThreadPhase::Notice,
            action: ActionView::Say { channel: msg.channel_id, text: dm_refused_notice() },
        },
        (ThreadPhase::Deliver, EventView::Sent { delivered }) => Turn {
            sessions,
            phase: ThreadPhase::Notice,
            action: ActionView::Say { channel: msg.channel_id, text: delivery_notice(delivered) },
        },
        (ThreadPhase::Notice, EventView::Sent { delivered }) => Turn {
            sessions,
            phase: ThreadPhase::Finished,
            action: ActionView::Done,
        },
        _ => failed_turn(sessions, ThreadPhase::Finished, RelayErrorView::OutOfTurn),
    }
}

/// What the command does with a step of the opening of a thread.
pub open spec fn modmail_after_creation(
    user: CorrespondentView,
    content: Seq<char>,
    step: (Sessions, CreationView),
) -> Turn<ModmailPhase> {
    match step.1 {
        CreationView::Pending { phase, action } => Turn {
            sessions: step.0,
            phase: ModmailPhase::Create { phase },
            action,
        },
        CreationView::Ready { thread } => modmail_post(step.0, user, content, thread),
        CreationView::Failed { error } => Turn {
            sessions: step.0,
            phase: ModmailPhase::Finished,
            action: ActionView::Reply { text: modmail_failure(error) },
        },
    }
}

/// The turn that posts the text of the command in `thread`.
pub open spec fn modmail_post(
    sessions: Sessions,
    user: CorrespondentView,
    content: Seq<char>,
    thread: u64,
) -> Turn<ModmailPhase> {
    Turn {
        sessions,
        phase: ModmailPhase::Post,
        action: ActionView::Say { channel: thread, text: user_relay_text(user.id, content) },
    }
}

/// One step of the command by which `user` sends `content` to the staff.
///
/// The thread is found or opened as for a private message; the text is
/// posted there, and the answer to the command says how that went.
pub open spec fn modmail_next(
    sessions: Sessions,
    forum: u64,
    role: u64,
    user: CorrespondentView,
    content: Seq<char>,
    phase: ModmailPhase,
    event: EventView,
) -> Turn<ModmailPhase> {
    match (phase, event) {
        (ModmailPhase::Start, EventView::Begin) => if sessions.by_user.contains_key(user.id) {
            let thread = sessions.by_user[user.id];
            Turn {
                sessions,
                phase: ModmailPhase::Check { thread },
                action: ActionView::CheckThread { thread },
            }
        } else {
            modmail_after_creation(
                user,
                content,
                create_next(sessions, forum, role, user, CreatePhase::Start, EventView::Begin),
            )
        },
        (ModmailPhase::Check { thread }, EventView::ThreadChecked { exists }) => if exists {
            modmail_post(sessions, user, content, thread)
        } else {
            modmail_after_creation(
                user,
                content,
                create_next(sessions, forum, role, user, CreatePhase::Start, EventView::Begin),
            )
        },
        (ModmailPhase::Create { phase }, event) => modmail_after_creation(
            user,
            content,
            create_next(sessions, forum, role, user, phase, event),
        ),
        (ModmailPhase::Post, EventView::Sent { delivered }) => Turn {
            sessions,
            phase: ModmailPhase::Finished,
            action: ActionView::Reply { text: modmail_reply(delivered) },
        },
        _ => Turn {
            sessions,
            phase: ModmailPhase::Finished,
            action: ActionView::Reply { text: error_text(RelayErrorView::OutOfTurn) },
        },
    }
}

/// The handling of the private message `msg` over the events `events`, from
/// `phase` on: the directory at the end, and the actions that were handed
/// out, one for each event.
pub open spec fn dm_run(
    sessions: Sessions,
    forum: u64,
    role: u64,
    msg: MessageView,
    phase: DmPhase,
    events: Seq<EventView>,
) -> (Sessions, Seq<ActionView>)
    decreases events.len(),
{
    if events.len() == 0 {
        (sessions, Seq::empty())
    } else {
        let turn = dm_next(sessions, forum, role, msg, phase, events[0]);
        let rest = dm_run(turn.sessions, forum, role, msg, turn.phase, events.skip(1));
        (rest.0, seq![turn.action] + rest.1)
    }
}

/// The handling of the thread message `msg` over the events `events`, from
/// `phase` on: the actions that were handed out, one for each event.
pub open spec fn thread_run(
    sessions: Sessions,
    msg: MessageView,
    phase: ThreadPhase,
    events: Seq<EventView>,
) -> Seq<ActionView>
    decreases events.len(),
{
    if events.len() == 0 {
        Seq::empty()
    } else {
        let turn = thread_next(sessions, msg, phase, events[0]);
        seq![turn.action] + thread_run(sessions, msg, turn.phase, events.skip(1))
    }
}

/// The step that asks for the forum channel.
fn fetch_forum(config: &Config) -> (step: Creation)
    ensures
        step@ == (CreationView::Pending {
            phase: CreatePhase::Forum,
            action: ActionView::FetchForum { channel: config.forum_channel_id },
        }),
{
    Creation::Pending {
        phase: CreatePhase::Forum,
        action: Action::FetchForum { channel: config.forum_channel_id },
    }
}

/// Does one step of the opening of a thread for `user`: takes the phase that
/// the opening is in and the event that answers the action in flight, and
/// says what is to be done next, or which thread the correspondent has, or
/// why none could be had. The pair enters the directory once the thread is
/// open and the pinning of its first message was tried.
pub fn create_modmail_thread(
    state: &mut ModmailState,
    config: &Config,
    user: &Correspondent,
    phase: CreatePhase,
    event: &Event,
) -> (step: Creation)
    requires
        old(state).wf(),
        user.id != 0,
    ensures
        final(state).wf(),
        (final(state)@, step@) == create_next(
            old(state)@,
            config.forum_channel_id,
            config.role_id,
            user@,
            phase,
            event@,
        ),
{
    match phase {
        CreatePhase::Start => match event {
            Event::Begin => match state.lookup_thread(user.id) {
                Some(thread) => Creation::Pending {
                    phase: CreatePhase::Recheck { thread },
                    action: Action::CheckThread { thread },
                },
                None => fetch_forum(config),
            },
            _ => Creation::Failed { error: RelayError::OutOfTurn },
        },
        CreatePhase::Recheck { thread } => match event {
            Event::ThreadChecked { exists } => if *exists {
                Creation::Ready { thread }
            } else {
                fetch_forum(config)
            },
            _ => Creation::Failed { error: RelayError::OutOfTurn },
        },
        CreatePhase::Forum => match event {
            Event::ForumFetched { lookup } => match lookup {
                ChannelLookup::Guild { id, guild_id, forum } => if *forum {
                    Creation::Pending {
                        phase: CreatePhase::Post,
                        action: Action::CreateThread {
                            forum: *id,
                            title: thread_title_text(user.name.as_str()),
                            opening: opening_message_text(config.role_id, user.id),
                        },
                    }
                } else {
                    Creation::Failed { error: RelayError::NotForum }
                },
                _ => Creation::Failed { error: RelayError::ForumMissing },
            },
            _ => Creation::Failed { error: RelayError::OutOfTurn },
        },
        CreatePhase::Post => match event {
            Event::ThreadCreated { thread } => Creation::Pending {
                phase: CreatePhase::Pin { thread: *thread },
                action: Action::PinFirstMessage { thread: *thread },
            },
            Event::ThreadNotCreated { reason } => Creation::Failed {
                error: RelayError::ThreadCreation { reason: reason.clone() },
            },
            _ => Creation::Failed { error: RelayError::OutOfTurn },
        },
        CreatePhase::Pin { thread } => match event {
            Event::PinAttempted => {
                state.insert(user.id, thread);
                Creation::Ready { thread }
            },
            _ => Creation::Failed { error: RelayError::OutOfTurn },
        },
    }
}

/// The turn that passes `msg` on to `thread`.
fn forward_dm(msg: &IncomingMessage, thread: u64) -> (turn: (DmPhase, Action))
    requires
        msg.author.id != 0,
    ensures
        turn.0 == DmPhase::Forward,
        turn.1@ == (ActionView::Relay {
            channel: thread,
            text: user_relay_text(msg@.author.id, relay_body(msg@.content, msg@.attachments)),
        }),
{
    let body = relay_body_text(msg.content.as_str(), msg.attachments);
    (
        DmPhase::Forward,
        Action::Relay { channel: thread, text: user_relay(msg.author.id, body.as_str()) },
    )
}

/// Goes on with the private message after a step of the opening of a thread.
fn continue_dm(msg: &IncomingMessage, step: Creation) -> (turn: (DmPhase, Action))
    requires
        msg.author.id != 0,
    ensures
        forall|sessions: Sessions|
            (Turn { sessions, phase: turn.0, action: turn.1@ }) == #[trigger] dm_after_creation(
                msg@,
                (sessions, step@),
            ),
{
    match step {
        Creation::Pending { phase, action } => (DmPhase::Create { phase }, action),
        Creation::Ready { thread } => forward_dm(msg, thread),
        Creation::Failed { error } => (DmPhase::Finished, Action::Failed { error }),
    }
}

/// Does one step of the handling of the private message `msg`: takes the
/// phase that the task is in and the event that answers the action in flight,
/// and gives the next phase and the next action. The first step takes
/// `DmPhase::Start` and `Event::Begin`; the task is over when the action is
/// final.
pub fn handle_dm(
    state: &mut ModmailState,
    config: &Config,
    msg: &IncomingMessage,
    phase: DmPhase,
    event: &Event,
) -> (turn: (DmPhase, Action))
    requires
        old(state).wf(),
        msg.author.id != 0,
    ensures
        final(state).wf(),
        (Turn { sessions: final(state)@, phase: turn.0, action: turn.1@ }) == dm_next(
            old(state)@,
            config.forum_channel_id,
            config.role_id,
            msg@,
            phase,
            event@,
        ),
{
    match phase {
        DmPhase::Start => match event {
            Event::Begin => (DmPhase::Identify, Action::IdentifySelf),
            _ => (DmPhase::Finished, Action::Failed { error: RelayError::OutOfTurn }),
        },
        DmPhase::Identify => match event {
            Event::SelfIdentity { user } => {
                if *user == msg.author.id {
                    (DmPhase::Finished, Action::Done)
                } else {
                    match state.lookup_thread(msg.author.id) {
                        Some(thread) => (
                            DmPhase::Check { thread },
                            Action::CheckThread { thread },
                        ),
                        None => {
                            let step = create_modmail_thread(
                                state,
                                config,
                                &msg.author,
                                CreatePhase::Start,
                                &Event::Begin,
                            );
                            continue_dm(msg, step)
                        },
                    }
                }
            },
            _ => (DmPhase::Finished, Action::Failed { error: RelayError::OutOfTurn }),
        },
        DmPhase::Check { thread } => match event {
            Event::ThreadChecked { exists } => {
                if *exists {
                    forward_dm(msg, thread)
                } else {
                    let step = create_modmail_thread(
                        state,
                        config,
                        &msg.author,
                        CreatePhase::Start,
                        &Event::Begin,
                    );
                    continue_dm(msg, step)
                }
            },
            _ => (DmPhase::Finished, Action::Failed { error: RelayError::OutOfTurn }),
        },
        DmPhase::Create { phase } => {
            let step = create_modmail_thread(state, config, &msg.author, phase, event);
            continue_dm(msg, step)
        },
        DmPhase::Forward => match event {
            Event::Sent { delivered } => (
                DmPhase::Acknowledge,
                Action::Say {
                    channel: msg.channel_id,
                    text: String::from_str(
                        "Your message has been received and forwarded to the staff. They will respond as soon as possible.",
                    ),
                },
            ),
            _ => (DmPhase::Finished, Action::Failed { error: RelayError::OutOfTurn }),
        },
        DmPhase::Acknowledge => match event {
            Event::Sent { delivered } => (DmPhase::Finished, Action::Done),
            _ => (DmPhase::Finished, Action::Failed { error: RelayError::OutOfTurn }),
        },
        DmPhase::Finished => (DmPhase::Finished, Action::Failed { error: RelayError::OutOfTurn }),
    }
}

/// Does one step of the handling of `msg`, a message that was posted in a
/// thread: takes the phase that the task is in and the event that answers
/// the action in flight, and gives the next phase and the next action. The
/// first step takes `ThreadPhase::Start` and `Event::Begin`.
pub fn handle_thread_message(
    state: &ModmailState,
    msg: &IncomingMessage,
    phase: ThreadPhase,
    event: &Event,
) -> (turn: (ThreadPhase, Action))
    ensures
        (Turn { sessions: state@, phase: turn.0, action: turn.1@ }) == thread_next(
            state@,
            msg@,
            phase,
            event@,
        ),
{
    match phase {
        ThreadPhase::Start => match event {
            Event::Begin => (ThreadPhase::Identify, Action::IdentifySelf),
            _ => (ThreadPhase::Finished, Action::Failed { error: RelayError::OutOfTurn }),
        },
        ThreadPhase::Identify => match event {
            Event::SelfIdentity { user } => {
                if *user == msg.author.id {
                    (ThreadPhase::Finished, Action::Done)
                } else {
                    match state.lookup_correspondent(msg.channel_id) {
                        Some(correspondent) => (
                            ThreadPhase::Dm,
                            Action::OpenDm { user: correspondent },
                        ),
                        None => (ThreadPhase::Finished, Action::Done),
                    }
                }
            },
            _ => (ThreadPhase::Finished, Action::Failed { error: RelayError::OutOfTurn }),
        },
        ThreadPhase::Dm => match event {
            Event::DmOpened { channel } => {
                let body = relay_body_text(msg.content.as_str(), msg.attachments);
                (
                    ThreadPhase::Deliver,
                    Action::Relay {
                        channel: *channel,
                        text: staff_relay(msg.author.name.as_str(), body.as_str()),
                    },
                )
            },
            Event::DmRefused => (
                ThreadPhase::Notice,
                Action::Say {
                    channel: msg.channel_id,
                    text: String::from_str(
                        "Unable to send a message to this user. They may have DMs disabled or have blocked the bot.",
                    ),
                },
            ),
            _ => (ThreadPhase::Finished, Action::Failed { error: RelayError::OutOfTurn }),
        },
        ThreadPhase::Deliver => match event {
            Event::Sent { delivered } => {
                let text = if *delivered {
                    String::from_str("Your message has been sent to the user.")
                } else {
                    String::from_str(
                        "Failed to send the message to the user. They may have DMs disabled.",
                    )
                };
                (ThreadPhase::Notice, Action::Say { channel: msg.channel_id, text })
            },
            _ => (ThreadPhase::Finished, Action::Failed { error: RelayError::OutOfTurn }),
        },
        ThreadPhase::Notice => match event {
            Event::Sent { delivered } => (ThreadPhase::Finished, Action::Done),
            _ => (ThreadPhase::Finished, Action::Failed { error: RelayError::OutOfTurn }),
        },
        ThreadPhase::Finished => (
            ThreadPhase::Finished,
            Action::Failed { error: RelayError::OutOfTurn },
        ),
    }
}

/// The text that came with a command, or the note that none did.
pub fn command_content_text(request: &CommandRequest) -> (text: String)
    ensures
        text@ == command_content(
            match request.content {
                Some(content) => Some(content@),
                None => None,
            },
        ),
{
    match &request.content {
        Some(content) => content.clone(),
        None => String::from_str("No content provided"),
    }
}

/// The turn that posts the text of the command in `thread`.
fn post_modmail(request: &CommandRequest, thread: u64) -> (turn: (ModmailPhase, Action))
    requires
        request.user.id != 0,
    ensures
        turn.0 == ModmailPhase::Post,
        turn.1@ == (ActionView::Say {
            channel: thread,
            text: user_relay_text(request.user.id, request_content(*request)),
        }),
{
    let content = command_content_text(request);
    (
        ModmailPhase::Post,
        Action::Say { channel: thread, text: user_relay(request.user.id, content.as_str()) },
    )
}

/// The text of the command `request`.
pub open spec fn request_content(request: CommandRequest) -> Seq<char> {
    command_content(
        match request.content {
            Some(content) => Some(content@),
            None => None,
        },
    )
}

/// Goes on with the command after a step of the opening of a thread.
fn continue_modmail(request: &CommandRequest, step: Creation) -> (turn: (ModmailPhase, Action))
    requires
        request.user.id != 0,
    ensures
        forall|sessions: Sessions|
            (Turn { sessions, phase: turn.0, action: turn.1@ })
                == #[trigger] modmail_after_creation(
                request.user@,
                request_content(*request),
                (sessions, step@),
            ),
{
    match step {
        Creation::Pending { phase, action } => (ModmailPhase::Create { phase }, action),
        Creation::Ready { thread } => post_modmail(request, thread),
        Creation::Failed { error } => {
            let mut text = String::from_str("Error creating modmail thread: ");
            text.append(error.message().as_str());
            (ModmailPhase::Finished, Action::Reply { text })
        },
    }
}

/// Does one step of the command by which a user sends a message to the
/// staff: takes the phase that the task is in and the event that answers the
/// action in flight, and gives the next phase and the next action. The first
/// step takes `ModmailPhase::Start` and `Event::Begin`; the last action is
/// the answer to the command.
pub fn modmail(
    state: &mut ModmailState,
    config: &Config,
    request: &CommandRequest,
    phase: ModmailPhase,
    event: &Event,
) -> (turn: (ModmailPhase, Action))
    requires
        old(state).wf(),
        request.user.id != 0,
    ensures
        final(state).wf(),
        (Turn { sessions: final(state)@, phase: turn.0, action: turn.1@ }) == modmail_next(
            old(state)@,
            config.forum_channel_id,
            config.role_id,
            request.user@,
            request_content(*request),
            phase,
            event@,
        ),
{
    match phase {
        ModmailPhase::Start => match event {
            Event::Begin => match state.lookup_thread(request.user.id) {
                Some(thread) => (ModmailPhase::Check { thread }, Action::CheckThread { thread }),
                None => {
                    let step = create_modmail_thread(
                        state,
                        config,
                        &request.user,
                        CreatePhase::Start,
                        &Event::Begin,
                    );
                    continue_modmail(request, step)
                },
            },
            _ => (ModmailPhase::Finished, out_of_turn_reply()),
        },
        ModmailPhase::Check { thread } => match event {
            Event::ThreadChecked { exists } => {
                if *exists {
                    post_modmail(request, thread)
                } else {
                    let step = create_modmail_thread(
                        state,
                        config,
                        &request.user,
                        CreatePhase::Start,
                        &Event::Begin,
                    );
                    continue_modmail(request, step)
                }
            },
            _ => (ModmailPhase::Finished, out_of_turn_reply()),
        },
        ModmailPhase::Create { phase } => {
            let step = create_modmail_thread(state, config, &request.user, phase, event);
            continue_modmail(request, step)
        },
        ModmailPhase::Post => match event {
            Event::Sent { delivered } => {
                let text = if *delivered {
                    String::from_str(
                        "Modmail sent successfully! You can now continue the conversation in DMs.",
                    )
                } else {
                    String::from_str("Error sending message to modmail thread.")
                };
                (ModmailPhase::Finished, Action::Reply { text })
            },
            _ => (ModmailPhase::Finished, out_of_turn_reply()),
        },
        ModmailPhase::Finished => (ModmailPhase::Finished, out_of_turn_reply()),
    }
}

/// The answer to a command that met an event out of turn.
fn out_of_turn_reply() -> (action: Action)
    ensures
        action@ == (ActionView::Reply { text: error_text(RelayErrorView::OutOfTurn) }),
{
    Action::Reply { text: RelayError::OutOfTurn.message() }
}

} // verus!
