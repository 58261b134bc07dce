//! Closing a session: the thread is deleted, the pair leaves the directory,
//! and the correspondent is told.

use crate::directory::{ModmailState, Sessions};
use crate::platform::{
    error_text, Action, ActionView, Event, EventView, RelayError, RelayErrorView, Turn,
};
use vstd::prelude::*;

verus! {

/// Where the closing of a thread stands.
#[derive(Debug, Clone, Copy, PartialEq, Eq)]
pub enum ClosePhase {
    Start,
    /// The thread of `user` is being deleted.
    Delete { user: u64 },
    /// The private channel of the correspondent is being opened.
    Dm,
    /// The correspondent is being told that the thread was closed.
    Notice,
    Finished,
}

/// The answer to the command where it was given outside a session's thread.
pub open spec fn not_tracked_reply() -> Seq<char> {
    "This command can only be used in a modmail thread."@
}

/// The answer to the command where the thread could not be deleted.
pub open spec fn not_deleted_reply(reason: Seq<char>) -> Seq<char> {
    "Failed to delete the thread: "@ + reason
}

/// The answer to the command after the thread was closed.
pub open spec fn closed_reply() -> Seq<char> {
    "Thread closed successfully. The user has been notified."@
}

/// What the correspondent reads after the thread was closed.
pub open spec fn closed_notice() -> Seq<char> {
    "Your modmail thread has been closed by a staff member. If you need further assistance, feel free to start a new modmail."@
}

/// One step of the closing of `thread`.
///
/// A thread without a session is refused, and nothing changes. Else the
/// thread is deleted on the platform; only after that did the pair leave the
/// directory. The correspondent is then told, as far as the platform lets
/// the bot, and the command is answered all the same.
pub open spec fn close_next(sessions: Sessions, thread: u64, phase: ClosePhase, event: EventView) -> Turn<
    ClosePhase,
> {
    match (phase, event) {
        (ClosePhase::Start, EventView::Begin) => if sessions.by_thread.contains_key(thread) {
            Turn {
                sessions,
                phase: ClosePhase::Delete { user: sessions.by_thread[thread] },
                action: ActionView::DeleteThread { thread },
            }
        } else {
            Turn {
                sessions,
                phase: ClosePhase::Finished,
                action: ActionView::Reply { text: not_tracked_reply() },
            }
        },
        (ClosePhase::Delete { user }, EventView::Deleted) => Turn {
            sessions: sessions.remove_by_thread(thread),
            phase: ClosePhase::Dm,
            action: ActionView::OpenDm { user },
        },
        (ClosePhase::Delete { user }, EventView::NotDeleted { reason }) => Turn {
            sessions,
            phase: ClosePhase::Finished,
            action: ActionView::Reply { text: not_deleted_reply(reason) },
        },
        (ClosePhase::Dm, EventView::DmOpened { channel }) => Turn {
            sessions,
            phase: ClosePhase::Notice,
            action: ActionView::Say { channel, text: closed_notice() },
        },
        (ClosePhase::Dm, EventView::DmRefused) => Turn {
            sessions,
            phase: ClosePhase::Finished,
            action: ActionView::Reply { text: closed_reply() },
        },
        (ClosePhase::Notice, EventView::Sent { delivered }) => Turn {
            sessions,
            phase: ClosePhase::Finished,
            action: ActionView::Reply { text: closed_reply() },
        },
        _ => Turn {
            sessions,
            phase: ClosePhase::Finished,
            action: ActionView::Reply { text: error_text(RelayErrorView::OutOfTurn) },
        },
    }
}

/// The closing of `thread` over the events `events`, from `phase` on: the
/// directory at the end, and the actions that were handed out, one for each
/// event.
pub open spec fn close_run(sessions: Sessions, thread: u64, phase: ClosePhase, events: Seq<EventView>) -> (
    Sessions,
    Seq<ActionView>,
)
    decreases events.len(),
{
    if events.len() == 0 {
        (sessions, Seq::empty())
    } else {
        let turn = close_next(sessions, thread, phase, events[0]);
        let rest = close_run(turn.sessions, thread, turn.phase, events.skip(1));
        (rest.0, seq![turn.action] + rest.1)
    }
}

/// The answer to a command that met an event out of turn.
fn out_of_turn() -> (turn: (ClosePhase, Action))
    ensures
        turn.0 == ClosePhase::Finished,
        turn.1@ == (ActionView::Reply { text: error_text(RelayErrorView::OutOfTurn) }),
{
    (ClosePhase::Finished, Action::Reply { text: RelayError::OutOfTurn.message() })
}

/// The answer to the command after the thread was closed.
fn closed() -> (turn: (ClosePhase, Action))
    ensures
        turn.0 == ClosePhase::Finished,
        turn.1@ == (ActionView::Reply { text: closed_reply() }),
{
    (
        ClosePhase::Finished,
        Action::Reply {
            text: String::from_str("Thread closed successfully. The user has been notified."),
        },
    )
}

/// Does one step of the closing of `thread`, the thread in which the command
/// was given: takes the phase that the task is in and the event that answers
/// the action in flight, and gives the next phase and the next action. The
/// first step takes `ClosePhase::Start` and `Event::Begin`; the last action
/// is the answer to the command.
pub fn close_thread(state: &mut ModmailState, thread: u64, phase: ClosePhase, event: &Event) -> (turn:
    (ClosePhase, Action))
    requires
        old(state).wf(),
    ensures
        final(state).wf(),
        (Turn { sessions: final(state)@, phase: turn.0, action: turn.1@ }) == close_next(
            old(state)@,
            thread,
            phase,
            event@,
        ),
{
    match phase {
        ClosePhase::Start => match event {
            Event::Begin => match state.lookup_correspondent(thread) {
                Some(user) => (ClosePhase::Delete { user }, Action::DeleteThread { thread }),
                None => (
                    ClosePhase::Finished,
                    Action::Reply {
                        text: String::from_str("This command can only be used in a modmail thread."),
                    },
                ),
            },
            _ => out_of_turn(),
        },
        ClosePhase::Delete { user } => match event {
            Event::Deleted => {
                state.remove_by_thread(thread);
                (ClosePhase::Dm, Action::OpenDm { user })
            },
            Event::NotDeleted { reason } => {
                let mut text = String::from_str("Failed to delete the thread: ");
                text.append(reason.as_str());
                (ClosePhase::Finished, Action::Reply { text })
            },
            _ => out_of_turn(),
        },
        ClosePhase::Dm => match event {
            Event::DmOpened { channel } => (
                ClosePhase::Notice,
                Action::Say {
                    channel: *channel,
                    text: String::from_str(
                        "Your modmail thread has been closed by a staff member. If you need further assistance, feel free to start a new modmail.",
                    ),
                },
            ),
            Event::DmRefused => closed(),
            _ => out_of_turn(),
        },
        ClosePhase::Notice => match event {
            Event::Sent { delivered } => closed(),
            _ => out_of_turn(),
        },
        ClosePhase::Finished => out_of_turn(),
    }
}

} // verus!
