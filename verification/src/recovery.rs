//! Rebuilding the directory from the threads that the platform holds.
//!
//! Nothing of the directory is stored. After a start it is read back from
//! the active threads of the forum: the earliest message of a thread is its
//! opening message, and names the correspondent.

use crate::directory::{ModmailState, Sessions};
use crate::extract::{extract_user_id, extract_user_id_from_message};
use crate::platform::{ChannelLookup, RelayError, RelayErrorView};
use vstd::prelude::*;

verus! {

/// How many of the earliest messages of a thread are to be fetched.
pub const MESSAGE_WINDOW: u8 = 100;

/// A message of a thread, as far as the recovery reads it.
#[derive(Debug, Clone, PartialEq, Eq)]
pub struct ThreadMessage {
    /// When it was sent: whole seconds since the epoch.
    pub seconds: i64,
    /// When it was sent: the nanoseconds within the second.
    pub nanos: u32,
    /// Its text.
    pub content: String,
}

/// An active thread and the window of its earliest messages.
#[derive(Debug, Clone, PartialEq, Eq)]
pub struct ThreadHistory {
    pub thread_id: u64,
    /// The channel that the thread hangs under, if it has one.
    pub parent_id: Option<u64>,
    /// The messages, in any order; `None` where they could not be fetched.
    pub messages: Option<Vec<ThreadMessage>>,
}

/// What the platform answered when the active threads were asked for.
#[derive(Debug, Clone, PartialEq, Eq)]
pub enum ThreadListing {
    /// The threads were not listed, and why.
    Unavailable { reason: String },
    /// The active threads that the bot can see.
    Threads { threads: Vec<ThreadHistory> },
}

/// The forum channel, once it is known to be one.
#[derive(Debug, Clone, Copy, PartialEq, Eq)]
pub struct Forum {
    pub id: u64,
    pub guild_id: u64,
}

/// Whether `a` was sent before `b`.
pub open spec fn sent_before(a: ThreadMessage, b: ThreadMessage) -> bool {
    a.seconds < b.seconds || (a.seconds == b.seconds && a.nanos < b.nanos)
}

/// Whether the message at `i` is the one that comes first when `messages`
/// are put in the order of their time: none was sent before it, and those
/// that stand before it were sent after it.
pub open spec fn is_earliest(messages: Seq<ThreadMessage>, i: int) -> bool {
    &&& 0 <= i < messages.len()
    &&& forall|j: int| 0 <= j < messages.len() ==> !sent_before(#[trigger] messages[j], messages[i])
    &&& forall|j: int| 0 <= j < i ==> sent_before(messages[i], #[trigger] messages[j])
}

/// The correspondent that the thread `history` belongs to: the one that its
/// earliest message names. A thread whose messages could not be fetched, that
/// holds none, or whose earliest message names nobody has no correspondent.
pub open spec fn recovered_user(history: ThreadHistory) -> Option<u64> {
    match history.messages {
        Some(messages) => {
            if messages@.len() == 0 {
                None
            } else {
                extract_user_id(messages@[choose|i: int| is_earliest(messages@, i)].content@)
            }
        },
        None => None,
    }
}

/// The sessions found among `threads`, in their order, each a correspondent
/// and a thread: one for every thread of the forum that has a correspondent.
pub open spec fn recovered_pairs(forum: u64, threads: Seq<ThreadHistory>) -> Seq<(u64, u64)>
    decreases threads.len(),
{
    if threads.len() == 0 {
        Seq::empty()
    } else {
        let before = recovered_pairs(forum, threads.drop_last());
        let history = threads.last();
        if history.parent_id == Some(forum) && recovered_user(history) is Some {
            before.push((recovered_user(history)->0, history.thread_id))
        } else {
            before
        }
    }
}

/// What becomes of the forum lookup: the forum, or the error that ends the
/// work.
pub open spec fn forum_of(lookup: ChannelLookup) -> Result<Forum, RelayErrorView> {
    match lookup {
        ChannelLookup::Guild { id, guild_id, forum } => if forum {
            Ok(Forum { id, guild_id })
        } else {
            Err(RelayErrorView::NotForum)
        },
        _ => Err(RelayErrorView::ForumMissing),
    }
}

/// What a recovery answers: nothing where the directory was rebuilt, else the
/// error. The forum is looked at first, then the listing.
pub open spec fn resync_result(lookup: ChannelLookup, listing: ThreadListing) -> Result<
    (),
    RelayErrorView,
> {
    match forum_of(lookup) {
        Err(error) => Err(error),
        Ok(_) => match listing {
            ThreadListing::Unavailable { reason } => Err(
                RelayErrorView::ThreadListing { reason: reason@ },
            ),
            ThreadListing::Threads { .. } => Ok(()),
        },
    }
}

/// The directory after a recovery: rebuilt from the threads alone where the
/// recovery succeeds, untouched where it fails.
pub open spec fn resynced(before: Sessions, lookup: ChannelLookup, listing: ThreadListing) -> Sessions {
    match (forum_of(lookup), listing) {
        (Ok(forum), ThreadListing::Threads { threads }) => Sessions::from_pairs(
            recovered_pairs(forum.id, threads@),
        ),
        _ => before,
    }
}

/// Only one message comes first.
pub proof fn lemma_earliest_unique(messages: Seq<ThreadMessage>, i: int, k: int)
    requires
        is_earliest(messages, i),
        is_earliest(messages, k),
    ensures
        i == k,
{
    if i < k {
        assert(sent_before(messages[k], messages[i]));
        assert(!sent_before(messages[k], messages[i]));
    } else if k < i {
        assert(sent_before(messages[i], messages[k]));
        assert(!sent_before(messages[i], messages[k]));
    }
}

/// Tells the forum from what else a lookup may bring.
pub fn resolve_forum(lookup: ChannelLookup) -> (r: Result<Forum, RelayError>)
    ensures
        match r {
            Ok(forum) => forum_of(lookup) == Ok::<Forum, RelayErrorView>(forum),
            Err(error) => forum_of(lookup) == Err::<Forum, RelayErrorView>(error@),
        },
{
    match lookup {
        ChannelLookup::Guild { id, guild_id, forum } => {
            if forum {
                Ok(Forum { id, guild_id })
            } else {
                Err(RelayError::NotForum)
            }
        },
        _ => Err(RelayError::ForumMissing),
    }
}

/// Whether a thread under `parent_id` is one of the forum's, so that its
/// messages are worth fetching.
pub fn is_candidate(parent_id: Option<u64>, forum: u64) -> (b: bool)
    ensures
        b == (parent_id == Some(forum)),
{
    match parent_id {
        Some(parent) => parent == forum,
        None => false,
    }
}

/// Whether `a` was sent before `b`.
fn is_sent_before(a: &ThreadMessage, b: &ThreadMessage) -> (r: bool)
    ensures
        r == sent_before(*a, *b),
{
    a.seconds < b.seconds || (a.seconds == b.seconds && a.nanos < b.nanos)
}

/// Finds the message that comes first when `messages` are put in the order
/// of their time; of several sent at the same time, the one that stands first.
pub fn earliest_message(messages: &Vec<ThreadMessage>) -> (r: Option<usize>)
    ensures
        match r {
            Some(i) => is_earliest(messages@, i as int),
            None => messages@.len() == 0,
        },
{
    if messages.len() == 0 {
        return None;
    }
    let mut best: usize = 0;
    let mut i: usize = 1;
    while i < messages.len()
        invariant
            1 <= i <= messages.len(),
            is_earliest(messages@.take(i as int), best as int),
        decreases messages.len() - i,
    {
        let ghost before = messages@.take(i as int);
        let ghost after = messages@.take(i + 1);
        if is_sent_before(&messages[i], &messages[best]) {
            assert forall|j: int| 0 <= j < after.len() implies !sent_before(
                #[trigger] after[j],
                after[i as int],
            ) by {
                if j < i {
                    assert(!sent_before(before[j], before[best as int]));
                }
            }
            assert forall|j: int| 0 <= j < i implies sent_before(
                after[i as int],
                #[trigger] after[j],
            ) by {
                assert(!sent_before(before[j], before[best as int]));
                if j < best {
                    assert(sent_before(before[best as int], before[j]));
                }
            }
            best = i;
        } else {
            assert forall|j: int| 0 <= j < after.len() implies !sent_before(
                #[trigger] after[j],
                after[best as int],
            ) by {
                if j < i {
                    assert(!sent_before(before[j], before[best as int]));
                }
            }
            assert forall|j: int| 0 <= j < best implies sent_before(
                after[best as int],
                #[trigger] after[j],
            ) by {
                assert(sent_before(before[best as int], before[j]));
            }
        }
        i = i + 1;
    }
    assert(messages@.take(i as int) =~= messages@);
    Some(best)
}

/// Finds the correspondent that a thread belongs to.
pub fn recover_user(history: &ThreadHistory) -> (user: Option<u64>)
    ensures
        user == recovered_user(*history),
{
    match &history.messages {
        Some(messages) => {
            match earliest_message(messages) {
                Some(i) => {
                    proof {
                        let chosen = choose|k: int| is_earliest(messages@, k);
                        lemma_earliest_unique(messages@, i as int, chosen);
                    }
                    extract_user_id_from_message(messages[i].content.as_str())
                },
                None => None,
            }
        },
        None => None,
    }
}

/// Rebuilds the directory from what the platform holds: `lookup` is the
/// answer to the lookup of the forum channel, `listing` the active threads
/// with their earliest messages. Where the forum and the listing are there,
/// the former content is discarded and the sessions found are installed in
/// one step. Where either fails, the directory stays as it was.
pub fn resync_state(state: &mut ModmailState, lookup: ChannelLookup, listing: &ThreadListing) -> (r:
    Result<(), RelayError>)
    ensures
        final(state)@ == resynced(old(state)@, lookup, *listing),
        r is Ok ==> final(state).wf(),
        r is Err ==> *final(state) == *old(state),
        match r {
            Ok(_) => resync_result(lookup, *listing) is Ok,
            Err(error) => resync_result(lookup, *listing) == Err::<(), RelayErrorView>(error@),
        },
{
    let forum = match resolve_forum(lookup) {
        Ok(forum) => forum,
        Err(error) => { return Err(error); },
    };
    let threads = match listing {
        ThreadListing::Threads { threads } => threads,
        ThreadListing::Unavailable { reason } => {
            return Err(RelayError::ThreadListing { reason: reason.clone() });
        },
    };
    let mut pairs: Vec<(u64, u64)> = Vec::new();
    let mut i: usize = 0;
    while i < threads.len()
        invariant
            i <= threads.len(),
            pairs@ == recovered_pairs(forum.id, threads@.take(i as int)),
        decreases threads.len() - i,
    {
        let history = &threads[i];
        assert(threads@.take(i + 1).drop_last() =~= threads@.take(i as int));
        if is_candidate(history.parent_id, forum.id) {
            if let Some(user) = recover_user(history) {
                pairs.push((user, history.thread_id));
            }
        }
        i = i + 1;
    }
    assert(threads@.take(i as int) =~= threads@);
    state.replace_all(&pairs);
    Ok(())
}

} // verus!
