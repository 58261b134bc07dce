//! What holds of the engine as a whole.
//!
//! Each law is a proof over the models that the contracts of the functions
//! speak of.

use crate::compose::{mention_text, opening_message, relay_body, thread_title, user_relay_text};
use crate::directory::{Change, Sessions};
use crate::extract::{
    extract_user_id, first_mention, lemma_split_word_then_space, marker_value, mention_value,
    split_whitespace, strip_mention_close, strip_mention_open,
};
use crate::lifecycle::{
    close_next, close_run, closed_notice, closed_reply, not_deleted_reply, not_tracked_reply,
    ClosePhase,
};
use crate::platform::{ActionView, ChannelLookup, CorrespondentView, EventView, MessageView};
use crate::recovery::{
    recovered_pairs, recovered_user, resync_result, resynced, ThreadHistory, ThreadListing,
};
use crate::relay::{
    acknowledgement, create_next, dm_next, dm_run, modmail_next, thread_next, thread_run,
    CreatePhase, DmPhase, ModmailPhase, ThreadPhase,
};
use crate::text::{
    decimal, is_digit, lemma_decimal_digits, lemma_parse_decimal_roundtrip, unsigned_body,
    white_space,
};
use vstd::prelude::*;

verus! {

/// Whatever changes are made to a directory whose two maps are inverse to
/// each other, they are inverse after every one of them.
pub proof fn law_changes_keep_inverse(start: Sessions, changes: Seq<Change>)
    requires
        start.is_bijection(),
    ensures
        forall|k: int|
            0 <= k <= changes.len() ==> (#[trigger] start.apply_all(changes.take(k))).is_bijection(),
{
    assert forall|k: int| 0 <= k <= changes.len() implies (#[trigger] start.apply_all(
        changes.take(k),
    )).is_bijection() by {
        lemma_apply_all(start, changes.take(k));
    }
}

proof fn lemma_apply_all(start: Sessions, changes: Seq<Change>)
    requires
        start.is_bijection(),
    ensures
        start.apply_all(changes).is_bijection(),
    decreases changes.len(),
{
    if changes.len() > 0 {
        lemma_apply_all(start, changes.drop_last());
        let before = start.apply_all(changes.drop_last());
        match changes.last() {
            Change::Insert { user, thread } => before.lemma_insert(user, thread),
            Change::RemoveByThread { thread } => before.lemma_remove_by_thread(thread),
        }
    }
}

/// A recovery that succeeds gives a directory that depends on the forum and
/// the threads alone, so a second recovery over the same threads changes
/// nothing; one that fails changes nothing either. The directory that a
/// recovery builds has inverse maps.
pub proof fn law_recovery_is_idempotent(
    before: Sessions,
    other: Sessions,
    lookup: ChannelLookup,
    listing: ThreadListing,
)
    ensures
        resynced(resynced(before, lookup, listing), lookup, listing) == resynced(
            before,
            lookup,
            listing,
        ),
        resync_result(lookup, listing) is Ok ==> resynced(other, lookup, listing) == resynced(
            before,
            lookup,
            listing,
        ),
        resync_result(lookup, listing) is Ok ==> resynced(before, lookup, listing).is_bijection(),
        resync_result(lookup, listing) is Err ==> resynced(before, lookup, listing) == before,
{
    if let ThreadListing::Threads { threads } = listing {
        if let ChannelLookup::Guild { id, guild_id, forum } = lookup {
            Sessions::lemma_from_pairs(recovered_pairs(id, threads@));
        }
    }
}

/// The first word that mentions an identity decides: where the word at `k`
/// does and none before it does, the text names that identity, whatever
/// follows.
pub proof fn law_first_mention_decides(s: Seq<char>, k: int)
    requires
        0 <= k < split_whitespace(s).len(),
        mention_value(split_whitespace(s)[k]) is Some,
        forall|j: int| 0 <= j < k ==> mention_value(#[trigger] split_whitespace(s)[j]) is None,
    ensures
        extract_user_id(s) == mention_value(split_whitespace(s)[k]),
{
    lemma_first_mention(split_whitespace(s), k);
}

proof fn lemma_first_mention(words: Seq<Seq<char>>, k: int)
    requires
        0 <= k < words.len(),
        mention_value(words[k]) is Some,
        forall|j: int| 0 <= j < k ==> mention_value(#[trigger] words[j]) is None,
    ensures
        first_mention(words) == mention_value(words[k]),
    decreases k,
{
    if k > 0 {
        assert(mention_value(words[0]) is None);
        let rest = words.skip(1);
        assert(rest[k - 1] == words[k]);
        assert forall|j: int| 0 <= j < k - 1 implies mention_value(#[trigger] rest[j]) is None by {
            assert(rest[j] == words[j + 1]);
        }
        lemma_first_mention(rest, k - 1);
    }
}

proof fn lemma_no_mention(words: Seq<Seq<char>>)
    requires
        forall|j: int| 0 <= j < words.len() ==> mention_value(#[trigger] words[j]) is None,
    ensures
        first_mention(words) is None,
    decreases words.len(),
{
    if words.len() > 0 {
        assert(mention_value(words[0]) is None);
        let rest = words.skip(1);
        assert forall|j: int| 0 <= j < rest.len() implies mention_value(#[trigger] rest[j]) is None by {
            assert(rest[j] == words[j + 1]);
        }
        lemma_no_mention(rest);
    }
}

/// Where no word mentions an identity, the marker decides; where there is
/// no marker with a number either, the text names nobody.
pub proof fn law_marker_is_the_fallback(s: Seq<char>)
    requires
        forall|j: int|
            0 <= j < split_whitespace(s).len() ==> mention_value(
                #[trigger] split_whitespace(s)[j],
            ) is None,
    ensures
        extract_user_id(s) == marker_value(s),
{
    lemma_no_mention(split_whitespace(s));
}

/// A thread whose opening message names nobody adds no session: the
/// recovery passes it over.
pub proof fn law_unnamed_thread_is_skipped(forum: u64, threads: Seq<ThreadHistory>, history: ThreadHistory)
    requires
        recovered_user(history) is None,
    ensures
        recovered_pairs(forum, threads.push(history)) == recovered_pairs(forum, threads),
{
    assert(threads.push(history).drop_last() =~= threads);
}

proof fn lemma_plain_word(word: Seq<char>, rest: Seq<Seq<char>>)
    requires
        word.len() > 0,
        word[0] != '<',
    ensures
        first_mention(seq![word] + rest) == first_mention(rest),
{
    let words = seq![word] + rest;
    assert(words[0] == word);
    assert(words.skip(1) =~= rest);
}

/// The role's mention at the head of an opening message names no
/// correspondent: what stands between `<@` and `>` is no number.
proof fn lemma_role_mention_names_nobody(role: u64)
    ensures
        mention_value("<@&"@ + decimal(role as nat) + seq!['>']) is None,
        forall|k: int|
            0 <= k < ("<@&"@ + decimal(role as nat) + seq!['>']).len() ==> !white_space(
                #[trigger] ("<@&"@ + decimal(role as nat) + seq!['>'])[k],
            ),
{
    reveal_strlit("<@&");
    let digits = decimal(role as nat);
    lemma_decimal_digits(role as nat);
    let word = "<@&"@ + digits + seq!['>'];
    let inner = seq!['&'] + digits + seq!['>'];
    let bare = seq!['&'] + digits;
    assert(word.skip(2) =~= inner);
    assert(inner[0] == '&');
    assert(strip_mention_open(inner) == inner);
    assert(strip_mention_open(word) == inner);
    assert(inner.drop_last() =~= bare);
    assert(bare.last() == digits.last());
    assert(is_digit(digits.last()));
    assert(strip_mention_close(bare) == bare);
    assert(strip_mention_close(inner) == bare);
    assert(bare[0] == '&');
    assert(unsigned_body(bare) == bare);
    assert(!is_digit(bare[0]));
    assert forall|k: int| 0 <= k < word.len() implies !white_space(#[trigger] word[k]) by {
        if 3 <= k < 3 + digits.len() {
            assert(word[k] == digits[k - 3]);
            assert(is_digit(digits[k - 3]));
        }
    }
}

/// The mention of a user names that user.
proof fn lemma_mention_names_the_user(user: u64)
    ensures
        mention_value(mention_text(user)) == Some(user),
        mention_text(user).len() > 0,
        forall|k: int|
            0 <= k < mention_text(user).len() ==> !white_space(#[trigger] mention_text(user)[k]),
{
    reveal_strlit("<@");
    reveal_strlit(">");
    let digits = decimal(user as nat);
    lemma_decimal_digits(user as nat);
    lemma_parse_decimal_roundtrip(user);
    let word = mention_text(user);
    let inner = digits + ">"@;
    assert(word.skip(2) =~= inner);
    assert(inner[0] == digits[0]);
    assert(is_digit(digits[0]));
    assert(strip_mention_open(inner) == inner);
    assert(strip_mention_open(word) == inner);
    assert(inner.drop_last() =~= digits);
    assert(is_digit(digits.last()));
    assert(strip_mention_close(digits) == digits);
    assert(strip_mention_close(inner) == digits);
    assert forall|k: int| 0 <= k < word.len() implies !white_space(#[trigger] word[k]) by {
        if 2 <= k < 2 + digits.len() {
            assert(word[k] == digits[k - 2]);
            assert(is_digit(digits[k - 2]));
        }
    }
}

/// What a thread is opened with is what the recovery reads back: the
/// opening message of the thread of `user` names `user`, whatever the staff
/// role is.
pub proof fn law_opening_message_names_the_correspondent(role: u64, user: u64)
    ensures
        extract_user_id(opening_message(role, user)) == Some(user),
{
    reveal_strlit("> New modmail from ");
    reveal_strlit(" (ID: ");
    reveal_strlit(")");
    let blank = seq![' '];
    let head = "<@&"@ + decimal(role as nat) + seq!['>'];
    let new = seq!['N', 'e', 'w'];
    let modmail = seq!['m', 'o', 'd', 'm', 'a', 'i', 'l'];
    let from = seq!['f', 'r', 'o', 'm'];
    let mention = mention_text(user);
    let tail = seq!['(', 'I', 'D', ':', ' '] + decimal(user as nat) + ")"@;
    let s4 = mention + blank + tail;
    let s3 = from + blank + s4;
    let s2 = modmail + blank + s3;
    let s1 = new + blank + s2;
    let s0 = head + blank + s1;
    assert(opening_message(role, user) =~= s0);
    lemma_role_mention_names_nobody(role);
    lemma_mention_names_the_user(user);
    lemma_split_word_then_space(head, s1);
    lemma_split_word_then_space(new, s2);
    lemma_split_word_then_space(modmail, s3);
    lemma_split_word_then_space(from, s4);
    lemma_split_word_then_space(mention, tail);
    let w4 = seq![mention] + split_whitespace(tail);
    let w3 = seq![from] + w4;
    let w2 = seq![modmail] + w3;
    let w1 = seq![new] + w2;
    let w0 = seq![head] + w1;
    assert(w4[0] == mention);
    assert(first_mention(w4) == Some(user));
    lemma_plain_word(from, w4);
    lemma_plain_word(modmail, w3);
    lemma_plain_word(new, w2);
    assert(w0[0] == head);
    assert(w0.skip(1) =~= w1);
    assert(first_mention(w0) == first_mention(w1));
}

/// The first private message of a correspondent without a thread opens
/// exactly one thread, passes the message on to it, and adds the pair to the
/// directory, where the platform does its part: the forum is there and the
/// thread is opened.
pub proof fn law_first_message_opens_one_thread(
    sessions: Sessions,
    forum: u64,
    role: u64,
    msg: MessageView,
    bot: u64,
    forum_id: u64,
    guild_id: u64,
    thread: u64,
    forwarded: bool,
    acknowledged: bool,
)
    requires
        sessions.is_bijection(),
        bot != msg.author.id,
        !sessions.by_user.contains_key(msg.author.id),
    ensures
        ({
            let run = dm_run(
                sessions,
                forum,
                role,
                msg,
                DmPhase::Start,
                seq![
                    EventView::Begin,
                    EventView::SelfIdentity { user: bot },
                    EventView::ForumFetched {
                        lookup: ChannelLookup::Guild { id: forum_id, guild_id, forum: true },
                    },
                    EventView::ThreadCreated { thread },
                    EventView::PinAttempted,
                    EventView::Sent { delivered: forwarded },
                    EventView::Sent { delivered: acknowledged },
                ],
            );
            &&& run.1 == seq![
                ActionView::IdentifySelf,
                ActionView::FetchForum { channel: forum },
                ActionView::CreateThread {
                    forum: forum_id,
                    title: thread_title(msg.author.name),
                    opening: opening_message(role, msg.author.id),
                },
                ActionView::PinFirstMessage { thread },
                ActionView::Relay {
                    channel: thread,
                    text: user_relay_text(msg.author.id, relay_body(msg.content, msg.attachments)),
                },
                ActionView::Say { channel: msg.channel_id, text: acknowledgement() },
                ActionView::Done,
            ]
            &&& run.0 == sessions.insert(msg.author.id, thread)
            &&& run.0.is_bijection()
            &&& run.0.paired(msg.author.id, thread)
        }),
{
    let e0 = EventView::Begin;
    let e1 = EventView::SelfIdentity { user: bot };
    let e2 = EventView::ForumFetched {
        lookup: ChannelLookup::Guild { id: forum_id, guild_id, forum: true },
    };
    let e3 = EventView::ThreadCreated { thread };
    let e4 = EventView::PinAttempted;
    let e5 = EventView::Sent { delivered: forwarded };
    let e6 = EventView::Sent { delivered: acknowledged };
    let t0 = dm_next(sessions, forum, role, msg, DmPhase::Start, e0);
    let t1 = dm_next(t0.sessions, forum, role, msg, t0.phase, e1);
    let t2 = dm_next(t1.sessions, forum, role, msg, t1.phase, e2);
    let t3 = dm_next(t2.sessions, forum, role, msg, t2.phase, e3);
    let t4 = dm_next(t3.sessions, forum, role, msg, t3.phase, e4);
    let t5 = dm_next(t4.sessions, forum, role, msg, t4.phase, e5);
    let t6 = dm_next(t5.sessions, forum, role, msg, t5.phase, e6);
    let s6 = seq![e6];
    let s5 = seq![e5, e6];
    let s4 = seq![e4, e5, e6];
    let s3 = seq![e3, e4, e5, e6];
    let s2 = seq![e2, e3, e4, e5, e6];
    let s1 = seq![e1, e2, e3, e4, e5, e6];
    let s0 = seq![e0, e1, e2, e3, e4, e5, e6];
    assert(s6.skip(1) =~= Seq::<EventView>::empty());
    assert(s5.skip(1) =~= s6);
    assert(s4.skip(1) =~= s5);
    assert(s3.skip(1) =~= s4);
    assert(s2.skip(1) =~= s3);
    assert(s1.skip(1) =~= s2);
    assert(s0.skip(1) =~= s1);
    let r7 = dm_run(t6.sessions, forum, role, msg, t6.phase, Seq::<EventView>::empty());
    let r6 = dm_run(t5.sessions, forum, role, msg, t5.phase, s6);
    let r5 = dm_run(t4.sessions, forum, role, msg, t4.phase, s5);
    let r4 = dm_run(t3.sessions, forum, role, msg, t3.phase, s4);
    let r3 = dm_run(t2.sessions, forum, role, msg, t2.phase, s3);
    let r2 = dm_run(t1.sessions, forum, role, msg, t1.phase, s2);
    let r1 = dm_run(t0.sessions, forum, role, msg, t0.phase, s1);
    let r0 = dm_run(sessions, forum, role, msg, DmPhase::Start, s0);
    assert(r7.1 =~= Seq::<ActionView>::empty());
    assert(r6.1 =~= seq![t6.action]);
    assert(r5.1 =~= seq![t5.action, t6.action]);
    assert(r4.1 =~= seq![t4.action, t5.action, t6.action]);
    assert(r3.1 =~= seq![t3.action, t4.action, t5.action, t6.action]);
    assert(r2.1 =~= seq![t2.action, t3.action, t4.action, t5.action, t6.action]);
    assert(r1.1 =~= seq![t1.action, t2.action, t3.action, t4.action, t5.action, t6.action]);
    assert(r0.1 =~= seq![
        t0.action,
        t1.action,
        t2.action,
        t3.action,
        t4.action,
        t5.action,
        t6.action,
    ]);
    sessions.lemma_insert(msg.author.id, thread);
}

/// The next private message of a correspondent whose thread still exists
/// goes to that thread: no thread is opened, and the directory stays as it is.
pub proof fn law_next_message_reuses_the_thread(
    sessions: Sessions,
    forum: u64,
    role: u64,
    msg: MessageView,
    bot: u64,
    thread: u64,
    forwarded: bool,
    acknowledged: bool,
)
    requires
        bot != msg.author.id,
        sessions.paired(msg.author.id, thread),
    ensures
        ({
            let run = dm_run(
                sessions,
                forum,
                role,
                msg,
                DmPhase::Start,
                seq![
                    EventView::Begin,
                    EventView::SelfIdentity { user: bot },
                    EventView::ThreadChecked { exists: true },
                    EventView::Sent { delivered: forwarded },
                    EventView::Sent { delivered: acknowledged },
                ],
            );
            &&& run.1 == seq![
                ActionView::IdentifySelf,
                ActionView::CheckThread { thread },
                ActionView::Relay {
                    channel: thread,
                    text: user_relay_text(msg.author.id, relay_body(msg.content, msg.attachments)),
                },
                ActionView::Say { channel: msg.channel_id, text: acknowledgement() },
                ActionView::Done,
            ]
            &&& run.0 == sessions
        }),
{
    let e0 = EventView::Begin;
    let e1 = EventView::SelfIdentity { user: bot };
    let e2 = EventView::ThreadChecked { exists: true };
    let e3 = EventView::Sent { delivered: forwarded };
    let e4 = EventView::Sent { delivered: acknowledged };
    let t0 = dm_next(sessions, forum, role, msg, DmPhase::Start, e0);
    let t1 = dm_next(t0.sessions, forum, role, msg, t0.phase, e1);
    let t2 = dm_next(t1.sessions, forum, role, msg, t1.phase, e2);
    let t3 = dm_next(t2.sessions, forum, role, msg, t2.phase, e3);
    let t4 = dm_next(t3.sessions, forum, role, msg, t3.phase, e4);
    let s4 = seq![e4];
    let s3 = seq![e3, e4];
    let s2 = seq![e2, e3, e4];
    let s1 = seq![e1, e2, e3, e4];
    let s0 = seq![e0, e1, e2, e3, e4];
    assert(s4.skip(1) =~= Seq::<EventView>::empty());
    assert(s3.skip(1) =~= s4);
    assert(s2.skip(1) =~= s3);
    assert(s1.skip(1) =~= s2);
    assert(s0.skip(1) =~= s1);
    let r5 = dm_run(t4.sessions, forum, role, msg, t4.phase, Seq::<EventView>::empty());
    let r4 = dm_run(t3.sessions, forum, role, msg, t3.phase, s4);
    let r3 = dm_run(t2.sessions, forum, role, msg, t2.phase, s3);
    let r2 = dm_run(t1.sessions, forum, role, msg, t1.phase, s2);
    let r1 = dm_run(t0.sessions, forum, role, msg, t0.phase, s1);
    let r0 = dm_run(sessions, forum, role, msg, DmPhase::Start, s0);
    assert(r5.1 =~= Seq::<ActionView>::empty());
    assert(r4.1 =~= seq![t4.action]);
    assert(r3.1 =~= seq![t3.action, t4.action]);
    assert(r2.1 =~= seq![t2.action, t3.action, t4.action]);
    assert(r1.1 =~= seq![t1.action, t2.action, t3.action, t4.action]);
    assert(r0.1 =~= seq![t0.action, t1.action, t2.action, t3.action, t4.action]);
}

/// Whether the action sends anything to anybody, or opens a private channel.
pub open spec fn reaches_out(action: ActionView) -> bool {
    action is Relay || action is Say || action is OpenDm
}

proof fn lemma_thread_finished(sessions: Sessions, msg: MessageView, events: Seq<EventView>)
    ensures
        forall|i: int|
            0 <= i < thread_run(sessions, msg, ThreadPhase::Finished, events).len() ==> !reaches_out(
                #[trigger] thread_run(sessions, msg, ThreadPhase::Finished, events)[i],
            ),
    decreases events.len(),
{
    if events.len() > 0 {
        lemma_thread_finished(sessions, msg, events.skip(1));
        let run = thread_run(sessions, msg, ThreadPhase::Finished, events);
        let rest = thread_run(sessions, msg, ThreadPhase::Finished, events.skip(1));
        let turn = thread_next(sessions, msg, ThreadPhase::Finished, events[0]);
        assert(run == seq![turn.action] + rest);
        assert forall|i: int| 0 <= i < run.len() implies !reaches_out(#[trigger] run[i]) by {
            if i > 0 {
                assert(run[i] == rest[i - 1]);
            }
        }
    }
}

/// A message that the bot itself posted in a thread goes nowhere: whatever
/// the platform answers afterwards, nothing is sent and no private channel
/// is opened.
pub proof fn law_own_message_is_not_relayed(sessions: Sessions, msg: MessageView, later: Seq<EventView>)
    ensures
        ({
            let actions = thread_run(
                sessions,
                msg,
                ThreadPhase::Start,
                seq![EventView::Begin, EventView::SelfIdentity { user: msg.author.id }] + later,
            );
            &&& actions.len() == later.len() + 2
            &&& actions[0] == ActionView::IdentifySelf
            &&& actions[1] == ActionView::Done
            &&& forall|i: int| 0 <= i < actions.len() ==> !reaches_out(#[trigger] actions[i])
        }),
{
    let e0 = EventView::Begin;
    let e1 = EventView::SelfIdentity { user: msg.author.id };
    let s0 = seq![e0, e1] + later;
    let s1 = seq![e1] + later;
    assert(s0.skip(1) =~= s1);
    assert(s1.skip(1) =~= later);
    let t0 = thread_next(sessions, msg, ThreadPhase::Start, e0);
    let t1 = thread_next(sessions, msg, t0.phase, e1);
    let r2 = thread_run(sessions, msg, ThreadPhase::Finished, later);
    let r1 = thread_run(sessions, msg, t0.phase, s1);
    let r0 = thread_run(sessions, msg, ThreadPhase::Start, s0);
    lemma_thread_run_len(sessions, msg, ThreadPhase::Finished, later);
    lemma_thread_finished(sessions, msg, later);
    assert(r1 =~= seq![t1.action] + r2);
    assert(r0 =~= seq![t0.action, t1.action] + r2);
    assert forall|i: int| 0 <= i < r0.len() implies !reaches_out(#[trigger] r0[i]) by {
        if i >= 2 {
            assert(r0[i] == r2[i - 2]);
        }
    }
}

proof fn lemma_thread_run_len(
    sessions: Sessions,
    msg: MessageView,
    phase: ThreadPhase,
    events: Seq<EventView>,
)
    ensures
        thread_run(sessions, msg, phase, events).len() == events.len(),
    decreases events.len(),
{
    if events.len() > 0 {
        let turn = thread_next(sessions, msg, phase, events[0]);
        lemma_thread_run_len(sessions, msg, turn.phase, events.skip(1));
    }
}

proof fn lemma_dm_finished(
    sessions: Sessions,
    forum: u64,
    role: u64,
    msg: MessageView,
    events: Seq<EventView>,
)
    ensures
        dm_run(sessions, forum, role, msg, DmPhase::Finished, events).0 == sessions,
        dm_run(sessions, forum, role, msg, DmPhase::Finished, events).1.len() == events.len(),
        forall|i: int|
            0 <= i < events.len() ==> (#[trigger] dm_run(
                sessions,
                forum,
                role,
                msg,
                DmPhase::Finished,
                events,
            ).1[i]).is_final(),
    decreases events.len(),
{
    if events.len() > 0 {
        lemma_dm_finished(sessions, forum, role, msg, events.skip(1));
        let run = dm_run(sessions, forum, role, msg, DmPhase::Finished, events);
        let rest = dm_run(sessions, forum, role, msg, DmPhase::Finished, events.skip(1));
        let turn = dm_next(sessions, forum, role, msg, DmPhase::Finished, events[0]);
        assert(run.1 == seq![turn.action] + rest.1);
        assert forall|i: int| 0 <= i < events.len() implies (#[trigger] run.1[i]).is_final() by {
            if i > 0 {
                assert(run.1[i] == rest.1[i - 1]);
            }
        }
    }
}

/// A private message that the bot itself wrote is dropped: whatever the
/// platform answers afterwards, no thread is looked for or opened, nothing is
/// sent, and the directory stays as it was.
pub proof fn law_own_private_message_is_dropped(
    sessions: Sessions,
    forum: u64,
    role: u64,
    msg: MessageView,
    later: Seq<EventView>,
)
    ensures
        ({
            let run = dm_run(
                sessions,
                forum,
                role,
                msg,
                DmPhase::Start,
                seq![EventView::Begin, EventView::SelfIdentity { user: msg.author.id }] + later,
            );
            &&& run.0 == sessions
            &&& run.1.len() == later.len() + 2
            &&& run.1[0] == ActionView::IdentifySelf
            &&& forall|i: int| 1 <= i < run.1.len() ==> (#[trigger] run.1[i]).is_final()
        }),
{
    let e0 = EventView::Begin;
    let e1 = EventView::SelfIdentity { user: msg.author.id };
    let s0 = seq![e0, e1] + later;
    let s1 = seq![e1] + later;
    assert(s0.skip(1) =~= s1);
    assert(s1.skip(1) =~= later);
    let t0 = dm_next(sessions, forum, role, msg, DmPhase::Start, e0);
    let t1 = dm_next(sessions, forum, role, msg, t0.phase, e1);
    let r2 = dm_run(sessions, forum, role, msg, DmPhase::Finished, later);
    let r1 = dm_run(sessions, forum, role, msg, t0.phase, s1);
    let r0 = dm_run(sessions, forum, role, msg, DmPhase::Start, s0);
    lemma_dm_finished(sessions, forum, role, msg, later);
    assert(r1.1 =~= seq![t1.action] + r2.1);
    assert(r0.1 =~= seq![t0.action, t1.action] + r2.1);
    assert forall|i: int| 1 <= i < r0.1.len() implies (#[trigger] r0.1[i]).is_final() by {
        if i >= 2 {
            assert(r0.1[i] == r2.1[i - 2]);
        }
    }
}

proof fn lemma_create_keeps_inverse(
    sessions: Sessions,
    forum: u64,
    role: u64,
    user: CorrespondentView,
    phase: CreatePhase,
    event: EventView,
)
    requires
        sessions.is_bijection(),
    ensures
        create_next(sessions, forum, role, user, phase, event).0.is_bijection(),
{
    if let CreatePhase::Pin { thread } = phase {
        sessions.lemma_insert(user.id, thread);
    }
}

/// Whatever the platform answers, and in whatever order, the handling of a
/// private message, the command that sends a message to the staff, and the
/// closing of a thread leave the two maps of the directory inverse to each
/// other, step after step.
pub proof fn law_tasks_keep_inverse(
    sessions: Sessions,
    forum: u64,
    role: u64,
    msg: MessageView,
    content: Seq<char>,
    thread: u64,
    event: EventView,
    dm_phase: DmPhase,
    modmail_phase: ModmailPhase,
    close_phase: ClosePhase,
)
    requires
        sessions.is_bijection(),
    ensures
        dm_next(sessions, forum, role, msg, dm_phase, event).sessions.is_bijection(),
        modmail_next(
            sessions,
            forum,
            role,
            msg.author,
            content,
            modmail_phase,
            event,
        ).sessions.is_bijection(),
        close_next(sessions, thread, close_phase, event).sessions.is_bijection(),
{
    lemma_create_keeps_inverse(sessions, forum, role, msg.author, CreatePhase::Start, EventView::Begin);
    if let DmPhase::Create { phase } = dm_phase {
        lemma_create_keeps_inverse(sessions, forum, role, msg.author, phase, event);
    }
    if let ModmailPhase::Create { phase } = modmail_phase {
        lemma_create_keeps_inverse(sessions, forum, role, msg.author, phase, event);
    }
    sessions.lemma_remove_by_thread(thread);
}

/// Over any events, from any phase, the handling of a private message and
/// the closing of a thread end with a directory whose maps are inverse to
/// each other.
pub proof fn law_runs_keep_inverse(
    sessions: Sessions,
    forum: u64,
    role: u64,
    msg: MessageView,
    thread: u64,
    dm_phase: DmPhase,
    close_phase: ClosePhase,
    events: Seq<EventView>,
)
    requires
        sessions.is_bijection(),
    ensures
        dm_run(sessions, forum, role, msg, dm_phase, events).0.is_bijection(),
        close_run(sessions, thread, close_phase, events).0.is_bijection(),
    decreases events.len(),
{
    if events.len() > 0 {
        let dm = dm_next(sessions, forum, role, msg, dm_phase, events[0]);
        let close = close_next(sessions, thread, close_phase, events[0]);
        law_tasks_keep_inverse(
            sessions,
            forum,
            role,
            msg,
            Seq::empty(),
            thread,
            events[0],
            dm_phase,
            ModmailPhase::Start,
            close_phase,
        );
        law_runs_keep_inverse(
            dm.sessions,
            forum,
            role,
            msg,
            thread,
            dm.phase,
            close_phase,
            events.skip(1),
        );
        law_runs_keep_inverse(
            close.sessions,
            forum,
            role,
            msg,
            thread,
            dm_phase,
            close.phase,
            events.skip(1),
        );
    }
}

/// Closing the thread of a session deletes the thread, takes both entries
/// of the pair out of the directory, and goes on to tell the correspondent.
pub proof fn law_close_ends_the_session(
    sessions: Sessions,
    thread: u64,
    channel: u64,
    delivered: bool,
)
    requires
        sessions.is_bijection(),
        sessions.by_thread.contains_key(thread),
    ensures
        ({
            let user = sessions.by_thread[thread];
            let run = close_run(
                sessions,
                thread,
                ClosePhase::Start,
                seq![
                    EventView::Begin,
                    EventView::Deleted,
                    EventView::DmOpened { channel },
                    EventView::Sent { delivered },
                ],
            );
            &&& run.1 == seq![
                ActionView::DeleteThread { thread },
                ActionView::OpenDm { user },
                ActionView::Say { channel, text: closed_notice() },
                ActionView::Reply { text: closed_reply() },
            ]
            &&& run.0 == sessions.remove_by_thread(thread)
            &&& run.0.is_bijection()
            &&& !run.0.by_thread.contains_key(thread)
            &&& !run.0.by_user.contains_key(user)
        }),
{
    let e0 = EventView::Begin;
    let e1 = EventView::Deleted;
    let e2 = EventView::DmOpened { channel };
    let e3 = EventView::Sent { delivered };
    let t0 = close_next(sessions, thread, ClosePhase::Start, e0);
    let t1 = close_next(t0.sessions, thread, t0.phase, e1);
    let t2 = close_next(t1.sessions, thread, t1.phase, e2);
    let t3 = close_next(t2.sessions, thread, t2.phase, e3);
    let s3 = seq![e3];
    let s2 = seq![e2, e3];
    let s1 = seq![e1, e2, e3];
    let s0 = seq![e0, e1, e2, e3];
    assert(s3.skip(1) =~= Seq::<EventView>::empty());
    assert(s2.skip(1) =~= s3);
    assert(s1.skip(1) =~= s2);
    assert(s0.skip(1) =~= s1);
    let r4 = close_run(t3.sessions, thread, t3.phase, Seq::<EventView>::empty());
    let r3 = close_run(t2.sessions, thread, t2.phase, s3);
    let r2 = close_run(t1.sessions, thread, t1.phase, s2);
    let r1 = close_run(t0.sessions, thread, t0.phase, s1);
    let r0 = close_run(sessions, thread, ClosePhase::Start, s0);
    assert(r4.1 =~= Seq::<ActionView>::empty());
    assert(r3.1 =~= seq![t3.action]);
    assert(r2.1 =~= seq![t2.action, t3.action]);
    assert(r1.1 =~= seq![t1.action, t2.action, t3.action]);
    assert(r0.1 =~= seq![t0.action, t1.action, t2.action, t3.action]);
    sessions.lemma_remove_by_thread(thread);
}

proof fn lemma_close_finished(sessions: Sessions, thread: u64, events: Seq<EventView>)
    ensures
        close_run(sessions, thread, ClosePhase::Finished, events).0 == sessions,
    decreases events.len(),
{
    if events.len() > 0 {
        lemma_close_finished(sessions, thread, events.skip(1));
    }
}

/// Closing a thread that belongs to no session is refused, and closing one
/// that the platform does not delete fails: either way the directory stays
/// as it was, whatever the platform answers afterwards.
pub proof fn law_refused_close_changes_nothing(
    sessions: Sessions,
    thread: u64,
    reason: Seq<char>,
    later: Seq<EventView>,
)
    ensures
        !sessions.by_thread.contains_key(thread) ==> ({
            let run = close_run(sessions, thread, ClosePhase::Start, seq![EventView::Begin] + later);
            &&& run.0 == sessions
            &&& run.1[0] == ActionView::Reply { text: not_tracked_reply() }
        }),
        sessions.by_thread.contains_key(thread) ==> ({
            let run = close_run(
                sessions,
                thread,
                ClosePhase::Start,
                seq![EventView::Begin, EventView::NotDeleted { reason }] + later,
            );
            &&& run.0 == sessions
            &&& run.1[0] == ActionView::DeleteThread { thread }
            &&& run.1[1] == ActionView::Reply { text: not_deleted_reply(reason) }
        }),
{
    let e0 = EventView::Begin;
    let e1 = EventView::NotDeleted { reason };
    lemma_close_finished(sessions, thread, later);
    if !sessions.by_thread.contains_key(thread) {
        let s0 = seq![e0] + later;
        assert(s0.skip(1) =~= later);
    } else {
        let s0 = seq![e0, e1] + later;
        let s1 = seq![e1] + later;
        assert(s0.skip(1) =~= s1);
        assert(s1.skip(1) =~= later);
        let t0 = close_next(sessions, thread, ClosePhase::Start, e0);
        let r1 = close_run(sessions, thread, t0.phase, s1);
        assert(r1.0 == sessions);
    }
}

} // verus!
