use modmail::config::Config;
use modmail::directory::ModmailState;
use modmail::platform::{Action, ChannelLookup, Correspondent, Event, IncomingMessage, RelayError};
use modmail::relay::{
    command_content_text, create_modmail_thread, handle_dm, handle_thread_message, modmail,
    CommandRequest, CreatePhase, Creation, DmPhase, ModmailPhase, ThreadPhase,
};

const BOT: u64 = 1;
const USER: u64 = 42;
const FORUM: u64 = 500;
const ROLE: u64 = 77;
const DM_CHANNEL: u64 = 4200;

const ACK: &str = "Your message has been received and forwarded to the staff. They will respond as soon as possible.";

fn config() -> Config {
    Config { token: "secret".to_string(), forum_channel_id: FORUM, role_id: ROLE }
}

fn ada() -> Correspondent {
    Correspondent { id: USER, name: "ada".to_string() }
}

fn private(content: &str, attachments: usize) -> IncomingMessage {
    IncomingMessage {
        author: ada(),
        channel_id: DM_CHANNEL,
        content: content.to_string(),
        attachments,
    }
}

fn staff(thread: u64, content: &str, attachments: usize) -> IncomingMessage {
    IncomingMessage {
        author: Correspondent { id: 7, name: "grace".to_string() },
        channel_id: thread,
        content: content.to_string(),
        attachments,
    }
}

fn forum() -> Event {
    Event::ForumFetched { lookup: ChannelLookup::Guild { id: FORUM, guild_id: 9, forum: true } }
}

/// Feeds the events to the handling of a private message, one after the
/// other, and collects the actions.
fn run_dm(state: &mut ModmailState, msg: &IncomingMessage, events: Vec<Event>) -> Vec<Action> {
    let mut phase = DmPhase::Start;
    let mut actions = Vec::new();
    for event in events {
        let (next, action) = handle_dm(state, &config(), msg, phase, &event);
        phase = next;
        actions.push(action);
    }
    actions
}

fn run_thread(state: &ModmailState, msg: &IncomingMessage, events: Vec<Event>) -> Vec<Action> {
    let mut phase = ThreadPhase::Start;
    let mut actions = Vec::new();
    for event in events {
        let (next, action) = handle_thread_message(state, msg, phase, &event);
        phase = next;
        actions.push(action);
    }
    actions
}

fn run_modmail(state: &mut ModmailState, request: &CommandRequest, events: Vec<Event>) -> Vec<Action> {
    let mut phase = ModmailPhase::Start;
    let mut actions = Vec::new();
    for event in events {
        let (next, action) = modmail(state, &config(), request, phase, &event);
        phase = next;
        actions.push(action);
    }
    actions
}

fn creates(actions: &Vec<Action>) -> usize {
    actions.iter().filter(|a| matches!(a, Action::CreateThread { .. })).count()
}

#[test]
fn a_first_private_message_opens_one_thread() {
    let mut state = ModmailState::new();
    let actions = run_dm(
        &mut state,
        &private("hello", 0),
        vec![
            Event::Begin,
            Event::SelfIdentity { user: BOT },
            forum(),
            Event::ThreadCreated { thread: 700 },
            Event::PinAttempted,
            Event::Sent { delivered: true },
            Event::Sent { delivered: true },
        ],
    );
    assert_eq!(
        actions,
        vec![
            Action::IdentifySelf,
            Action::FetchForum { channel: FORUM },
            Action::CreateThread {
                forum: FORUM,
                title: "Modmail from ada".to_string(),
                opening: "<@&77> New modmail from <@42> (ID: 42)".to_string(),
            },
            Action::PinFirstMessage { thread: 700 },
            Action::Relay { channel: 700, text: "(**User**) <@42>: **hello**".to_string() },
            Action::Say { channel: DM_CHANNEL, text: ACK.to_string() },
            Action::Done,
        ]
    );
    assert_eq!(creates(&actions), 1);
    assert_eq!(state.len(), 1);
    assert_eq!(state.lookup_thread(USER), Some(700));
    assert_eq!(state.lookup_correspondent(700), Some(USER));
}

#[test]
fn a_second_private_message_reuses_the_thread() {
    let mut state = ModmailState::new();
    run_dm(
        &mut state,
        &private("hello", 0),
        vec![
            Event::Begin,
            Event::SelfIdentity { user: BOT },
            forum(),
            Event::ThreadCreated { thread: 700 },
            Event::PinAttempted,
            Event::Sent { delivered: true },
            Event::Sent { delivered: true },
        ],
    );
    let actions = run_dm(
        &mut state,
        &private("again", 0),
        vec![
            Event::Begin,
            Event::SelfIdentity { user: BOT },
            Event::ThreadChecked { exists: true },
            Event::Sent { delivered: true },
            Event::Sent { delivered: true },
        ],
    );
    assert_eq!(
        actions,
        vec![
            Action::IdentifySelf,
            Action::CheckThread { thread: 700 },
            Action::Relay { channel: 700, text: "(**User**) <@42>: **again**".to_string() },
            Action::Say { channel: DM_CHANNEL, text: ACK.to_string() },
            Action::Done,
        ]
    );
    assert_eq!(creates(&actions), 0);
    assert_eq!(state.len(), 1);
    assert_eq!(state.lookup_thread(USER), Some(700));
}

#[test]
fn the_directory_gains_the_pair_only_after_the_pinning() {
    let mut state = ModmailState::new();
    let msg = private("hello", 0);
    let (phase, _) = handle_dm(&mut state, &config(), &msg, DmPhase::Start, &Event::Begin);
    let (phase, _) =
        handle_dm(&mut state, &config(), &msg, phase, &Event::SelfIdentity { user: BOT });
    let (phase, _) = handle_dm(&mut state, &config(), &msg, phase, &forum());
    assert_eq!(phase, DmPhase::Create { phase: CreatePhase::Post });
    let (phase, _) =
        handle_dm(&mut state, &config(), &msg, phase, &Event::ThreadCreated { thread: 700 });
    assert_eq!(phase, DmPhase::Create { phase: CreatePhase::Pin { thread: 700 } });
    assert_eq!(state.len(), 0);
    let (phase, _) = handle_dm(&mut state, &config(), &msg, phase, &Event::PinAttempted);
    assert_eq!(phase, DmPhase::Forward);
    assert_eq!(state.lookup_thread(USER), Some(700));
}

#[test]
fn a_private_message_of_the_bot_itself_is_dropped() {
    let mut state = ModmailState::new();
    state.insert(USER, 700);
    let actions = run_dm(
        &mut state,
        &private("echo", 0),
        vec![Event::Begin, Event::SelfIdentity { user: USER }],
    );
    assert_eq!(actions, vec![Action::IdentifySelf, Action::Done]);
    assert_eq!(state.len(), 1);
}

#[test]
fn a_stale_thread_is_replaced() {
    let mut state = ModmailState::new();
    state.insert(USER, 600);
    let actions = run_dm(
        &mut state,
        &private("hello", 0),
        vec![
            Event::Begin,
            Event::SelfIdentity { user: BOT },
            Event::ThreadChecked { exists: false },
            Event::ThreadChecked { exists: false },
            forum(),
            Event::ThreadCreated { thread: 700 },
            Event::PinAttempted,
            Event::Sent { delivered: true },
            Event::Sent { delivered: false },
        ],
    );
    assert_eq!(actions[1], Action::CheckThread { thread: 600 });
    assert_eq!(actions[2], Action::CheckThread { thread: 600 });
    assert_eq!(actions[3], Action::FetchForum { channel: FORUM });
    assert_eq!(actions[6], Action::Relay {
        channel: 700,
        text: "(**User**) <@42>: **hello**".to_string(),
    });
    assert_eq!(actions[8], Action::Done);
    assert_eq!(creates(&actions), 1);
    assert_eq!(state.len(), 1);
    assert_eq!(state.lookup_thread(USER), Some(700));
    assert_eq!(state.lookup_correspondent(600), None);
    assert_eq!(state.lookup_correspondent(700), Some(USER));
}

#[test]
fn a_thread_that_another_task_installed_is_reused() {
    let mut state = ModmailState::new();
    state.insert(USER, 600);
    let msg = private("hello", 0);
    let (phase, _) = handle_dm(&mut state, &config(), &msg, DmPhase::Start, &Event::Begin);
    let (phase, action) =
        handle_dm(&mut state, &config(), &msg, phase, &Event::SelfIdentity { user: BOT });
    assert_eq!(action, Action::CheckThread { thread: 600 });
    state.insert(USER, 650);
    let (phase, action) =
        handle_dm(&mut state, &config(), &msg, phase, &Event::ThreadChecked { exists: false });
    assert_eq!(action, Action::CheckThread { thread: 650 });
    let (phase, action) =
        handle_dm(&mut state, &config(), &msg, phase, &Event::ThreadChecked { exists: true });
    assert_eq!(phase, DmPhase::Forward);
    assert_eq!(action, Action::Relay {
        channel: 650,
        text: "(**User**) <@42>: **hello**".to_string(),
    });
    assert_eq!(state.lookup_thread(USER), Some(650));
}

#[test]
fn attachments_without_text_get_a_note() {
    let mut state = ModmailState::new();
    state.insert(USER, 700);
    let actions = run_dm(
        &mut state,
        &private("", 2),
        vec![
            Event::Begin,
            Event::SelfIdentity { user: BOT },
            Event::ThreadChecked { exists: true },
        ],
    );
    assert_eq!(actions[2], Action::Relay {
        channel: 700,
        text: "(**User**) <@42>: **Sent an attachment**".to_string(),
    });
}

#[test]
fn the_correspondent_is_told_even_where_the_forwarding_failed() {
    let mut state = ModmailState::new();
    state.insert(USER, 700);
    let actions = run_dm(
        &mut state,
        &private("hello", 0),
        vec![
            Event::Begin,
            Event::SelfIdentity { user: BOT },
            Event::ThreadChecked { exists: true },
            Event::Sent { delivered: false },
            Event::Sent { delivered: false },
        ],
    );
    assert_eq!(actions[3], Action::Say { channel: DM_CHANNEL, text: ACK.to_string() });
    assert_eq!(actions[4], Action::Done);
}

#[test]
fn a_missing_forum_ends_the_task() {
    let mut state = ModmailState::new();
    let actions = run_dm(
        &mut state,
        &private("hello", 0),
        vec![
            Event::Begin,
            Event::SelfIdentity { user: BOT },
            Event::ForumFetched { lookup: ChannelLookup::Missing },
        ],
    );
    assert_eq!(actions[2], Action::Failed { error: RelayError::ForumMissing });
    assert_eq!(state.len(), 0);
    let actions = run_dm(
        &mut state,
        &private("hello", 0),
        vec![
            Event::Begin,
            Event::SelfIdentity { user: BOT },
            Event::ForumFetched { lookup: ChannelLookup::Private },
        ],
    );
    assert_eq!(actions[2], Action::Failed { error: RelayError::ForumMissing });
}

#[test]
fn a_channel_that_is_no_forum_ends_the_task() {
    let mut state = ModmailState::new();
    let actions = run_dm(
        &mut state,
        &private("hello", 0),
        vec![
            Event::Begin,
            Event::SelfIdentity { user: BOT },
            Event::ForumFetched {
                lookup: ChannelLookup::Guild { id: FORUM, guild_id: 9, forum: false },
            },
        ],
    );
    assert_eq!(actions[2], Action::Failed { error: RelayError::NotForum });
    assert_eq!(state.len(), 0);
}

#[test]
fn a_refused_thread_ends_the_task() {
    let mut state = ModmailState::new();
    let actions = run_dm(
        &mut state,
        &private("hello", 0),
        vec![
            Event::Begin,
            Event::SelfIdentity { user: BOT },
            forum(),
            Event::ThreadNotCreated { reason: "no permission".to_string() },
        ],
    );
    let error = RelayError::ThreadCreation { reason: "no permission".to_string() };
    assert_eq!(error.message(), "Error creating modmail thread: no permission");
    assert_eq!(actions[3], Action::Failed { error });
    assert!(actions[3].is_final());
    assert_eq!(state.len(), 0);
}

#[test]
fn an_event_out_of_turn_ends_the_task() {
    let mut state = ModmailState::new();
    state.insert(USER, 700);
    let msg = private("hello", 0);
    let (phase, action) = handle_dm(&mut state, &config(), &msg, DmPhase::Start, &Event::Deleted);
    assert_eq!(phase, DmPhase::Finished);
    assert_eq!(action, Action::Failed { error: RelayError::OutOfTurn });
    let (phase, action) = handle_dm(&mut state, &config(), &msg, phase, &Event::Begin);
    assert_eq!(phase, DmPhase::Finished);
    assert_eq!(action, Action::Failed { error: RelayError::OutOfTurn });
    assert_eq!(
        RelayError::OutOfTurn.message(),
        "Unexpected answer from the platform"
    );
    assert_eq!(state.len(), 1);
}

#[test]
fn the_opening_of_a_thread_goes_step_by_step() {
    let mut state = ModmailState::new();
    let step =
        create_modmail_thread(&mut state, &config(), &ada(), CreatePhase::Start, &Event::Begin);
    assert_eq!(step, Creation::Pending {
        phase: CreatePhase::Forum,
        action: Action::FetchForum { channel: FORUM },
    });
    let step = create_modmail_thread(&mut state, &config(), &ada(), CreatePhase::Forum, &forum());
    assert_eq!(step, Creation::Pending {
        phase: CreatePhase::Post,
        action: Action::CreateThread {
            forum: FORUM,
            title: "Modmail from ada".to_string(),
            opening: "<@&77> New modmail from <@42> (ID: 42)".to_string(),
        },
    });
    let step = create_modmail_thread(
        &mut state,
        &config(),
        &ada(),
        CreatePhase::Post,
        &Event::ThreadCreated { thread: 700 },
    );
    assert_eq!(step, Creation::Pending {
        phase: CreatePhase::Pin { thread: 700 },
        action: Action::PinFirstMessage { thread: 700 },
    });
    let step = create_modmail_thread(
        &mut state,
        &config(),
        &ada(),
        CreatePhase::Pin { thread: 700 },
        &Event::PinAttempted,
    );
    assert_eq!(step, Creation::Ready { thread: 700 });
    assert_eq!(state.lookup_thread(USER), Some(700));
}

#[test]
fn the_opening_of_a_thread_takes_a_thread_that_exists() {
    let mut state = ModmailState::new();
    state.insert(USER, 700);
    let step =
        create_modmail_thread(&mut state, &config(), &ada(), CreatePhase::Start, &Event::Begin);
    assert_eq!(step, Creation::Pending {
        phase: CreatePhase::Recheck { thread: 700 },
        action: Action::CheckThread { thread: 700 },
    });
    let step = create_modmail_thread(
        &mut state,
        &config(),
        &ada(),
        CreatePhase::Recheck { thread: 700 },
        &Event::ThreadChecked { exists: true },
    );
    assert_eq!(step, Creation::Ready { thread: 700 });
    let step = create_modmail_thread(
        &mut state,
        &config(),
        &ada(),
        CreatePhase::Recheck { thread: 700 },
        &Event::Sent { delivered: true },
    );
    assert_eq!(step, Creation::Failed { error: RelayError::OutOfTurn });
}

#[test]
fn a_thread_message_goes_to_the_correspondent() {
    let mut state = ModmailState::new();
    state.insert(USER, 700);
    let actions = run_thread(
        &state,
        &staff(700, "hi there", 0),
        vec![
            Event::Begin,
            Event::SelfIdentity { user: BOT },
            Event::DmOpened { channel: DM_CHANNEL },
            Event::Sent { delivered: true },
            Event::Sent { delivered: true },
        ],
    );
    assert_eq!(
        actions,
        vec![
            Action::IdentifySelf,
            Action::OpenDm { user: USER },
            Action::Relay {
                channel: DM_CHANNEL,
                text: "(**Staff**) grace: **hi there**".to_string(),
            },
            Action::Say { channel: 700, text: "Your message has been sent to the user.".to_string() },
            Action::Done,
        ]
    );
}

#[test]
fn a_thread_message_of_the_bot_itself_goes_nowhere() {
    let mut state = ModmailState::new();
    state.insert(USER, 700);
    let actions = run_thread(
        &state,
        &staff(700, "(**User**) <@42>: **hello**", 0),
        vec![
            Event::Begin,
            Event::SelfIdentity { user: 7 },
            Event::DmOpened { channel: DM_CHANNEL },
            Event::Sent { delivered: true },
        ],
    );
    assert_eq!(actions[0], Action::IdentifySelf);
    assert_eq!(actions[1], Action::Done);
    for action in actions {
        assert!(!matches!(
            action,
            Action::Relay { .. } | Action::Say { .. } | Action::OpenDm { .. }
        ));
    }
}

#[test]
fn a_message_in_a_foreign_thread_goes_nowhere() {
    let mut state = ModmailState::new();
    state.insert(USER, 700);
    let actions = run_thread(
        &state,
        &staff(701, "hi", 0),
        vec![Event::Begin, Event::SelfIdentity { user: BOT }],
    );
    assert_eq!(actions, vec![Action::IdentifySelf, Action::Done]);
}

#[test]
fn the_staff_reads_that_the_correspondent_takes_no_messages() {
    let mut state = ModmailState::new();
    state.insert(USER, 700);
    let actions = run_thread(
        &state,
        &staff(700, "hi", 0),
        vec![
            Event::Begin,
            Event::SelfIdentity { user: BOT },
            Event::DmRefused,
            Event::Sent { delivered: true },
        ],
    );
    assert_eq!(actions[2], Action::Say {
        channel: 700,
        text: "Unable to send a message to this user. They may have DMs disabled or have blocked the bot.".to_string(),
    });
    assert_eq!(actions[3], Action::Done);
}

#[test]
fn the_staff_reads_that_the_delivery_failed() {
    let mut state = ModmailState::new();
    state.insert(USER, 700);
    let actions = run_thread(
        &state,
        &staff(700, "", 1),
        vec![
            Event::Begin,
            Event::SelfIdentity { user: BOT },
            Event::DmOpened { channel: DM_CHANNEL },
            Event::Sent { delivered: false },
            Event::Sent { delivered: false },
        ],
    );
    assert_eq!(actions[2], Action::Relay {
        channel: DM_CHANNEL,
        text: "(**Staff**) grace: **Sent an attachment**".to_string(),
    });
    assert_eq!(actions[3], Action::Say {
        channel: 700,
        text: "Failed to send the message to the user. They may have DMs disabled.".to_string(),
    });
    assert_eq!(actions[4], Action::Done);
}

#[test]
fn a_command_without_text_says_so() {
    let request = CommandRequest { user: ada(), content: None };
    assert_eq!(command_content_text(&request), "No content provided");
    let request = CommandRequest { user: ada(), content: Some("help me".to_string()) };
    assert_eq!(command_content_text(&request), "help me");
}

#[test]
fn the_command_opens_a_thread_and_posts_there() {
    let mut state = ModmailState::new();
    let request = CommandRequest { user: ada(), content: Some("help me".to_string()) };
    let actions = run_modmail(
        &mut state,
        &request,
        vec![
            Event::Begin,
            forum(),
            Event::ThreadCreated { thread: 700 },
            Event::PinAttempted,
            Event::Sent { delivered: true },
        ],
    );
    assert_eq!(
        actions,
        vec![
            Action::FetchForum { channel: FORUM },
            Action::CreateThread {
                forum: FORUM,
                title: "Modmail from ada".to_string(),
                opening: "<@&77> New modmail from <@42> (ID: 42)".to_string(),
            },
            Action::PinFirstMessage { thread: 700 },
            Action::Say { channel: 700, text: "(**User**) <@42>: **help me**".to_string() },
            Action::Reply {
                text: "Modmail sent successfully! You can now continue the conversation in DMs."
                    .to_string(),
            },
        ]
    );
    assert_eq!(state.lookup_thread(USER), Some(700));
}

#[test]
fn the_command_reuses_a_thread_that_exists() {
    let mut state = ModmailState::new();
    state.insert(USER, 700);
    let request = CommandRequest { user: ada(), content: None };
    let actions = run_modmail(
        &mut state,
        &request,
        vec![
            Event::Begin,
            Event::ThreadChecked { exists: true },
            Event::Sent { delivered: false },
        ],
    );
    assert_eq!(
        actions,
        vec![
            Action::CheckThread { thread: 700 },
            Action::Say {
                channel: 700,
                text: "(**User**) <@42>: **No content provided**".to_string(),
            },
            Action::Reply { text: "Error sending message to modmail thread.".to_string() },
        ]
    );
}

#[test]
fn the_command_answers_why_no_thread_could_be_had() {
    let mut state = ModmailState::new();
    let request = CommandRequest { user: ada(), content: None };
    let actions = run_modmail(
        &mut state,
        &request,
        vec![Event::Begin, Event::ForumFetched { lookup: ChannelLookup::Missing }],
    );
    assert_eq!(actions[1], Action::Reply {
        text: "Error creating modmail thread: Could not find the specified forum channel"
            .to_string(),
    });
    let actions = run_modmail(
        &mut state,
        &request,
        vec![Event::Begin, forum(), Event::ThreadNotCreated { reason: "full".to_string() }],
    );
    assert_eq!(actions[2], Action::Reply {
        text: "Error creating modmail thread: Error creating modmail thread: full".to_string(),
    });
    let actions = run_modmail(&mut state, &request, vec![Event::Deleted]);
    assert_eq!(actions[0], Action::Reply {
        text: "Unexpected answer from the platform".to_string(),
    });
    assert_eq!(state.len(), 0);
}
