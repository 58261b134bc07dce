use modmail::events::{
    command_kind, needs_channel_kind, route_message, unknown_command_text, ChannelKind,
    CommandKind, Route,
};

#[test]
fn the_two_commands_are_known_by_name() {
    assert_eq!(command_kind("modmail"), CommandKind::Modmail);
    assert_eq!(command_kind("close"), CommandKind::Close);
}

#[test]
fn other_names_are_unknown() {
    assert_eq!(command_kind(""), CommandKind::Unknown);
    assert_eq!(command_kind("Modmail"), CommandKind::Unknown);
    assert_eq!(command_kind("close "), CommandKind::Unknown);
    assert_eq!(command_kind("help"), CommandKind::Unknown);
    assert_eq!(unknown_command_text(), "Not implemented");
}

#[test]
fn a_message_outside_a_guild_is_private() {
    assert!(!needs_channel_kind(None));
    assert_eq!(route_message(None, None), Route::Private);
    assert_eq!(route_message(None, Some(ChannelKind::PublicThread)), Route::Private);
}

#[test]
fn a_message_in_a_public_thread_goes_to_the_correspondent() {
    assert!(needs_channel_kind(Some(9)));
    assert_eq!(route_message(Some(9), Some(ChannelKind::PublicThread)), Route::Thread);
}

#[test]
fn other_guild_messages_are_ignored() {
    assert_eq!(route_message(Some(9), Some(ChannelKind::Other)), Route::Ignored);
    assert_eq!(route_message(Some(9), None), Route::Ignored);
}
