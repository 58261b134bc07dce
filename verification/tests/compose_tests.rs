use modmail::compose::{
    opening_message_text, relay_body_text, staff_relay, thread_title_text, user_relay,
};

#[test]
fn the_title_names_the_correspondent() {
    assert_eq!(thread_title_text("ada"), "Modmail from ada");
    assert_eq!(thread_title_text(""), "Modmail from ");
}

#[test]
fn the_opening_message_mentions_role_and_correspondent() {
    assert_eq!(
        opening_message_text(77, 123456789),
        "<@&77> New modmail from <@123456789> (ID: 123456789)"
    );
    assert_eq!(
        opening_message_text(0, u64::MAX),
        "<@&0> New modmail from <@18446744073709551615> (ID: 18446744073709551615)"
    );
}

#[test]
fn a_message_of_attachments_only_gets_a_note() {
    assert_eq!(relay_body_text("", 1), "Sent an attachment");
    assert_eq!(relay_body_text("", 3), "Sent an attachment");
}

#[test]
fn a_message_with_text_keeps_its_text() {
    assert_eq!(relay_body_text("hello", 0), "hello");
    assert_eq!(relay_body_text("hello", 2), "hello");
    assert_eq!(relay_body_text("", 0), "");
}

#[test]
fn the_staff_reads_who_wrote() {
    assert_eq!(user_relay(42, "hello"), "(**User**) <@42>: **hello**");
    assert_eq!(user_relay(42, ""), "(**User**) <@42>: ****");
}

#[test]
fn the_correspondent_reads_which_staff_member_wrote() {
    assert_eq!(staff_relay("grace", "hi"), "(**Staff**) grace: **hi**");
}
