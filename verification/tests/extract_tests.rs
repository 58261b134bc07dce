use modmail::compose::opening_message_text;
use modmail::extract::extract_user_id_from_message;

/// The same reading, written with the string functions of std.
fn by_std(content: &str) -> Option<u64> {
    content
        .split_whitespace()
        .find_map(|word| {
            if word.starts_with("<@") && word.ends_with('>') {
                word.trim_start_matches("<@").trim_end_matches('>').parse::<u64>().ok()
            } else {
                None
            }
        })
        .or_else(|| {
            content
                .rsplit_once("(ID: ")
                .and_then(|(_, id_part)| id_part.split_once(')'))
                .and_then(|(id_str, _)| id_str.trim().parse::<u64>().ok())
        })
}

#[test]
fn a_mention_names_the_correspondent() {
    assert_eq!(extract_user_id_from_message("New modmail from <@42>"), Some(42));
    assert_eq!(extract_user_id_from_message("<@987654321>"), Some(987654321));
    assert_eq!(extract_user_id_from_message("  \t<@5>\n"), Some(5));
}

#[test]
fn the_marker_names_the_correspondent_where_no_mention_does() {
    assert_eq!(extract_user_id_from_message("Modmail (ID: 123456789)"), Some(123456789));
    assert_eq!(extract_user_id_from_message("(ID: 123456789) and more"), Some(123456789));
}

#[test]
fn a_text_with_neither_names_nobody() {
    assert_eq!(extract_user_id_from_message(""), None);
    assert_eq!(extract_user_id_from_message("hello there"), None);
    assert_eq!(extract_user_id_from_message("(ID: )"), None);
    assert_eq!(extract_user_id_from_message("(ID: 12"), None);
    assert_eq!(extract_user_id_from_message("(ID:12)"), None);
    assert_eq!(extract_user_id_from_message("<@abc>"), None);
    assert_eq!(extract_user_id_from_message("<@>"), None);
    assert_eq!(extract_user_id_from_message("<@"), None);
}

#[test]
fn the_mention_comes_before_the_marker() {
    assert_eq!(extract_user_id_from_message("<@1> (ID: 2)"), Some(1));
    assert_eq!(extract_user_id_from_message("(ID: 2) <@1>"), Some(1));
}

#[test]
fn the_first_mention_with_a_number_decides() {
    assert_eq!(extract_user_id_from_message("<@&77> <@8> <@9>"), Some(8));
    assert_eq!(extract_user_id_from_message("<@!5> <@6>"), Some(6));
    assert_eq!(extract_user_id_from_message("<@&77> then (ID: 3)"), Some(3));
}

#[test]
fn a_mention_is_a_whole_word() {
    assert_eq!(extract_user_id_from_message("from<@42>"), None);
    assert_eq!(extract_user_id_from_message("<@42>,"), None);
    assert_eq!(extract_user_id_from_message("<@42>\u{3000}x"), Some(42));
    assert_eq!(extract_user_id_from_message("x\u{a0}<@42>"), Some(42));
}

#[test]
fn repeated_brackets_are_stripped() {
    assert_eq!(extract_user_id_from_message("<@<@5>>"), Some(5));
    assert_eq!(extract_user_id_from_message("<@7>>>"), Some(7));
    assert_eq!(extract_user_id_from_message("<@+7>"), Some(7));
}

#[test]
fn the_last_marker_decides() {
    assert_eq!(extract_user_id_from_message("(ID: 1) (ID: 2)"), Some(2));
    assert_eq!(extract_user_id_from_message("(ID: 1) (ID: x)"), None);
    assert_eq!(extract_user_id_from_message("(ID: 1) (ID: "), None);
}

#[test]
fn the_number_in_the_marker_may_stand_in_blanks() {
    assert_eq!(extract_user_id_from_message("(ID:   42  )"), Some(42));
    assert_eq!(extract_user_id_from_message("(ID: \t42\u{2003})"), Some(42));
    assert_eq!(extract_user_id_from_message("(ID: 4 2)"), None);
}

#[test]
fn numbers_that_do_not_fit_name_nobody() {
    assert_eq!(extract_user_id_from_message("<@18446744073709551615>"), Some(u64::MAX));
    assert_eq!(extract_user_id_from_message("<@18446744073709551616>"), None);
    assert_eq!(extract_user_id_from_message("(ID: 18446744073709551616)"), None);
}

#[test]
fn the_reading_agrees_with_std() {
    let samples = [
        "",
        " ",
        "<@1>",
        "<@&1> New modmail from <@2> (ID: 2)",
        "<@&1> New modmail from someone (ID: 3)",
        "<@&1> New modmail from someone (ID: 3",
        "a <@ 1> b",
        "<@1 >",
        "<@<@<@12>>>",
        "<@<12>",
        "<<@12>",
        "<@12>>",
        ">",
        "<@>>",
        "(ID: (ID: 5))",
        "(ID: 5)) (ID: ",
        "(ID: 9)(ID: 10)",
        "x(ID: +11)y",
        "(ID: -11)",
        "(id: 11)",
        "(ID:\u{a0}11)",
        "(ID: \u{a0}11\u{a0})",
        "tab\there<@4>\n<@5>",
        "<@4>\u{85}<@5>",
        "é<@4> ü <@5>",
        "(ID: ٣)",
        "<@0012>",
    ];
    for text in samples {
        assert_eq!(extract_user_id_from_message(text), by_std(text), "{:?}", text);
    }
}

#[test]
fn an_opening_message_names_its_correspondent() {
    for user in [1u64, 9, 10, 123456789, 1234567890123456789, u64::MAX] {
        for role in [0u64, 1, 42, u64::MAX] {
            let text = opening_message_text(role, user);
            assert_eq!(extract_user_id_from_message(&text), Some(user));
        }
    }
}
