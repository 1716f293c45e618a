use chatbot::completion::{is_whitespace, reply_from_response, strip_prefix_repeated, trim, Choice, TextCompletionResponse};
use chatbot::message::{create_prompt_from_messages, snapshot, Message, Timestamp};
use chatbot::text::{decimal_text, parse_unsigned, same_text};
use chatbot::turn::{turn_for_conversation, TurnToSpeak};
use std::cmp::Ordering;

fn msg(id: u64, sender: &str, content: &str, millis: i64) -> Message {
    Message {
        id,
        sender: sender.to_string(),
        content: content.to_string(),
        timestamp: Timestamp { millis },
    }
}

fn five() -> Vec<Message> {
    vec![
        msg(0, "User", "Hello bot.", 1),
        msg(1, "Bot", "Hello user.", 2),
        msg(2, "User", "How are you?", 3),
        msg(3, "Bot", "I'm fine, thanks. How are you?", 4),
        msg(4, "User", "I'm fine too. Goodbye for now, bot.", 5),
    ]
}

#[test]
fn prompt_keeps_last_two_messages() {
    let p = create_prompt_from_messages("", &five(), 2);
    assert_eq!(p, "Bot:\nI'm fine, thanks. How are you?\n\nUser:\nI'm fine too. Goodbye for now, bot.\n\n");
    assert!(!p.contains("Hello bot."));
}

#[test]
fn prompt_with_starting_prompt_and_large_window() {
    let msgs = five();
    let p = create_prompt_from_messages("Be nice.", &msgs[..2], 5);
    assert_eq!(p, "Be nice.\n\nUser:\nHello bot.\n\nBot:\nHello user.\n\n");
}

#[test]
fn prompt_with_zero_window_or_no_messages() {
    assert_eq!(create_prompt_from_messages("Start", &five(), 0), "Start\n\n");
    assert_eq!(create_prompt_from_messages("", &[], 5), "");
}

#[test]
fn messages_equal_by_id_and_ordered_by_time() {
    let a = msg(1, "User", "a", 50);
    let b = msg(1, "Bot", "b", 10);
    let c = msg(2, "User", "a", 50);
    assert!(a == b);
    assert!(a != c);
    assert_eq!(a.partial_cmp(&b), Some(Ordering::Greater));
    assert_eq!(b.partial_cmp(&a), Some(Ordering::Less));
    assert_eq!(a.partial_cmp(&c), Some(Ordering::Equal));
}

#[test]
fn snapshot_copies_every_field() {
    let msgs = five();
    let copy = snapshot(&msgs);
    assert_eq!(copy.len(), 5);
    assert_eq!(copy[3].content, msgs[3].content);
    assert_eq!(copy[3].sender, msgs[3].sender);
    assert_eq!(copy[3].timestamp, msgs[3].timestamp);
    let d = msgs[2].duplicate();
    assert_eq!(d.content, "How are you?");
}

#[test]
fn turn_from_last_sender() {
    let msgs = five();
    assert_eq!(turn_for_conversation(&[], "User", "Bot"), TurnToSpeak::User);
    assert_eq!(turn_for_conversation(&msgs, "User", "Bot"), TurnToSpeak::Bot);
    assert_eq!(turn_for_conversation(&msgs[..4], "User", "Bot"), TurnToSpeak::User);
    assert!(same_text("Bot", "Bot"));
    assert!(!same_text("Bot", "Bo"));
}

#[test]
fn trims_white_space() {
    assert_eq!(trim("  \n Hello there.\t \n"), "Hello there.");
    assert_eq!(trim("\u{3000}wide\u{2003}"), "wide");
    assert_eq!(trim("   "), "");
    assert_eq!(trim("x"), "x");
}

#[test]
fn strips_repeated_prefix() {
    assert_eq!(strip_prefix_repeated("Bot:Bot: hi", "Bot:"), " hi");
    assert_eq!(strip_prefix_repeated("Bot hi", "Bot:"), "Bot hi");
    assert_eq!(strip_prefix_repeated("Bot:", "Bot:"), "");
    assert_eq!(strip_prefix_repeated("abc", ""), "abc");
}

#[test]
fn response_message_is_first_choice_trimmed() {
    let r = TextCompletionResponse {
        choices: vec![Choice { text: "\n\n  Hi!  ".to_string() }, Choice { text: "other".to_string() }],
    };
    assert_eq!(r.message(), "Hi!");
}

#[test]
fn reply_drops_name_prefix() {
    let r = TextCompletionResponse { choices: vec![Choice { text: "\nBot: I am well.\n".to_string() }] };
    let m = reply_from_response(7, "Bot", &r).expect("a reply");
    assert_eq!(m.id, 7);
    assert_eq!(m.sender, "Bot");
    assert_eq!(m.content, " I am well.");
    assert!(m.timestamp.millis > 1_600_000_000_000);
    let empty = TextCompletionResponse { choices: vec![] };
    assert!(reply_from_response(7, "Bot", &empty).is_none());
}

#[test]
fn parses_unsigned_numbers() {
    assert_eq!(parse_unsigned("250", u64::MAX), Some(250));
    assert_eq!(parse_unsigned("+42", u64::MAX), Some(42));
    assert_eq!(parse_unsigned("007", 10), Some(7));
    assert_eq!(parse_unsigned("18446744073709551615", u64::MAX), Some(u64::MAX));
    assert_eq!(parse_unsigned("18446744073709551616", u64::MAX), None);
    assert_eq!(parse_unsigned("4294967296", u32::MAX as u64), None);
    assert_eq!(parse_unsigned("", u64::MAX), None);
    assert_eq!(parse_unsigned("+", u64::MAX), None);
    assert_eq!(parse_unsigned("-1", u64::MAX), None);
    assert_eq!(parse_unsigned("12a", u64::MAX), None);
    assert_eq!(parse_unsigned(" 12", u64::MAX), None);
}

#[test]
fn decimal_digits_of_numbers() {
    assert_eq!(decimal_text(0), "0");
    assert_eq!(decimal_text(7), "7");
    assert_eq!(decimal_text(1500), "1500");
    assert_eq!(decimal_text(u64::MAX), u64::MAX.to_string());
}

#[test]
fn white_space_set_matches_std() {
    for c in ['\t', '\n', '\u{b}', '\u{c}', '\r', ' ', '\u{85}', '\u{a0}', '\u{1680}', '\u{2000}', '\u{200a}',
        '\u{2028}', '\u{2029}', '\u{202f}', '\u{205f}', '\u{3000}'] {
        assert!(is_whitespace(c));
        assert!(c.is_whitespace());
    }
    for c in ['a', '0', '\u{200b}', '\u{feff}', '\u{1f}', '\u{180e}'] {
        assert!(!is_whitespace(c));
        assert_eq!(is_whitespace(c), c.is_whitespace());
    }
}
