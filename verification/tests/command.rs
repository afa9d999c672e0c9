use messenger::text::{is_whitespace, trim_start};
use messenger::{get_next_token, parse_command, ClientRequest};

fn join_group(line: &str) -> Option<String> {
    match parse_command(line) {
        Some(ClientRequest::Join { group_name }) => Some(group_name),
        _ => None,
    }
}

fn sent_message(line: &str) -> Option<String> {
    match parse_command(line) {
        Some(ClientRequest::Send { message }) => Some(message),
        _ => None,
    }
}

#[test]
fn join_with_one_group() {
    assert_eq!(join_group("join rust"), Some("rust".to_string()));
}

#[test]
fn join_with_surrounding_space() {
    assert_eq!(join_group("  \tjoin   rust  \n"), Some("rust".to_string()));
}

#[test]
fn join_without_group_is_refused() {
    assert!(parse_command("join").is_none());
    assert!(parse_command("join   ").is_none());
}

#[test]
fn join_with_two_groups_is_refused() {
    assert!(parse_command("join rust go").is_none());
}

#[test]
fn send_keeps_the_rest_of_the_line() {
    assert_eq!(
        sent_message("send rust hello   world  "),
        Some("hello   world  ".to_string())
    );
}

#[test]
fn send_drops_the_group_word() {
    assert_eq!(sent_message("send rust   hi"), Some("hi".to_string()));
}

#[test]
fn send_without_message_sends_empty_text() {
    assert_eq!(sent_message("send rust"), Some(String::new()));
    assert_eq!(sent_message("send rust   "), Some(String::new()));
}

#[test]
fn send_without_group_is_refused() {
    assert!(parse_command("send").is_none());
    assert!(parse_command("send   ").is_none());
}

#[test]
fn get_ignores_what_follows() {
    assert!(matches!(parse_command("get"), Some(ClientRequest::Get)));
    assert!(matches!(parse_command("  get all the groups"), Some(ClientRequest::Get)));
}

#[test]
fn unknown_or_empty_lines_are_refused() {
    assert!(parse_command("").is_none());
    assert!(parse_command("   \t ").is_none());
    assert!(parse_command("leave rust").is_none());
    assert!(parse_command("getx").is_none());
    assert!(parse_command("JOIN rust").is_none());
}

#[test]
fn unicode_white_space_separates_words() {
    assert_eq!(join_group("\u{3000}join\u{00a0}rust\u{2029}"), Some("rust".to_string()));
    assert_eq!(sent_message("send\u{1680}g\u{2003}héllo wörld"), Some("héllo wörld".to_string()));
}

#[test]
fn non_ascii_group_names() {
    assert_eq!(join_group("join 日本語"), Some("日本語".to_string()));
}

#[test]
fn next_token_splits_at_white_space() {
    assert_eq!(get_next_token("  hello world"), Some(("hello", " world")));
    assert_eq!(get_next_token("word"), Some(("word", "")));
    assert_eq!(get_next_token("a\tb"), Some(("a", "\tb")));
    assert_eq!(get_next_token("   "), None);
    assert_eq!(get_next_token(""), None);
}

#[test]
fn whitespace_agrees_with_std_on_every_char() {
    for u in 0u32..=0x10ffff {
        if let Some(c) = char::from_u32(u) {
            assert_eq!(is_whitespace(c), c.is_whitespace(), "char {:#x}", u);
        }
    }
}

#[test]
fn trim_start_agrees_with_std() {
    for s in ["", "  a b ", "\u{85}\u{a0}x", "\t\n", "abc", "\u{200b}x", " \u{feff}y"] {
        assert_eq!(trim_start(s), s.trim_start());
    }
}
