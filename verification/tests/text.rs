use altbase_epic::text::{
    chars_of, contains_text, decimal_text, is_blank, join, join3, lower_text, parse_u64, same_text,
    string_of, to_hex, trim,
};

fn trimmed(text: &str) -> String {
    string_of(&trim(&chars_of(text)))
}

fn parsed(text: &str) -> Option<u64> {
    parse_u64(&chars_of(text))
}

#[test]
fn numbers_read_back_as_they_were_written() {
    for n in [0u64, 1, 9, 10, 99, 100, 3_540_000, u64::MAX - 1, u64::MAX] {
        assert_eq!(decimal_text(n), n.to_string());
        assert_eq!(parsed(&decimal_text(n)), Some(n));
    }
}

#[test]
fn numbers_are_read_as_std_reads_them() {
    for text in [
        "", "+", "-1", "+5", "0012", "12a", " 12", "18446744073709551615", "18446744073709551616",
        "99999999999999999999999", "1_000", "++1", "0",
    ] {
        assert_eq!(parsed(text), text.parse::<u64>().ok(), "{text:?}");
    }
}

#[test]
fn white_space_is_what_std_takes_for_it() {
    for text in ["", " ", "\t\n", " a ", "\u{a0}x\u{3000}", "\u{2028}\u{205f}", "a b", "\u{200b}"] {
        assert_eq!(trimmed(text), text.trim());
        assert_eq!(is_blank(text), text.trim().is_empty());
    }
}

#[test]
fn texts_are_joined_and_compared() {
    assert_eq!(join("ab", "cd"), "abcd");
    assert_eq!(join3("a", "", "c"), "ac");
    assert!(same_text("epic", "epic"));
    assert!(!same_text("epic", "epics"));
    assert!(!same_text("epic", "Epic"));
}

#[test]
fn texts_are_found_inside_texts() {
    for (hay, needle) in [
        ("", ""),
        ("abc", ""),
        ("", "a"),
        ("abc", "abc"),
        ("abc", "c"),
        ("aab", "ab"),
        ("abc", "abcd"),
        ("abc", "ac"),
    ] {
        assert_eq!(contains_text(hay, needle), hay.contains(needle));
    }
}

#[test]
fn only_ascii_letters_are_lowered() {
    assert_eq!(lower_text("Can't CONNECT \u{c4}"), "can't connect \u{c4}");
}

#[test]
fn bytes_are_written_in_hexadecimal() {
    assert_eq!(to_hex(&vec![]), "");
    assert_eq!(to_hex(&vec![0x00, 0x0f, 0xa0, 0xff]), "000fa0ff");
}
