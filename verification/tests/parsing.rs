//! Text and number handling: trimming, substring search, ordering, and the
//! numeric field formats.

use roxy_dbc::edit_history::EditError;
use roxy_dbc::parse::{parse_message_id, parse_message_size, parse_u32_dec};
use roxy_dbc::text::{str_contains, str_leq, str_trim};

#[test]
fn trimming_strips_surrounding_whitespace() {
    assert_eq!(str_trim("  hello \t"), "hello");
    assert_eq!(str_trim("hello"), "hello");
    assert_eq!(str_trim(" \n\r "), "");
    assert_eq!(str_trim(""), "");
    assert_eq!(str_trim(" a b "), "a b");
}

#[test]
fn substring_search_is_exact() {
    assert!(str_contains("wheelspeed", "speed"));
    assert!(str_contains("speed", "speed"));
    assert!(str_contains("speed", ""));
    assert!(!str_contains("", "speed"));
    assert!(!str_contains("sped", "speed"));
    assert!(str_contains("aaab", "aab"));
}

#[test]
fn string_order_is_by_character_code() {
    assert!(str_leq("Alpha", "bravo"));
    assert!(!str_leq("bravo", "Alpha"));
    assert!(str_leq("abc", "abd"));
    assert!(str_leq("ab", "abc"));
    assert!(!str_leq("abc", "ab"));
    assert!(str_leq("same", "same"));
}

#[test]
fn identifier_fields_parse_in_three_formats() {
    assert_eq!(parse_message_id("0x640"), Some(0x640));
    assert_eq!(parse_message_id("0X640"), Some(0x640));
    assert_eq!(parse_message_id("1600"), Some(1600));
    assert_eq!(parse_message_id("abc"), Some(0xABC));
    assert_eq!(parse_message_id(" 42 "), Some(42));
    assert_eq!(parse_message_id("+42"), Some(42));
    assert_eq!(parse_message_id(""), None);
    assert_eq!(parse_message_id("  "), None);
    assert_eq!(parse_message_id("0x"), None);
    assert_eq!(parse_message_id("12x9"), None);
    // a failed prefixed read falls back to the other formats, which also fail
    assert_eq!(parse_message_id("0x1G2"), None);
    // the decimal reading wins over the hexadecimal one
    assert_eq!(parse_message_id("10"), Some(10));
}

#[test]
fn size_fields_accept_zero_to_eight() {
    assert_eq!(parse_message_size("0"), Some(0));
    assert_eq!(parse_message_size("8"), Some(8));
    assert_eq!(parse_message_size(" 5 "), Some(5));
    assert_eq!(parse_message_size("9"), None);
    assert_eq!(parse_message_size("99999999999999999999"), None);
    assert_eq!(parse_message_size("-1"), None);
    assert_eq!(parse_message_size("x"), None);
    assert_eq!(parse_message_size(""), None);
}

#[test]
fn plain_decimal_fields_reject_overflow() {
    assert_eq!(parse_u32_dec("4294967295"), Some(u32::MAX));
    assert_eq!(parse_u32_dec("4294967296"), None);
    assert_eq!(parse_u32_dec("0"), Some(0));
    assert_eq!(parse_u32_dec("007"), Some(7));
}

#[test]
fn error_kinds_have_readable_texts() {
    assert_eq!(EditError::NothingToUndo.message(), "Nothing to undo");
    assert_eq!(EditError::NothingToRedo.message(), "Nothing to redo");
    assert_eq!(EditError::NotFound.message(), "Not found");
    assert_eq!(EditError::NothingToUndo, EditError::NothingToUndo);
    assert_ne!(EditError::NothingToUndo, EditError::NothingToRedo);
}
