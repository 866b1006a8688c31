//! Parsing helpers: decimal numbers, separators, command grammar, labels.

use kafka2i::command::{get_topic_and_parition_id, parse_command, timestamp_valid, CommandParse};
use kafka2i::strings::{
    find_char_index, i64_to_dec_string, parse_i32, parse_i64, sort_names, str_eq, str_lex_le,
    u64_to_dec_string,
};

#[test]
fn parse_i64_plain_values() {
    assert_eq!(parse_i64("0"), Some(0));
    assert_eq!(parse_i64("12"), Some(12));
    assert_eq!(parse_i64("+12"), Some(12));
    assert_eq!(parse_i64("-12"), Some(-12));
    assert_eq!(parse_i64("007"), Some(7));
}

#[test]
fn parse_i64_bounds() {
    assert_eq!(parse_i64("9223372036854775807"), Some(i64::MAX));
    assert_eq!(parse_i64("9223372036854775808"), None);
    assert_eq!(parse_i64("-9223372036854775808"), Some(i64::MIN));
    assert_eq!(parse_i64("-9223372036854775809"), None);
    assert_eq!(parse_i64("92233720368547758070"), None);
}

#[test]
fn parse_i64_rejects_junk() {
    assert_eq!(parse_i64(""), None);
    assert_eq!(parse_i64("-"), None);
    assert_eq!(parse_i64("+"), None);
    assert_eq!(parse_i64("1a"), None);
    assert_eq!(parse_i64("a1"), None);
    assert_eq!(parse_i64(" 1"), None);
    assert_eq!(parse_i64("1 "), None);
    assert_eq!(parse_i64("--1"), None);
}

#[test]
fn parse_i32_range() {
    assert_eq!(parse_i32("2147483647"), Some(i32::MAX));
    assert_eq!(parse_i32("2147483648"), None);
    assert_eq!(parse_i32("-2147483648"), Some(i32::MIN));
    assert_eq!(parse_i32("-2147483649"), None);
}

#[test]
fn decimal_rendering() {
    assert_eq!(u64_to_dec_string(0).as_str(), "0");
    assert_eq!(u64_to_dec_string(10).as_str(), "10");
    assert_eq!(u64_to_dec_string(u64::MAX).as_str(), "18446744073709551615");
    assert_eq!(i64_to_dec_string(-1).as_str(), "-1");
    assert_eq!(i64_to_dec_string(i64::MIN).as_str(), "-9223372036854775808");
    assert_eq!(i64_to_dec_string(i64::MAX).as_str(), "9223372036854775807");
}

#[test]
fn string_equality_and_order() {
    assert!(str_eq("abc", "abc"));
    assert!(!str_eq("abc", "abd"));
    assert!(!str_eq("abc", "ab"));
    assert!(str_eq("", ""));
    assert!(str_lex_le("", "a"));
    assert!(str_lex_le("a", "ab"));
    assert!(str_lex_le("ab", "b"));
    assert!(!str_lex_le("b", "ab"));
    assert!(str_lex_le("same", "same"));
}

#[test]
fn find_first_separator() {
    assert_eq!(find_char_index("a/b", '/'), 1);
    assert_eq!(find_char_index("ab", '/'), 2);
    assert_eq!(find_char_index("/ab", '/'), 0);
    assert_eq!(find_char_index("a//b", '/'), 1);
    assert_eq!(find_char_index("", '/'), 0);
}

#[test]
fn sorting_names() {
    let input = vec![
        String::from("b"),
        String::from("a"),
        String::from("ab"),
        String::from(""),
        String::from("a"),
    ];
    let sorted = sort_names(&input);
    let texts: Vec<&str> = sorted.iter().map(|s| s.as_str()).collect();
    assert_eq!(texts, vec!["", "a", "a", "ab", "b"]);
}

#[test]
fn command_grammar() {
    assert!(matches!(parse_command("offset!12"), CommandParse::Offset { offset: 12 }));
    assert!(matches!(parse_command("ts!1714732185000"), CommandParse::Timestamp {
        timestamp: 1714732185000
    }));
    assert!(matches!(parse_command("offset!abc"), CommandParse::InvalidOffset));
    assert!(matches!(parse_command("offset!"), CommandParse::InvalidOffset));
    assert!(matches!(parse_command("ts!abc"), CommandParse::InvalidTimestamp));
    assert!(matches!(parse_command("nope!12"), CommandParse::InvalidCommand));
    assert!(matches!(parse_command("offset12"), CommandParse::InvalidCommand));
    assert!(matches!(parse_command(""), CommandParse::InvalidCommand));
    // only the part up to the next separator is the argument
    assert!(matches!(parse_command("offset!1!2"), CommandParse::Offset { offset: 1 }));
}

#[test]
fn timestamp_calendar_bounds() {
    // the exact range chrono accepts for epoch milliseconds
    assert!(timestamp_valid(0));
    assert!(timestamp_valid(1714732185000));
    assert!(timestamp_valid(-8334601228800000));
    assert!(!timestamp_valid(-8334601228800001));
    assert!(timestamp_valid(8210266876799999));
    assert!(!timestamp_valid(8210266876800000));
    assert!(!timestamp_valid(i64::MAX));
    assert!(!timestamp_valid(i64::MIN));
}

#[test]
fn partition_labels() {
    let parsed = get_topic_and_parition_id("orders/2").unwrap();
    assert_eq!(parsed.0.as_str(), "orders");
    assert_eq!(parsed.1, 2);
    assert!(get_topic_and_parition_id("orders").is_none());
    assert!(get_topic_and_parition_id("orders/a/b").is_none());
    assert!(get_topic_and_parition_id("orders/x").is_none());
    assert!(get_topic_and_parition_id("orders/").is_none());
    let rooted = get_topic_and_parition_id("/5").unwrap();
    assert_eq!(rooted.0.as_str(), "");
    assert_eq!(rooted.1, 5);
}

#[test]
fn partition_labels_demand_the_canonical_id() {
    // only the decimal rendering of the id is a label: no leading zeros,
    // no plus sign, no minus-zero
    assert!(get_topic_and_parition_id("orders/01").is_none());
    assert!(get_topic_and_parition_id("orders/+1").is_none());
    assert!(get_topic_and_parition_id("orders/-0").is_none());
    assert!(get_topic_and_parition_id("orders/00").is_none());
    let zero = get_topic_and_parition_id("orders/0").unwrap();
    assert_eq!(zero.1, 0);
    let negative = get_topic_and_parition_id("orders/-1").unwrap();
    assert_eq!(negative.1, -1);
}
