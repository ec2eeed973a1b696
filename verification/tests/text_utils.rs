//! Parsing, splitting, deduplication and word-scanning helpers.

use time_converter::text::{dedup_instants, dedup_times, find_char, kind_of_str, parse_u32, parse_u64, split_char};
use time_converter::time_components::{TimeComponents, TimeKind};
use time_converter::word_scan::{skip_word, AmOrPm};

fn tc(hour: u32, minute: u32, kind: TimeKind) -> TimeComponents {
    TimeComponents::new(hour, minute, kind).expect("expected valid time components")
}

#[test]
fn parse_u32_plain_and_signed() {
    assert_eq!(parse_u32("0"), Some(0));
    assert_eq!(parse_u32("42"), Some(42));
    assert_eq!(parse_u32("+7"), Some(7));
    assert_eq!(parse_u32("007"), Some(7));
}

#[test]
fn parse_u32_rejects_garbage() {
    assert_eq!(parse_u32(""), None);
    assert_eq!(parse_u32("+"), None);
    assert_eq!(parse_u32("-1"), None);
    assert_eq!(parse_u32("4a"), None);
    assert_eq!(parse_u32(" 4"), None);
}

#[test]
fn parse_u32_boundary() {
    assert_eq!(parse_u32("4294967295"), Some(u32::MAX));
    assert_eq!(parse_u32("4294967296"), None);
    assert_eq!(parse_u32("99999999999999999999"), None);
}

#[test]
fn parse_u64_boundary() {
    assert_eq!(parse_u64("18446744073709551615"), Some(u64::MAX));
    assert_eq!(parse_u64("18446744073709551616"), None);
    assert_eq!(parse_u64("123456789012345"), Some(123456789012345));
    assert_eq!(parse_u64("x"), None);
}

#[test]
fn find_char_first_occurrence() {
    assert_eq!(find_char("a:b:c", ':'), Some(1));
    assert_eq!(find_char("abc", ':'), None);
    assert_eq!(find_char(":abc", ':'), Some(0));
}

#[test]
fn split_char_pieces() {
    assert_eq!(split_char("a,b,c", ','), vec!["a", "b", "c"]);
    assert_eq!(split_char("", ','), vec![""]);
    assert_eq!(split_char("a,,b", ','), vec!["a", "", "b"]);
    assert_eq!(split_char(",a,", ','), vec!["", "a", ""]);
    assert_eq!(split_char("abc", ','), vec!["abc"]);
}

#[test]
fn dedup_times_keeps_first_occurrences() {
    let v = vec![
        tc(9, 0, TimeKind::PM),
        tc(8, 0, TimeKind::AM),
        tc(9, 0, TimeKind::PM),
        tc(9, 0, TimeKind::Military),
    ];
    assert_eq!(
        dedup_times(&v),
        vec![tc(9, 0, TimeKind::PM), tc(8, 0, TimeKind::AM), tc(9, 0, TimeKind::Military)]
    );
}

#[test]
fn dedup_instants_keeps_first_occurrences() {
    let v: Vec<i64> = vec![5, 3, 5, 5, 1, 3];
    assert_eq!(dedup_instants(&v), vec![5, 3, 1]);
}

#[test]
fn kind_of_str_cases() {
    assert_eq!(kind_of_str("am"), Some(TimeKind::AM));
    assert_eq!(kind_of_str("AM"), Some(TimeKind::AM));
    assert_eq!(kind_of_str("pM"), Some(TimeKind::PM));
    assert_eq!(kind_of_str("Pm"), Some(TimeKind::PM));
    assert_eq!(kind_of_str("xm"), None);
    assert_eq!(kind_of_str("ams"), None);
    assert_eq!(kind_of_str(""), None);
}

#[test]
fn skip_word_steps_past_separator_runs() {
    assert_eq!(skip_word("hello world"), Some("world"));
    assert_eq!(skip_word("hello -- there world"), Some("there world"));
    assert_eq!(skip_word("one:two three"), Some("three"));
    assert_eq!(skip_word("word"), None);
    assert_eq!(skip_word("trailing  "), Some(""));
    assert_eq!(skip_word(" leading"), Some("leading"));
}

#[test]
fn am_or_pm_to_military_hours() {
    assert_eq!(AmOrPm::AM.to_hour_in_mility_time(1), Some(1));
    assert_eq!(AmOrPm::AM.to_hour_in_mility_time(11), Some(11));
    assert_eq!(AmOrPm::AM.to_hour_in_mility_time(12), Some(0));
    assert_eq!(AmOrPm::PM.to_hour_in_mility_time(1), Some(13));
    assert_eq!(AmOrPm::PM.to_hour_in_mility_time(11), Some(23));
    assert_eq!(AmOrPm::PM.to_hour_in_mility_time(12), Some(12));
    assert_eq!(AmOrPm::AM.to_hour_in_mility_time(0), None);
    assert_eq!(AmOrPm::PM.to_hour_in_mility_time(13), None);
}
