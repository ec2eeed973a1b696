//! Dynamic-pattern extractor behaviour: construction-time validation of
//! the named capture groups, and best-effort match parsing with
//! deduplication at runtime.

use time_converter::extractor::{Extractor, ExtractorConfigError};
use time_converter::dynamic_time_extractor::DynamicTimeExtractor;
use time_converter::time_components::{TimeComponents, TimeKind};
use time_converter::time_extractor_context::TimeExtractorContext;

fn tc(hour: u32, minute: u32, kind: TimeKind) -> TimeComponents {
    TimeComponents::new(hour, minute, kind).expect("expected valid time components")
}

fn ctx() -> TimeExtractorContext {
    TimeExtractorContext::new(String::from("UTC"), tc(1, 0, TimeKind::AM))
}

const FULL_PATTERN: &str = r"(?i:(?<!\w)(?P<hours>(?:1[012])|(?:0?[123456789]))\s*(?::\s*(?P<minutes>(?:[12345]\d)|(?:0\d)))?\s*(?P<time_kind>[ap]m)(?!\w))";

#[test]
fn test_missing_capture_groups_1() {
    let r = DynamicTimeExtractor::new(r"");
    assert_eq!(r.err(), Some(ExtractorConfigError::MissingRequiredCaptureGroup));
}

#[test]
fn test() {
    let extractor = DynamicTimeExtractor::new(FULL_PATTERN).unwrap();
    let text = String::from("3am 4america 5am-6pm 5am 17am 17pm");
    let actual: Vec<TimeComponents> = extractor.extract(&text, &ctx());
    assert_eq!(
        actual,
        vec![tc(3, 0, TimeKind::AM), tc(5, 0, TimeKind::AM), tc(6, 0, TimeKind::PM)]
    );
}

#[test]
fn dynamic_minutes_are_parsed_and_default_to_zero() {
    let extractor = DynamicTimeExtractor::new(FULL_PATTERN).unwrap();
    let actual = extractor.extract("meet at 11:30 am or 7pm", &ctx());
    assert_eq!(actual, vec![tc(11, 30, TimeKind::AM), tc(7, 0, TimeKind::PM)]);
}

#[test]
fn dynamic_duplicates_collapse_to_first_occurrence_order() {
    let extractor = DynamicTimeExtractor::new(FULL_PATTERN).unwrap();
    let actual = extractor.extract("9pm 8am 9pm 8am 9pm", &ctx());
    assert_eq!(actual, vec![tc(9, 0, TimeKind::PM), tc(8, 0, TimeKind::AM)]);
}

#[test]
fn dynamic_invalid_pattern_is_rejected() {
    let r = DynamicTimeExtractor::new(r"(?P<hours>[");
    assert_eq!(r.err(), Some(ExtractorConfigError::InvalidPattern));
}

#[test]
fn dynamic_partial_groups_are_rejected() {
    let r = DynamicTimeExtractor::new(r"(?P<hours>\d+)\s*(?P<time_kind>[ap]m)");
    assert_eq!(r.err(), Some(ExtractorConfigError::MissingRequiredCaptureGroup));
}

#[test]
fn dynamic_disallowed_group_is_rejected() {
    let r = DynamicTimeExtractor::new(
        r"(?P<hours>\d+)(?P<minutes>\d+)(?P<time_kind>[ap]m)(?P<seconds>\d+)",
    );
    assert_eq!(r.err(), Some(ExtractorConfigError::DisallowedCaptureGroup));
}
