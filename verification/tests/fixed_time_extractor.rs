//! Fixed-phrase extractor behaviour: one constant result when the
//! pattern matches anywhere, however often; nothing otherwise.

use time_converter::extractor::Extractor;
use time_converter::fixed_time_extractor::FixedTimeExtractor;
use time_converter::time_components::{TimeComponents, TimeKind};
use time_converter::time_extractor_context::TimeExtractorContext;

fn tc(hour: u32, minute: u32, kind: TimeKind) -> TimeComponents {
    TimeComponents::new(hour, minute, kind).expect("expected valid time components")
}

fn ctx() -> TimeExtractorContext {
    TimeExtractorContext::new(String::from("UTC"), tc(5, 7, TimeKind::AM))
}

#[test]
fn fixed_extract_no_match_1() {
    let extractor = FixedTimeExtractor::new(r"midday", tc(12, 0, TimeKind::PM)).unwrap();
    let actual: Vec<TimeComponents> = extractor.extract("It is midnight.", &ctx());
    assert_eq!(actual, vec![]);
}

#[test]
fn fixed_extract_single_match_1() {
    let extractor = FixedTimeExtractor::new(r"noon|midday", tc(12, 0, TimeKind::PM)).unwrap();
    let actual: Vec<TimeComponents> = extractor.extract("I'm free at noon.", &ctx());
    assert_eq!(actual, vec![tc(12, 0, TimeKind::PM)]);
}

#[test]
fn fixed_extract_single_match_2() {
    let extractor = FixedTimeExtractor::new(r"noon|midday", tc(12, 0, TimeKind::PM)).unwrap();
    let actual: Vec<TimeComponents> = extractor.extract("I'm free at midday.", &ctx());
    assert_eq!(actual, vec![tc(12, 0, TimeKind::PM)]);
}

#[test]
fn fixed_extract_single_match_3() {
    let extractor = FixedTimeExtractor::new(r"midnight", tc(12, 0, TimeKind::AM)).unwrap();
    let actual: Vec<TimeComponents> = extractor.extract("It is midnight.", &ctx());
    assert_eq!(actual, vec![tc(12, 0, TimeKind::AM)]);
}

#[test]
fn fixed_extract_multi_match_1() {
    let extractor = FixedTimeExtractor::new(r"noon", tc(12, 0, TimeKind::Military)).unwrap();
    let actual: Vec<TimeComponents> = extractor.extract("At noon, it is noon.", &ctx());
    assert_eq!(actual, vec![tc(12, 0, TimeKind::Military)]);
}

#[test]
fn fixed_invalid_pattern_is_rejected() {
    let r = FixedTimeExtractor::new(r"(unclosed", tc(12, 0, TimeKind::PM));
    assert!(r.is_err());
}
