//! End-to-end pipeline behaviour: timezone resolution, rendering, and
//! the full per-message run.

use chrono::Datelike;
use time_converter::config::Config;
use time_converter::message_handler::{should_process, MessageHandler};

fn days(y: i32, m: u32, d: u32) -> i64 {
    chrono::NaiveDate::from_ymd_opt(y, m, d).unwrap().num_days_from_ce() as i64
}

fn handler_for(roles_text: &str) -> MessageHandler {
    let cfg = Config::new(String::from("example-token"), roles_text);
    MessageHandler::new(&cfg).expect("expected the default pipeline to build")
}

// 2021-01-15: all three destination zones are on standard time.
const WINTER_NOON_LONDON_UTC: i64 = 1610712000;
const WINTER_3PM_LONDON_UTC: i64 = 1610722800;

const NOON_BLOCK: &str =
    "```\nUK      : 12:00 PM GMT\nUS East :  7:00 AM EST\nUS West :  4:00 AM PST\n```";

#[test]
fn should_process_filters_bots_and_direct_messages() {
    assert_eq!(should_process(false, Some(9)), Some(9));
    assert_eq!(should_process(true, Some(9)), None);
    assert_eq!(should_process(false, None), None);
    assert_eq!(should_process(true, None), None);
}

#[test]
fn resolve_local_tz_needs_exactly_one_location_role() {
    let handler = handler_for("Europe/London:42,America/New_York:43");
    assert_eq!(
        handler.resolve_local_tz(&vec![1, 42, 7]),
        Ok(String::from("Europe/London"))
    );
    assert_eq!(handler.resolve_local_tz(&vec![1, 7]), Err(()));
    assert_eq!(handler.resolve_local_tz(&vec![42, 43]), Err(()));
    assert_eq!(handler.resolve_local_tz(&vec![]), Err(()));
}

#[test]
fn construct_response_renders_one_block_per_instant() {
    let handler = handler_for("Europe/London:42");
    assert_eq!(handler.construct_response(&vec![]), None);
    let reply = handler.construct_response(&vec![WINTER_NOON_LONDON_UTC]).unwrap();
    assert_eq!(reply, NOON_BLOCK);
    let two = handler.construct_response(&vec![WINTER_NOON_LONDON_UTC, WINTER_3PM_LONDON_UTC]);
    let expected = format!(
        "{}```\nUK      :  3:00 PM GMT\nUS East : 10:00 AM EST\nUS West :  7:00 AM PST\n```",
        NOON_BLOCK
    );
    assert_eq!(two.unwrap(), expected);
}

#[test]
fn noon_message_yields_one_block_end_to_end() {
    let handler = handler_for("Europe/London:42");
    let reply = handler.process_message_on_date(
        &vec![42],
        "noon",
        WINTER_3PM_LONDON_UTC,
        days(2021, 1, 15),
    );
    assert_eq!(reply.unwrap(), NOON_BLOCK);
}

#[test]
fn unrecognized_text_yields_silence() {
    let handler = handler_for("Europe/London:42");
    let reply = handler.process_message_on_date(
        &vec![42],
        "hello there, nothing about clocks",
        WINTER_3PM_LONDON_UTC,
        days(2021, 1, 15),
    );
    assert_eq!(reply, None);
}

#[test]
fn ambiguous_roles_yield_silence() {
    let handler = handler_for("Europe/London:42,America/New_York:43");
    let reply = handler.process_message_on_date(
        &vec![42, 43],
        "noon",
        WINTER_3PM_LONDON_UTC,
        days(2021, 1, 15),
    );
    assert_eq!(reply, None);
}

#[test]
fn equal_instants_from_different_extractors_collapse() {
    let handler = handler_for("Europe/London:42");
    // "noon" (fixed phrase) and "12pm" (dynamic pattern) denote the same
    // instant, so one block is rendered.
    let reply = handler.process_message_on_date(
        &vec![42],
        "see you at noon, that is 12pm",
        WINTER_3PM_LONDON_UTC,
        days(2021, 1, 15),
    );
    assert_eq!(reply.unwrap(), NOON_BLOCK);
}

#[test]
fn current_time_question_reflects_the_message_time() {
    let handler = handler_for("Europe/London:42");
    let reply = handler.process_message_on_date(
        &vec![42],
        "what time is it now",
        WINTER_3PM_LONDON_UTC,
        days(2021, 1, 15),
    );
    assert_eq!(
        reply.unwrap(),
        "```\nUK      :  3:00 PM GMT\nUS East : 10:00 AM EST\nUS West :  7:00 AM PST\n```"
    );
}

#[test]
fn dynamic_mentions_render_in_appearance_order() {
    let handler = handler_for("Europe/London:42");
    let reply = handler
        .process_message_on_date(
            &vec![42],
            "3am 4america 5am-6pm 5am 17am 17pm",
            WINTER_3PM_LONDON_UTC,
            days(2021, 1, 15),
        )
        .unwrap();
    let expected = "```\nUK      :  3:00 AM GMT\nUS East : 10:00 PM EST\nUS West :  7:00 PM PST\n``````\nUK      :  5:00 AM GMT\nUS East : 12:00 AM EST\nUS West :  9:00 PM PST\n``````\nUK      :  6:00 PM GMT\nUS East :  1:00 PM EST\nUS West : 10:00 AM PST\n```";
    assert_eq!(reply, expected);
}

#[test]
fn process_message_anchors_to_the_wall_clock_date() {
    let handler = handler_for("Europe/London:42");
    assert!(handler.process_message(&vec![42], "noon", WINTER_3PM_LONDON_UTC).is_some());
    assert_eq!(handler.process_message(&vec![42], "no clocks here", WINTER_3PM_LONDON_UTC), None);
}

#[test]
fn nonexistent_local_time_is_silently_dropped() {
    // US Eastern springs forward on 2021-03-14: 2:30 AM does not exist.
    let handler = handler_for("America/New_York:42");
    let reply = handler.process_message_on_date(
        &vec![42],
        "wake me at 2:30am",
        1615680000,
        days(2021, 3, 14),
    );
    assert_eq!(reply, None);
}

#[test]
fn ambiguous_local_time_is_silently_dropped() {
    // US Eastern falls back on 2021-11-07: 1:30 AM happens twice.
    let handler = handler_for("America/New_York:42");
    let reply = handler.process_message_on_date(
        &vec![42],
        "wake me at 1:30am",
        1636300800,
        days(2021, 11, 7),
    );
    assert_eq!(reply, None);
}

#[test]
fn only_the_undefined_candidate_is_dropped() {
    // The nonexistent 2:30 AM vanishes; the valid 8 AM mention stays.
    let handler = handler_for("America/New_York:42");
    let reply = handler
        .process_message_on_date(
            &vec![42],
            "either 2:30am or 8am",
            1615680000,
            days(2021, 3, 14),
        )
        .unwrap();
    assert_eq!(
        reply,
        "```\nUK      : 12:00 PM GMT\nUS East :  8:00 AM EDT\nUS West :  5:00 AM PDT\n```"
    );
}
