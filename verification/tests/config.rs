//! Location-role configuration parsing.

use time_converter::config::{Config, LocationRole};

#[test]
fn location_role_parses_valid_pair() {
    let lr = LocationRole::new("12345", "Europe/London").expect("expected a valid role");
    assert_eq!(lr.role_id(), 12345);
    assert_eq!(lr.timezone().as_str(), "Europe/London");
}

#[test]
fn location_role_rejects_unknown_zone() {
    assert!(LocationRole::new("12345", "Atlantis/Lost").is_none());
}

#[test]
fn location_role_rejects_bad_id() {
    assert!(LocationRole::new("12x45", "Europe/London").is_none());
    assert!(LocationRole::new("", "Europe/London").is_none());
}

#[test]
fn config_parses_role_list() {
    let cfg = Config::new(
        String::from("example-token"),
        "Europe/London:111,America/New_York:222",
    );
    let roles = cfg.location_roles();
    assert_eq!(roles.len(), 2);
    assert_eq!(roles[0].role_id(), 111);
    assert_eq!(roles[0].timezone().as_str(), "Europe/London");
    assert_eq!(roles[1].role_id(), 222);
    assert_eq!(roles[1].timezone().as_str(), "America/New_York");
    assert_eq!(cfg.bot_token(), "example-token");
}

#[test]
fn config_skips_malformed_pieces() {
    let cfg = Config::new(
        String::from("t"),
        "nocolon,Europe/London:abc,Bad/Zone:5,Europe/London:7",
    );
    let roles = cfg.location_roles();
    assert_eq!(roles.len(), 1);
    assert_eq!(roles[0].role_id(), 7);
    assert_eq!(roles[0].timezone().as_str(), "Europe/London");
}

#[test]
fn config_drops_exact_duplicates() {
    let cfg = Config::new(
        String::from("t"),
        "Europe/London:5,Europe/London:5,Europe/London:6",
    );
    let roles = cfg.location_roles();
    assert_eq!(roles.len(), 2);
    assert_eq!(roles[0].role_id(), 5);
    assert_eq!(roles[1].role_id(), 6);
}

#[test]
fn config_role_id_may_not_contain_second_colon() {
    let cfg = Config::new(String::from("t"), "Europe/London:5:6");
    assert_eq!(cfg.location_roles().len(), 0);
}
