use pellxd::compose;
use pellxd::context::Context;
use pellxd::message::{compose_at, compose_common_at, compose_alert_message, unescape};
use pellxd::notify::MessageType;
use pellxd::settings::MessageStrings;
use pellxd::time::{Timestamp, WallTime};

// 2024-01-01T00:00:00Z
const NEW_YEAR: i64 = 1_704_067_200;

fn utc(secs: i64) -> WallTime {
    WallTime::new(secs, 0, 0).unwrap()
}

fn stamp(secs: i64) -> Timestamp {
    Timestamp::new(0, utc(secs))
}

fn ctx_at(secs: i64) -> Context {
    Context::new(stamp(secs))
}

#[test]
fn empty_header_gives_empty_message() {
    let ctx = ctx_at(NEW_YEAR);
    assert_eq!(compose_common_at(&ctx, "", "body", "footer", &utc(NEW_YEAR)), "");
}

#[test]
fn header_body_and_footer_are_joined_by_line_breaks() {
    let ctx = ctx_at(NEW_YEAR);
    let now = utc(NEW_YEAR);
    assert_eq!(compose_common_at(&ctx, "H", "B", "", &now), "H\nB");
    assert_eq!(compose_common_at(&ctx, "H", "B", "F", &now), "H\nB\nF");
    assert_eq!(compose_common_at(&ctx, "H", "", "", &now), "H");
    assert_eq!(compose_common_at(&ctx, "H  ", "B \n\t ", "", &now), "H  \nB");
}

#[test]
fn escapes_are_unescaped() {
    let input: Vec<char> = "a\\nb\\tc\\\\n\\{x\\}\\\"".chars().collect();
    let out: String = unescape(&input).iter().collect();
    assert_eq!(out, "a\nb\tc\\n{x}\"");
    let doubled: Vec<char> = "\\\\n \\\\\\t \\q \\".chars().collect();
    let out: String = unescape(&doubled).iter().collect();
    assert_eq!(out, "\\n \\\t \\q \\");
    let ctx = ctx_at(NEW_YEAR);
    assert_eq!(
        compose_common_at(&ctx, "PellX burner failure\\n", "x", "", &utc(NEW_YEAR)),
        "PellX burner failure\n\nx"
    );
}

#[test]
fn placeholders_are_filled_in() {
    let mut ctx = ctx_at(NEW_YEAR + 600);
    ctx.went_high_at = Some(stamp(NEW_YEAR + 300));
    let now = utc(NEW_YEAR + 3600);
    assert_eq!(
        compose_common_at(&ctx, "{name} {version}", "high at {fuzzy_high}, low at {fuzzy_low}", "", &now),
        "pellxd 0.1.0\nhigh at 00:05:00, low at {fuzzy_low}"
    );
    assert_eq!(
        compose_common_at(&ctx, "now {time_now} {date_now} {fuzzy_now}", "then {time_then} {date_then} {fuzzy_then}", "", &now),
        "now 01:00 2024-01-01 01:00:00\nthen 00:10 2024-01-01 00:10:00"
    );
    // An escaped brace can be used to build a placeholder.
    assert_eq!(compose_common_at(&ctx, "\\{name}", "", "", &now), "pellxd");
}

#[test]
fn message_strings_are_picked_by_type() {
    let mut ctx = ctx_at(NEW_YEAR);
    ctx.went_high_at = Some(stamp(NEW_YEAR));
    ctx.went_low_at = Some(stamp(NEW_YEAR + 120));
    let strings = MessageStrings::default();
    let now = utc(NEW_YEAR + 3600);
    assert_eq!(
        compose_at(&ctx, &strings, MessageType::Alert, &now),
        "PellX burner failure\n\nIt went into an error state at 00:00:00."
    );
    assert_eq!(
        compose_at(&ctx, &strings, MessageType::Reminder, &now),
        "PellX burner still in failure\n\nIt has been in an error state since 00:00:00."
    );
    assert_eq!(
        compose_at(&ctx, &strings, MessageType::StartupFailed, &now),
        "PellX burner startup failed\nIt tried to start up but failed at 00:00:00."
    );
    assert_eq!(
        compose_at(&ctx, &strings, MessageType::StartupSuccess, &now),
        "PellX burner startup succeeded\nIt successfully started up at 00:02:00."
    );
}

#[test]
fn composing_at_the_current_time_fills_in_recent_times() {
    let now = WallTime::now(0).unwrap();
    let ctx = Context::new(Timestamp::new(0, now));
    let mut strings = MessageStrings::default();
    strings.alert_header = String::from("Alert");
    strings.alert_body = String::from("{name}");
    assert_eq!(compose_alert_message(&ctx, &strings, 0).unwrap(), "Alert\npellxd");
}

#[test]
fn plain_composition_keeps_escapes_and_trailing_space() {
    let mut ctx = ctx_at(NEW_YEAR);
    ctx.went_high_at = Some(stamp(NEW_YEAR));
    let now = utc(NEW_YEAR + 60);
    assert_eq!(
        compose::compose_common_at(&ctx, "H\\n", "at {went_high_at} ", "", &now),
        "H\\n\nat 00:00:00 "
    );
    assert_eq!(compose::compose_common_at(&ctx, "", "x", "y", &now), "");
    let strings = MessageStrings::default();
    assert!(compose::compose_alert_message(&ctx, &strings, 0).unwrap().starts_with("PellX burner failure\\n\n"));
}
