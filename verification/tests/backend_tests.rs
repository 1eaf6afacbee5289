use pellxd::backend::{
    response_outcome, AnyBackend, Backend, BatsignBackend, CommandBackend, PrintlnBackend,
    SlackBackend,
};
use pellxd::backend::command::get_unix_timestamp;
use pellxd::context::Context;
use pellxd::notify::MessageType;
use pellxd::settings::MessageStrings;
use pellxd::time::{Timestamp, WallTime};

const NEW_YEAR: i64 = 1_704_067_200;

fn utc(secs: i64) -> WallTime {
    WallTime::new(secs, 0, 0).unwrap()
}

fn strings(header: &str, body: &str) -> MessageStrings {
    let mut s = MessageStrings::default();
    s.alert_header = header.to_string();
    s.alert_body = body.to_string();
    s
}

#[test]
fn backends_are_named_after_kind_and_id() {
    assert_eq!(SlackBackend::new(0, "u", false, MessageStrings::default()).name(), "slack-0");
    assert_eq!(BatsignBackend::new(3, "u", false, MessageStrings::default()).name(), "batsign-3");
    assert_eq!(CommandBackend::new(12, "c", false, MessageStrings::default()).name(), "command-12");
    assert_eq!(PrintlnBackend::new(0, MessageStrings::default()).name(), "println-0");
    let any = AnyBackend::Command(CommandBackend::new(5, "c", false, MessageStrings::default()));
    assert_eq!(any.id(), 5);
    assert_eq!(any.name(), "command-5");
}

#[test]
fn stagger_delays_per_backend() {
    assert_eq!(SlackBackend::new(0, "u", false, MessageStrings::default()).stagger_delay(), 300_000_000);
    assert_eq!(BatsignBackend::new(0, "u", false, MessageStrings::default()).stagger_delay(), 300_000_000);
    assert_eq!(CommandBackend::new(0, "c", false, MessageStrings::default()).stagger_delay(), 0);
    assert_eq!(PrintlnBackend::new(0, MessageStrings::default()).stagger_delay(), 0);
}

#[test]
fn slack_wraps_the_message_in_json() {
    let b = SlackBackend::new(0, "https://hooks", true, strings("Head \"x\"", "Body"));
    let ctx = Context::new(Timestamp::new(0, utc(NEW_YEAR)));
    let now = utc(NEW_YEAR);
    assert_eq!(b.compose_at(&ctx, MessageType::Alert, &now), r#"{"text":"Head \"x\"\nBody"}"#);
    assert_eq!(
        b.compose_display_at(&ctx, MessageType::Alert, &now),
        "{\n  \"text\": \"Head \\\"x\\\"\\nBody\"\n}"
    );
    assert!(b.emit_in_process("x").is_none());
}

#[test]
fn slack_escapes_control_characters() {
    let b = SlackBackend::new(0, "https://hooks", false, strings("H", "a\u{1}\u{1b}\u{7f}\u{e9}\u{8}\u{c}\rz"));
    let ctx = Context::new(Timestamp::new(0, utc(NEW_YEAR)));
    let now = utc(NEW_YEAR);
    assert_eq!(
        b.compose_at(&ctx, MessageType::Alert, &now),
        "{\"text\":\"H\\na\\u0001\\u001b\u{7f}\u{e9}\\b\\f\\rz\"}"
    );
    assert_eq!(
        b.compose_display_at(&ctx, MessageType::Alert, &now),
        "{\n  \"text\": \"H\\na\\u0001\\u001b\u{7f}\u{e9}\\b\\f\\rz\"\n}"
    );
}

#[test]
fn println_echoes_the_body() {
    let b = PrintlnBackend::new(0, strings("H", "B"));
    let ctx = Context::new(Timestamp::new(0, utc(NEW_YEAR)));
    assert_eq!(b.compose_at(&ctx, MessageType::Alert, &utc(NEW_YEAR)), "H\nB");
    assert_eq!(b.emit_in_process("hello"), Some(Ok(Some("hello".to_string()))));
}

#[test]
fn batsign_prefixes_a_subject() {
    let b = BatsignBackend::new(0, "u", false, MessageStrings::default());
    assert_eq!(b.request_body("Burner\ndown"), "Subject: Burner\ndown");
    assert!(b.emit_in_process("x").is_none());
}

#[test]
fn command_arguments_carry_the_context() {
    let b = CommandBackend::new(0, "/bin/notify", true, MessageStrings::default());
    let mut ctx = Context::new(Timestamp::new(0, utc(NEW_YEAR)));
    ctx.loop_iteration = 42;
    ctx.went_high_at = Some(Timestamp::new(5, utc(NEW_YEAR + 10)));
    ctx.time_of_state_change = Some(Timestamp::new(5, utc(-20)));
    let args = b.arguments(&ctx, "the body", MessageType::StartupFailed);
    assert_eq!(
        args,
        vec!["the body", "StartupFailed", "42", "0", "1704067210", "-20", "0"]
    );
    assert_eq!(get_unix_timestamp(None), 0);
    assert_eq!(get_unix_timestamp(Some(&Timestamp::new(1, utc(99)))), 99);
}

#[test]
fn command_output_is_shown_under_headings() {
    let show = CommandBackend::new(0, "c", true, MessageStrings::default());
    let hide = CommandBackend::new(0, "c", false, MessageStrings::default());
    assert_eq!(show.response_text("  out \n", ""), Some("STDOUT:\nout".to_string()));
    assert_eq!(show.response_text("", " err"), Some("STDERR:\nerr".to_string()));
    assert_eq!(show.response_text("o", "e"), Some("STDOUT:\no\n---\nSTDERR:\ne".to_string()));
    assert_eq!(show.response_text(" \n", "\t"), None);
    assert_eq!(hide.response_text("o", "e"), None);
}

#[test]
fn http_responses_are_shown_only_when_asked() {
    assert_eq!(response_outcome(true, Ok("ok".to_string())), Ok(Some("ok".to_string())));
    assert_eq!(response_outcome(false, Ok("ok".to_string())), Ok(None));
    assert_eq!(response_outcome(true, Err("timeout".to_string())), Err("timeout".to_string()));
}
