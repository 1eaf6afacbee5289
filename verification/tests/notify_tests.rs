use pellxd::backend::{AnyBackend, PrintlnBackend, SlackBackend};
use pellxd::context::Context;
use pellxd::notify::dispatch::{
    any_due_reminder, any_due_retry, apply_send_result, begin_send_at, due_retry,
    pause_before_send, send_gate, NotificationResult,
};
use pellxd::notify::{
    FailedSendAttempt, MessageType, NotificationSender, Notifier, NotifierState, SendResult,
    SendStep, StateCarrier, HOUR_NANOS, SECOND_NANOS,
};
use pellxd::settings::MessageStrings;
use pellxd::time::{Timestamp, WallTime};

const NEW_YEAR: i64 = 1_704_067_200;

fn ctx_at(instant: u64) -> Context {
    Context::new(Timestamp::new(instant, WallTime::new(NEW_YEAR, 0, 0).unwrap()))
}

fn println_notifier(dry_run: bool) -> Notifier<AnyBackend> {
    Notifier::new(AnyBackend::Println(PrintlnBackend::new(0, MessageStrings::default())), dry_run)
}

#[test]
fn message_types_have_names() {
    assert_eq!(MessageType::Alert.as_str(), "alert");
    assert_eq!(MessageType::Reminder.to_string(), "reminder");
    assert_eq!(MessageType::StartupFailed.as_str(), "startup_failed");
    assert_eq!(MessageType::StartupSuccess.as_str(), "startup_success");
    assert_eq!(MessageType::StartupFailed.variant_name(), "StartupFailed");
    assert_eq!(format!("{:?}", MessageType::StartupSuccess), MessageType::StartupSuccess.variant_name());
}

#[test]
fn reminders_are_spaced_out_more_and_more() {
    let mut state = NotifierState::new();
    let expected_hours = [3u64, 6, 12, 24, 24, 48, 48, 96, 168, 168];
    for (count, hours) in expected_hours.iter().enumerate() {
        state.reminder_count = count as u32;
        state.bump_time_of_next_reminder(1000);
        assert_eq!(state.time_of_next_reminder, Some(1000 + hours * HOUR_NANOS));
    }
}

#[test]
fn retries_are_spaced_out_more_and_more() {
    let mut state = NotifierState::new();
    let expected = [(0u32, 5u64), (3, 5), (4, 15), (6, 15), (7, 30), (9, 30), (10, 60), (12, 60), (13, 120), (99, 120)];
    for (count, secs) in expected {
        state.retry_count = count;
        state.bump_time_of_next_retry(7);
        assert_eq!(state.time_of_next_retry, Some(7 + secs * SECOND_NANOS));
    }
}

#[test]
fn due_checks_compare_with_now() {
    let mut state = NotifierState::default();
    assert!(!state.has_due_reminder(u64::MAX));
    assert!(!state.has_due_retry(u64::MAX));
    state.time_of_next_reminder = Some(100);
    state.time_of_next_retry = Some(50);
    assert!(!state.has_due_reminder(99));
    assert!(state.has_due_reminder(100));
    assert!(state.has_due_retry(50));
    assert!(!state.has_due_retry(49));
}

#[test]
fn outcomes_update_the_state() {
    let ctx = ctx_at(0);
    let mut state = NotifierState::new();

    apply_send_result(&mut state, &ctx, MessageType::Alert, &SendResult::Failure("down".into()), 10);
    let failed = state.previous_failed_send.unwrap();
    assert_eq!(failed.message_type, MessageType::Alert);
    assert_eq!(state.time_of_next_retry, Some(10 + 5 * SECOND_NANOS));
    assert_eq!(state.time_of_next_reminder, None);
    assert_eq!(state.retry_count, 1);

    apply_send_result(&mut state, &ctx, MessageType::Alert, &SendResult::Success(None), 20);
    assert_eq!(state.time_of_next_reminder, Some(20 + 3 * HOUR_NANOS));
    assert_eq!(state.retry_count, 0);
    // An alert that went through settles the stored failure.
    assert!(state.previous_failed_send.is_none());
    assert_eq!(state.time_of_next_retry, None);
    assert!(due_retry(&state, u64::MAX, 0).is_none());

    apply_send_result(&mut state, &ctx, MessageType::Reminder, &SendResult::Success(None), 30);
    assert_eq!(state.reminder_count, 1);
    assert_eq!(state.time_of_next_reminder, Some(30 + 6 * HOUR_NANOS));
    assert!(state.previous_failed_send.is_none());
    assert_eq!(state.time_of_next_retry, None);

    apply_send_result(&mut state, &ctx, MessageType::Reminder, &SendResult::TryAgainLater, 40);
    apply_send_result(&mut state, &ctx, MessageType::Reminder, &SendResult::NoMessage, 40);
    assert_eq!(state.reminder_count, 1);

    apply_send_result(&mut state, &ctx, MessageType::StartupSuccess, &SendResult::Success(Some("x".into())), 50);
    assert!(state.previous_failed_send.is_none());
    assert_eq!(state.time_of_next_reminder, None);
    assert_eq!(state.time_of_next_retry, None);
    assert_eq!(state.reminder_count, 0);
}

#[test]
fn reminders_wait_for_their_time() {
    let mut state = NotifierState::new();
    assert!(send_gate(&state, &ctx_at(5), MessageType::Alert).is_none());
    match send_gate(&state, &ctx_at(5), MessageType::Reminder) {
        Some(SendResult::Failure(m)) => assert_eq!(m, "Logic error: missing time_of_next_reminder"),
        _ => panic!("expected a failure"),
    }
    state.time_of_next_reminder = Some(100);
    assert!(matches!(send_gate(&state, &ctx_at(99), MessageType::Reminder), Some(SendResult::TryAgainLater)));
    assert!(send_gate(&state, &ctx_at(100), MessageType::Reminder).is_none());
}

#[test]
fn failed_sends_are_retried_when_due() {
    let window = 480 * SECOND_NANOS;
    let mut ctx = ctx_at(0);
    let mut state = NotifierState::new();
    assert!(due_retry(&state, 1_000, window).is_none());

    state.previous_failed_send = Some(FailedSendAttempt::new(MessageType::Alert, &ctx));
    assert!(due_retry(&state, 1_000, window).is_none());
    state.time_of_next_retry = Some(500);
    assert!(due_retry(&state, 499, window).is_none());
    assert_eq!(due_retry(&state, 500, window).unwrap().message_type, MessageType::Alert);

    state.previous_failed_send = Some(FailedSendAttempt::new(MessageType::Reminder, &ctx));
    assert!(due_retry(&state, 500, window).is_none());
    state.time_of_next_reminder = Some(600);
    assert!(due_retry(&state, 599, window).is_none());
    assert!(due_retry(&state, 600, window).is_some());

    state.previous_failed_send = Some(FailedSendAttempt::new(MessageType::StartupFailed, &ctx));
    assert!(due_retry(&state, 600, window).is_none());
    ctx.time_of_startup = Some(Timestamp::new(100, WallTime::new(NEW_YEAR, 0, 0).unwrap()));
    state.previous_failed_send = Some(FailedSendAttempt::new(MessageType::StartupFailed, &ctx));
    assert!(due_retry(&state, 100 + window - 1, window).is_none());
    assert!(due_retry(&state, 100 + window, window).is_some());
}

#[test]
fn sends_are_prepared_per_backend() {
    let ctx = ctx_at(0);
    let now = WallTime::new(NEW_YEAR, 0, 0).unwrap();
    let n = println_notifier(false);
    match n.prepare_send_at(&ctx, MessageType::StartupFailed, &now) {
        SendStep::Done(SendResult::Success(Some(body))) => assert!(body.starts_with("PellX burner startup failed\n")),
        _ => panic!("println should echo"),
    }
    let slack = Notifier::new(AnyBackend::Slack(SlackBackend::new(1, "u", false, MessageStrings::default())), false);
    match slack.prepare_send_at(&ctx, MessageType::StartupFailed, &now) {
        SendStep::Emit(body) => assert!(body.starts_with("{\"text\":\"PellX burner startup failed")),
        _ => panic!("slack must emit"),
    }
    let dry = Notifier::new(AnyBackend::Slack(SlackBackend::new(1, "u", false, MessageStrings::default())), true);
    match dry.prepare_send_at(&ctx, MessageType::Alert, &now) {
        SendStep::Done(SendResult::Success(Some(body))) => assert!(body.starts_with("{\n  \"text\"")),
        _ => panic!("dry run should succeed"),
    }
    let mut silent = MessageStrings::default();
    silent.alert_header = String::new();
    let quiet = Notifier::new(AnyBackend::Println(PrintlnBackend::new(0, silent)), false);
    assert!(matches!(quiet.prepare_send_at(&ctx, MessageType::Alert, &now), SendStep::Done(SendResult::NoMessage)));
    assert!(matches!(begin_send_at(&n, &ctx, MessageType::Reminder, &now), SendStep::Skipped(SendResult::Failure(_))));
    assert_eq!(n.id(), 0);
    assert_eq!(NotificationSender::name(&n), "println-0");
    assert!(n.state().time_of_next_reminder.is_none());
}

#[test]
fn due_checks_over_all_notifiers() {
    let mut ns = vec![println_notifier(false), println_notifier(false)];
    assert!(!any_due_reminder(&ns, 10));
    assert!(!any_due_retry(&ns, 10));
    ns[1].state.time_of_next_reminder = Some(10);
    ns[0].state.time_of_next_retry = Some(11);
    assert!(any_due_reminder(&ns, 10));
    assert!(!any_due_retry(&ns, 10));
    assert!(any_due_retry(&ns, 11));
}

#[test]
fn outcomes_are_tallied() {
    let mut tally = NotificationResult::new(5);
    tally.record(&SendResult::Success(None));
    tally.record(&SendResult::Failure("x".into()));
    tally.record(&SendResult::TryAgainLater);
    tally.record(&SendResult::NoMessage);
    tally.record(&SendResult::Success(Some("y".into())));
    assert_eq!((tally.total, tally.success, tally.failure, tally.try_again_later), (5, 2, 1, 1));
}

#[test]
fn emit_outcomes_become_send_results() {
    assert!(matches!(SendResult::from_emit(Ok(None)), SendResult::Success(None)));
    assert!(matches!(SendResult::from_emit(Err("e".into())), SendResult::Failure(e) if e == "e"));
}

#[test]
fn failed_retries_wait_longer_and_longer() {
    let ctx = ctx_at(0);
    let mut state = NotifierState::new();
    let expected_secs = [5u64, 5, 5, 5, 15, 15, 15, 30, 30, 30, 60, 60, 60, 120, 120];
    for (i, secs) in expected_secs.iter().enumerate() {
        apply_send_result(&mut state, &ctx, MessageType::Alert, &SendResult::Failure("down".into()), 1000);
        assert_eq!(state.retry_count, i as u32 + 1);
        assert_eq!(state.time_of_next_retry, Some(1000 + secs * SECOND_NANOS));
    }
    state.retry_count = u32::MAX;
    apply_send_result(&mut state, &ctx, MessageType::Alert, &SendResult::Failure("down".into()), 1000);
    assert_eq!(state.retry_count, u32::MAX);
    assert_eq!(state.time_of_next_retry, Some(1000 + 120 * SECOND_NANOS));

    apply_send_result(&mut state, &ctx, MessageType::StartupFailed, &SendResult::Success(None), 2000);
    assert_eq!(state.retry_count, 0);
    assert!(state.previous_failed_send.is_none());
    assert_eq!(state.time_of_next_retry, None);
}

#[test]
fn only_later_notifiers_pause_and_skipped_steps_keep_the_state() {
    let first = Notifier::new(AnyBackend::Slack(SlackBackend::new(0, "u", false, MessageStrings::default())), false);
    let second = Notifier::new(AnyBackend::Slack(SlackBackend::new(1, "u", false, MessageStrings::default())), false);
    let echo = Notifier::new(AnyBackend::Println(PrintlnBackend::new(2, MessageStrings::default())), false);
    assert_eq!(pause_before_send(&first), 0);
    assert_eq!(pause_before_send(&second), 300_000_000);
    assert_eq!(pause_before_send(&echo), 0);
    assert!(!SendStep::Skipped(SendResult::TryAgainLater).updates_state());
    assert!(SendStep::Done(SendResult::NoMessage).updates_state());
    assert!(SendStep::Emit(String::from("x")).updates_state());
}

#[test]
fn a_round_is_tallied_by_outcome() {
    let outcomes = vec![
        SendResult::Success(None),
        SendResult::Failure("x".into()),
        SendResult::TryAgainLater,
        SendResult::NoMessage,
        SendResult::Success(Some("y".into())),
    ];
    let tally = NotificationResult::tally(&outcomes);
    assert_eq!(tally.total, 5);
    assert_eq!(tally.success, 2);
    assert_eq!(tally.failure, 1);
    assert_eq!(tally.try_again_later, 1);
    let empty = NotificationResult::tally(&Vec::new());
    assert_eq!((empty.total, empty.success, empty.failure, empty.try_again_later), (0, 0, 0, 0));
}
