use pellxd::backend::{AnyBackend, PrintlnBackend};
use pellxd::context::Context;
use pellxd::monitor::{end_loop, observe, LoopDecision, Marker};
use pellxd::notify::{MessageType, Notifier};
use pellxd::settings::MessageStrings;
use pellxd::source::Reading;
use pellxd::time::{Timestamp, WallTime};

const SEC: u64 = 1_000_000_000;
const WINDOW: u64 = 480 * SEC;

fn at(secs: u64) -> Timestamp {
    Timestamp::new(secs * SEC, WallTime::new(1_704_067_200 + secs as i64, 0, 0).unwrap())
}

fn notifiers() -> Vec<Notifier<AnyBackend>> {
    vec![Notifier::new(AnyBackend::Println(PrintlnBackend::new(0, MessageStrings::default())), false)]
}

/// Runs one iteration at `secs` and returns what it decided.
fn step(ctx: &mut Context, ns: &Vec<Notifier<AnyBackend>>, reading: Reading, secs: u64) -> LoopDecision {
    ctx.now = at(secs);
    let d = observe(ctx, reading, at(secs), WINDOW, ns);
    end_loop(ctx, &d);
    d
}

#[test]
fn quiet_while_low_from_the_start() {
    let ns = notifiers();
    let mut ctx = Context::new(at(0));
    for s in 0..5 {
        assert_eq!(step(&mut ctx, &ns, Reading::Low, s), LoopDecision { notify: None, marker: None });
    }
    assert_eq!(ctx.loop_iteration, 5);
    assert!(ctx.time_of_state_change.is_none());
}

#[test]
fn a_rise_alerts_and_a_steady_high_reminds_when_due() {
    let mut ns = notifiers();
    let mut ctx = Context::new(at(0));
    step(&mut ctx, &ns, Reading::Low, 0);
    let d = step(&mut ctx, &ns, Reading::High, 1);
    assert_eq!(d, LoopDecision { notify: Some(MessageType::Alert), marker: Some(Marker::NewHigh) });
    assert_eq!(ctx.went_high_at.unwrap().instant, SEC);
    assert_eq!(step(&mut ctx, &ns, Reading::High, 2).notify, None);
    ns[0].state.time_of_next_reminder = Some(3 * SEC);
    assert_eq!(step(&mut ctx, &ns, Reading::High, 3).notify, Some(MessageType::Reminder));
}

#[test]
fn high_on_the_first_reading_alerts() {
    let ns = notifiers();
    let mut ctx = Context::new(at(0));
    assert_eq!(step(&mut ctx, &ns, Reading::High, 0).notify, Some(MessageType::Alert));
}

#[test]
fn a_startup_that_lasts_the_window_succeeds_once() {
    let ns = notifiers();
    let mut ctx = Context::new(at(0));
    step(&mut ctx, &ns, Reading::High, 0);
    let d = step(&mut ctx, &ns, Reading::Low, 10);
    assert_eq!(d, LoopDecision { notify: None, marker: Some(Marker::NewLow) });
    assert_eq!(ctx.time_of_startup_from_low.unwrap().instant, 10 * SEC);
    assert_eq!(step(&mut ctx, &ns, Reading::Low, 11).notify, None);
    assert_eq!(step(&mut ctx, &ns, Reading::Low, 10 + 479).notify, None);
    assert_eq!(step(&mut ctx, &ns, Reading::Low, 10 + 480).notify, Some(MessageType::StartupSuccess));
    assert!(ctx.startup_succeeded);
    assert_eq!(step(&mut ctx, &ns, Reading::Low, 10 + 481).notify, None);
    assert_eq!(step(&mut ctx, &ns, Reading::Low, 10 + 2000).notify, None);
}

#[test]
fn a_startup_cut_short_fails() {
    let ns = notifiers();
    let mut ctx = Context::new(at(0));
    step(&mut ctx, &ns, Reading::High, 0);
    step(&mut ctx, &ns, Reading::Low, 10);
    let d = step(&mut ctx, &ns, Reading::High, 100);
    assert_eq!(d, LoopDecision { notify: Some(MessageType::StartupFailed), marker: Some(Marker::NewHigh) });
    // After the window, a rise is an alert again.
    step(&mut ctx, &ns, Reading::Low, 200);
    let d = step(&mut ctx, &ns, Reading::High, 200 + 480);
    assert_eq!(d.notify, Some(MessageType::Alert));
}

#[test]
fn a_startup_attempt_records_its_start() {
    let ns = notifiers();
    let mut ctx = Context::new(at(0));
    step(&mut ctx, &ns, Reading::High, 0);
    assert!(ctx.time_of_startup.is_none());
    let d = step(&mut ctx, &ns, Reading::Low, 10);
    assert_eq!(d.marker, Some(Marker::NewLow));
    assert_eq!(ctx.time_of_startup.unwrap().instant, 10 * SEC);
    assert_eq!(ctx.time_of_startup_from_low.unwrap().instant, 10 * SEC);
    let d = step(&mut ctx, &ns, Reading::High, 20);
    assert_eq!(d.notify, Some(MessageType::StartupFailed));
    assert_eq!(ctx.time_of_startup.unwrap().instant, 10 * SEC);
}
