//! Decisions of the monitor loop: how a reading updates the loop's context,
//! and which notification (if any) the reading calls for.

use vstd::prelude::*;

use crate::backend::Backend;
use crate::context::Context;
use crate::notify::dispatch::{any_due_reminder, some_reminder_due};
use crate::notify::{MessageType, Notifier};
use crate::source::Reading;
use crate::time::{elapsed, elapsed_nanos, Timestamp};

verus! {

/// A point of interest in the loop, reported in debug output.
#[derive(Debug, Clone, Copy, PartialEq, Eq, Structural)]
pub enum Marker {
    /// The first LOW reading of a startup attempt.
    NewLow,
    /// A HIGH reading that was a change, or the first reading.
    NewHigh,
}

/// What one iteration of the loop calls for.
#[derive(Debug, Clone, Copy, PartialEq, Eq, Structural)]
pub struct LoopDecision {
    /// The notification to send through all notifiers, if any.
    pub notify: Option<MessageType>,
    /// The point of interest reached, if any.
    pub marker: Option<Marker>,
}

/// The context after taking note of `reading` at `stamp`: a change to LOW
/// records when the burner went low and starts a new startup attempt; a
/// change to HIGH records when it went high; any change becomes the previous
/// reading and the time of the last state change.
pub open spec fn noted(ctx: Context, reading: Reading, stamp: Timestamp) -> Context {
    if reading == ctx.previous_reading {
        ctx
    } else {
        let c = match reading {
            Reading::Low => Context {
                went_low_at: Some(stamp),
                time_of_startup_from_low: None,
                startup_succeeded: false,
                ..ctx
            },
            Reading::High => Context { went_high_at: Some(stamp), ..ctx },
        };
        Context { previous_reading: reading, time_of_state_change: Some(stamp), ..c }
    }
}

/// Whether the startup attempt begun in `ctx` lasted less than the startup
/// window up to `stamp`.
pub open spec fn startup_cut_short(ctx: Context, stamp: Timestamp, startup_window: u64) -> bool {
    match ctx.time_of_startup_from_low {
        Some(t) => elapsed_nanos(t.instant, stamp.instant) < startup_window,
        None => false,
    }
}

/// The context after an iteration with `reading` at `stamp`, before any
/// notification is sent: the reading noted, and the start of a startup
/// attempt recorded at the first LOW reading after a change, both as the
/// start of the attempt under way and as the time of startup.
pub open spec fn observed(ctx: Context, reading: Reading, stamp: Timestamp) -> Context {
    let c = noted(ctx, reading, stamp);
    if reading == Reading::Low && c.time_of_state_change is Some && !c.startup_succeeded
        && c.time_of_startup_from_low is None {
        Context { time_of_startup_from_low: Some(stamp), time_of_startup: Some(stamp), ..c }
    } else {
        c
    }
}

/// What an iteration with `reading` at `stamp` calls for, given the context
/// before it and whether some notifier has a reminder due.
///
/// While LOW, a startup attempt that has lasted the whole startup window
/// calls for a startup success (once: until `startup_succeeded` is set).
/// A HIGH reading that is a change, or the first reading, calls for a
/// startup failure if a startup attempt was cut short, for an alert
/// otherwise; a steady HIGH calls for a reminder when one is due.
pub open spec fn decided(
    ctx: Context,
    reading: Reading,
    stamp: Timestamp,
    startup_window: u64,
    reminder_due: bool,
) -> LoopDecision {
    let changed = reading != ctx.previous_reading;
    let first = ctx.loop_iteration == 0;
    let c = noted(ctx, reading, stamp);
    match reading {
        Reading::Low => if c.time_of_state_change is None || c.startup_succeeded {
            LoopDecision { notify: None, marker: None }
        } else {
            match c.time_of_startup_from_low {
                None => LoopDecision { notify: None, marker: Some(Marker::NewLow) },
                Some(t) => if elapsed_nanos(t.instant, stamp.instant) >= startup_window {
                    LoopDecision { notify: Some(MessageType::StartupSuccess), marker: None }
                } else {
                    LoopDecision { notify: None, marker: None }
                },
            }
        },
        Reading::High => if changed || first {
            if startup_cut_short(c, stamp, startup_window) {
                LoopDecision { notify: Some(MessageType::StartupFailed), marker: Some(Marker::NewHigh) }
            } else {
                LoopDecision { notify: Some(MessageType::Alert), marker: Some(Marker::NewHigh) }
            }
        } else if reminder_due {
            LoopDecision { notify: Some(MessageType::Reminder), marker: None }
        } else {
            LoopDecision { notify: None, marker: None }
        },
    }
}

/// Takes one reading into account: updates the context (see `observed`) and
/// decides what notification to send (see `decided`), a reminder counting
/// as due when one of `notifiers` has one due at the context's current
/// instant. `stamp` is the time at which the reading was taken.
pub fn observe<B: Backend>(
    ctx: &mut Context,
    reading: Reading,
    stamp: Timestamp,
    startup_window: u64,
    notifiers: &Vec<Notifier<B>>,
) -> (d: LoopDecision)
    ensures
        *final(ctx) == observed(*old(ctx), reading, stamp),
        d == decided(
            *old(ctx),
            reading,
            stamp,
            startup_window,
            some_reminder_due(notifiers@, old(ctx).now.instant),
        ),
{
    let reading_changed = reading != ctx.previous_reading;
    let is_first_iteration = ctx.loop_iteration == 0;
    if reading_changed {
        match reading {
            Reading::Low => {
                ctx.went_low_at = Some(stamp);
                ctx.time_of_startup_from_low = None;
                ctx.startup_succeeded = false;
            },
            Reading::High => {
                ctx.went_high_at = Some(stamp);
            },
        }
        ctx.previous_reading = reading;
        ctx.time_of_state_change = Some(stamp);
    }
    let ghost c = *ctx;
    assert(c == noted(*old(ctx), reading, stamp));
    if ctx.time_of_state_change.is_none() && reading == Reading::Low {
        return LoopDecision { notify: None, marker: None };
    }
    match reading {
        Reading::Low => {
            if ctx.startup_succeeded {
                return LoopDecision { notify: None, marker: None };
            }
            match ctx.time_of_startup_from_low {
                None => {
                    ctx.time_of_startup_from_low = Some(stamp);
                    ctx.time_of_startup = Some(stamp);
                    LoopDecision { notify: None, marker: Some(Marker::NewLow) }
                },
                Some(t) => {
                    if elapsed(t.instant, stamp.instant) >= startup_window {
                        LoopDecision { notify: Some(MessageType::StartupSuccess), marker: None }
                    } else {
                        LoopDecision { notify: None, marker: None }
                    }
                },
            }
        },
        Reading::High => {
            if reading_changed || is_first_iteration {
                let cut_short = match ctx.time_of_startup_from_low {
                    Some(t) => elapsed(t.instant, stamp.instant) < startup_window,
                    None => false,
                };
                if cut_short {
                    LoopDecision {
                        notify: Some(MessageType::StartupFailed),
                        marker: Some(Marker::NewHigh),
                    }
                } else {
                    LoopDecision { notify: Some(MessageType::Alert), marker: Some(Marker::NewHigh) }
                }
            } else if any_due_reminder(notifiers, ctx.now.instant) {
                LoopDecision { notify: Some(MessageType::Reminder), marker: None }
            } else {
                LoopDecision { notify: None, marker: None }
            }
        },
    }
}

/// The context at the end of an iteration that decided `d`: a startup
/// success, once notified, is remembered; the iteration is counted.
pub open spec fn concluded(ctx: Context, d: LoopDecision) -> Context {
    Context {
        startup_succeeded: if d.notify == Some(MessageType::StartupSuccess) {
            true
        } else {
            ctx.startup_succeeded
        },
        loop_iteration: (ctx.loop_iteration + 1) as u64,
        ..ctx
    }
}

/// Ends an iteration that decided `d`, after its notification (if any) was
/// sent (see `concluded`).
pub fn end_loop(ctx: &mut Context, d: &LoopDecision)
    requires
        old(ctx).loop_iteration < u64::MAX,
    ensures
        *final(ctx) == concluded(*old(ctx), *d),
{
    if d.notify == Some(MessageType::StartupSuccess) {
        ctx.startup_succeeded = true;
    }
    ctx.loop_iteration = ctx.loop_iteration + 1;
}

/// A LOW reading never calls for an alert, a reminder or a startup failure:
/// at most for a startup success.
pub proof fn law_low_reading_is_quiet(
    ctx: Context,
    stamp: Timestamp,
    startup_window: u64,
    reminder_due: bool,
)
    ensures
        ({
            let n = decided(ctx, Reading::Low, stamp, startup_window, reminder_due).notify;
            n is None || n == Some(MessageType::StartupSuccess)
        }),
{
}

/// A startup success is notified at most once while the reading stays LOW:
/// the iteration after the one that notified it calls for nothing.
pub proof fn law_startup_success_once(
    ctx: Context,
    first: Timestamp,
    second: Timestamp,
    startup_window: u64,
    due_first: bool,
    due_second: bool,
)
    requires
        ctx.loop_iteration < u64::MAX,
        decided(ctx, Reading::Low, first, startup_window, due_first).notify == Some(
            MessageType::StartupSuccess,
        ),
    ensures
        ({
            let d = decided(ctx, Reading::Low, first, startup_window, due_first);
            let next = concluded(observed(ctx, Reading::Low, first), d);
            decided(next, Reading::Low, second, startup_window, due_second).notify is None
        }),
{
}

/// A change from LOW to HIGH always calls for a notification: a startup
/// failure when it cut a startup attempt short, an alert otherwise.
pub proof fn law_rise_notifies(
    ctx: Context,
    stamp: Timestamp,
    startup_window: u64,
    reminder_due: bool,
)
    requires
        ctx.previous_reading == Reading::Low,
    ensures
        decided(ctx, Reading::High, stamp, startup_window, reminder_due).notify == (
        if startup_cut_short(ctx, stamp, startup_window) {
            Some(MessageType::StartupFailed)
        } else {
            Some(MessageType::Alert)
        }),
{
}

/// A steady HIGH reading calls for nothing but a reminder, and for one
/// exactly when a reminder is due.
pub proof fn law_steady_high_reminds_when_due(
    ctx: Context,
    stamp: Timestamp,
    startup_window: u64,
    reminder_due: bool,
)
    requires
        ctx.previous_reading == Reading::High,
        ctx.loop_iteration > 0,
    ensures
        decided(ctx, Reading::High, stamp, startup_window, reminder_due).notify == (
        if reminder_due {
            Some(MessageType::Reminder)
        } else {
            None
        }),
{
}

/// A drop from HIGH to LOW starts a startup attempt without notifying, and
/// records its start as the time of startup; if the reading stays LOW for
/// the whole startup window, the startup is notified as a success.
pub proof fn law_startup_succeeds_after_window(
    ctx: Context,
    went_low: Timestamp,
    later: Timestamp,
    startup_window: u64,
    due_went_low: bool,
    due_later: bool,
)
    requires
        ctx.previous_reading == Reading::High,
        ctx.loop_iteration < u64::MAX,
        later.instant >= went_low.instant + startup_window,
    ensures
        ({
            let d = decided(ctx, Reading::Low, went_low, startup_window, due_went_low);
            let next = concluded(observed(ctx, Reading::Low, went_low), d);
            &&& d.notify is None
            &&& d.marker == Some(Marker::NewLow)
            &&& next.time_of_startup == Some(went_low)
            &&& next.time_of_startup_from_low == Some(went_low)
            &&& decided(next, Reading::Low, later, startup_window, due_later).notify == Some(
                MessageType::StartupSuccess,
            )
        }),
{
}

/// A rise back to HIGH before a startup attempt has lasted the startup
/// window is notified as a startup failure, in a context that holds the
/// start of that attempt as the time of startup.
pub proof fn law_interrupted_startup_fails(
    ctx: Context,
    went_low: Timestamp,
    rise: Timestamp,
    startup_window: u64,
    due_went_low: bool,
    due_rise: bool,
)
    requires
        ctx.previous_reading == Reading::High,
        ctx.loop_iteration < u64::MAX,
        went_low.instant <= rise.instant < went_low.instant + startup_window,
    ensures
        ({
            let d = decided(ctx, Reading::Low, went_low, startup_window, due_went_low);
            let next = concluded(observed(ctx, Reading::Low, went_low), d);
            &&& decided(next, Reading::High, rise, startup_window, due_rise).notify == Some(
                MessageType::StartupFailed,
            )
            &&& observed(next, Reading::High, rise).time_of_startup == Some(went_low)
        }),
{
}

/// Ending an iteration counts it, and remembers a startup success once it
/// was notified; nothing else of the context changes.
pub proof fn law_iteration_is_counted(ctx: Context, d: LoopDecision)
    requires
        ctx.loop_iteration < u64::MAX,
    ensures
        ({
            let after = concluded(ctx, d);
            &&& after.loop_iteration == ctx.loop_iteration + 1
            &&& after.startup_succeeded == (ctx.startup_succeeded || d.notify == Some(
                MessageType::StartupSuccess,
            ))
            &&& after.went_low_at == ctx.went_low_at
            &&& after.went_high_at == ctx.went_high_at
            &&& after.time_of_state_change == ctx.time_of_state_change
            &&& after.time_of_startup == ctx.time_of_startup
            &&& after.time_of_startup_from_low == ctx.time_of_startup_from_low
            &&& after.previous_reading == ctx.previous_reading
            &&& after.now == ctx.now
        }),
{
}

/// An iteration records each change of reading at the time it was read: a
/// change to LOW as the time the burner went low, a change to HIGH as the
/// time it went high, either as the time of the last state change, and the
/// new reading as the previous one. A reading that is no change leaves
/// those times as they were. A change to LOW also starts a startup attempt
/// at that time; a change to HIGH leaves the attempt as it was. Taking note
/// neither counts the iteration nor changes the context's current time.
pub proof fn law_transitions_are_recorded(ctx: Context, reading: Reading, stamp: Timestamp)
    ensures
        ({
            let after = observed(ctx, reading, stamp);
            &&& after.previous_reading == reading
            &&& after.loop_iteration == ctx.loop_iteration
            &&& after.now == ctx.now
            &&& reading != ctx.previous_reading ==> after.time_of_state_change == Some(stamp)
            &&& reading != ctx.previous_reading && reading == Reading::Low ==> after.went_low_at
                == Some(stamp) && after.went_high_at == ctx.went_high_at
                && after.time_of_startup_from_low == Some(stamp) && after.time_of_startup == Some(
                stamp,
            ) && !after.startup_succeeded
            &&& reading != ctx.previous_reading && reading == Reading::High ==> after.went_high_at
                == Some(stamp) && after.went_low_at == ctx.went_low_at
                && after.time_of_startup_from_low == ctx.time_of_startup_from_low
                && after.time_of_startup == ctx.time_of_startup && after.startup_succeeded
                == ctx.startup_succeeded
            &&& reading == ctx.previous_reading ==> after.went_low_at == ctx.went_low_at
                && after.went_high_at == ctx.went_high_at && after.time_of_state_change
                == ctx.time_of_state_change
        }),
{
}

/// The context after one iteration for each of `stamps`, each with a LOW
/// reading, starting from `ctx`.
pub open spec fn after_low_readings(ctx: Context, stamps: Seq<Timestamp>, startup_window: u64) -> Context
    decreases stamps.len(),
{
    if stamps.len() == 0 {
        ctx
    } else {
        let before = after_low_readings(ctx, stamps.drop_last(), startup_window);
        let d = decided(before, Reading::Low, stamps.last(), startup_window, false);
        concluded(observed(before, Reading::Low, stamps.last()), d)
    }
}

/// LOW readings from a context that has seen no change keep it so: the
/// reading stays LOW and no state change is recorded.
proof fn lemma_low_readings_change_nothing(ctx: Context, stamps: Seq<Timestamp>, startup_window: u64)
    requires
        ctx.previous_reading == Reading::Low,
        ctx.time_of_state_change is None,
    ensures
        after_low_readings(ctx, stamps, startup_window).previous_reading == Reading::Low,
        after_low_readings(ctx, stamps, startup_window).time_of_state_change is None,
    decreases stamps.len(),
{
    if stamps.len() > 0 {
        lemma_low_readings_change_nothing(ctx, stamps.drop_last(), startup_window);
    }
}

/// A source that reads LOW from the start never calls for a notification:
/// from a context that reads LOW and has seen no change (as a fresh one
/// does), the iteration after any number of LOW readings, itself LOW,
/// decides nothing, whether or not a reminder is due; and a notifier that
/// has sent nothing has no retry to make.
pub proof fn law_steady_low_never_notifies(
    ctx: Context,
    stamps: Seq<Timestamp>,
    next: Timestamp,
    startup_window: u64,
    reminder_due: bool,
    state: crate::notify::NotifierState,
    now: u64,
)
    requires
        ctx.previous_reading == Reading::Low,
        ctx.time_of_state_change is None,
        state.is_initial(),
    ensures
        decided(
            after_low_readings(ctx, stamps, startup_window),
            Reading::Low,
            next,
            startup_window,
            reminder_due,
        ) == (LoopDecision { notify: None, marker: None }),
        crate::notify::dispatch::retry_choice(state, now, startup_window) is None,
{
    lemma_low_readings_change_nothing(ctx, stamps, startup_window);
}

} // verus!
