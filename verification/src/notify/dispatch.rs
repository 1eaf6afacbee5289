//! Decisions of the dispatch of notifications: when a send may go ahead,
//! which failed send is due for a retry, how an outcome updates a notifier's
//! state, and the tally of outcomes over all notifiers.

use vstd::prelude::*;

use super::{
    count_up, is_due, prepared, reminder_delay, retry_delay, FailedSendAttempt, MessageType,
    NotificationSender, Notifier, NotifierState, SendResult, SendStep,
};
use crate::backend::Backend;
use crate::context::Context;
use crate::time::{elapsed_nanos, WallTime};

verus! {

/// Whether applying `result` for a message of type `message_type` at `now`
/// stays within the clock's range (scheduling past the end of the monotonic
/// clock, or counting past `u32::MAX` reminders, is out of range).
pub open spec fn can_apply(
    state: NotifierState,
    message_type: MessageType,
    result: SendResult,
    now: u64,
) -> bool {
    match result {
        SendResult::Success(_) => match message_type {
            MessageType::StartupSuccess => true,
            MessageType::Reminder => state.reminder_count < u32::MAX && now + reminder_delay(
                (state.reminder_count + 1) as u32,
            ) <= u64::MAX,
            _ => now + reminder_delay(state.reminder_count) <= u64::MAX,
        },
        SendResult::Failure(_) => now + retry_delay(state.retry_count) <= u64::MAX,
        _ => true,
    }
}

/// The state of a notifier after a send attempt of a message of type `t`
/// in `ctx`, at `now`, had outcome `result`.
///
/// Every success settles the failure state: the stored failed send and its
/// retry are forgotten and the count of failed attempts is reset. Beyond
/// that, a startup success ends the story (all state cleared); a reminder
/// is counted and the next one scheduled; other messages schedule the next
/// reminder. A failure keeps the message type and context, schedules a
/// retry after the delay for the failed attempts counted so far, and then
/// counts this one.
/// Other outcomes change nothing.
pub open spec fn after_send(
    state: NotifierState,
    ctx: Context,
    t: MessageType,
    result: SendResult,
    now: u64,
) -> NotifierState {
    match result {
        SendResult::Success(_) => match t {
            MessageType::StartupSuccess => NotifierState {
                previous_failed_send: None,
                time_of_next_reminder: None,
                time_of_next_retry: None,
                reminder_count: 0,
                retry_count: 0,
            },
            MessageType::Reminder => NotifierState {
                previous_failed_send: None,
                time_of_next_retry: None,
                reminder_count: (state.reminder_count + 1) as u32,
                time_of_next_reminder: Some(
                    (now + reminder_delay((state.reminder_count + 1) as u32)) as u64,
                ),
                retry_count: 0,
            },
            _ => NotifierState {
                previous_failed_send: None,
                time_of_next_retry: None,
                reminder_count: state.reminder_count,
                time_of_next_reminder: Some((now + reminder_delay(state.reminder_count)) as u64),
                retry_count: 0,
            },
        },
        SendResult::Failure(_) => NotifierState {
            previous_failed_send: Some(FailedSendAttempt { message_type: t, ctx }),
            time_of_next_retry: Some((now + retry_delay(state.retry_count)) as u64),
            retry_count: count_up(state.retry_count),
            ..state
        },
        _ => state,
    }
}

/// Applies the outcome of a send attempt to a notifier's state (see
/// `after_send`).
pub fn apply_send_result(
    state: &mut NotifierState,
    ctx: &Context,
    message_type: MessageType,
    result: &SendResult,
    now: u64,
)
    requires
        can_apply(*old(state), message_type, *result, now),
    ensures
        *final(state) == after_send(*old(state), *ctx, message_type, *result, now),
{
    match result {
        SendResult::Success(_) => {
            match message_type {
                MessageType::StartupSuccess => {
                    state.on_startup_success();
                },
                MessageType::Reminder => {
                    state.on_reminder_success();
                    state.bump_time_of_next_reminder(now);
                },
                _ => {
                    state.bump_time_of_next_reminder(now);
                },
            }
            state.on_send_success();
        },
        SendResult::Failure(_) => {
            state.on_failure(ctx, message_type);
            state.bump_time_of_next_retry(now);
            state.count_failed_attempt();
        },
        _ => {},
    }
}

/// The message used when a reminder is requested without one being scheduled.
pub open spec fn missing_reminder_message() -> Seq<char> {
    "Logic error: missing time_of_next_reminder"@
}

/// Decides whether a send may go ahead before it is attempted.
///
/// Only reminders are held back: one scheduled in the future (after the
/// context's current instant) is postponed, and one never scheduled is a
/// failure. `None` means the send goes ahead.
pub fn send_gate(state: &NotifierState, ctx: &Context, message_type: MessageType) -> (r: Option<
    SendResult,
>)
    ensures
        message_type != MessageType::Reminder ==> r is None,
        message_type == MessageType::Reminder ==> match state.time_of_next_reminder {
            Some(t) => if t > ctx.now.instant {
                r == Some(SendResult::TryAgainLater)
            } else {
                r is None
            },
            None => r matches Some(SendResult::Failure(m)) && m@ == missing_reminder_message(),
        },
{
    if message_type == MessageType::Reminder {
        match state.time_of_next_reminder {
            Some(t) => {
                if t > ctx.now.instant {
                    return Some(SendResult::TryAgainLater);
                }
            },
            None => {
                return Some(
                    SendResult::Failure(
                        String::from_str("Logic error: missing time_of_next_reminder"),
                    ),
                );
            },
        }
    }
    None
}

/// The failed send of `state` that is due to be retried at `now`, if any.
///
/// A retry needs a stored failure and a retry time that has come. Alerts and
/// startup successes are then always retried; a startup failure only once
/// the startup window has passed since the startup it reports; a reminder
/// only once the next reminder is due as well.
pub open spec fn retry_choice(state: NotifierState, now: u64, startup_window: u64) -> Option<
    FailedSendAttempt,
> {
    match state.previous_failed_send {
        None => None,
        Some(f) => if !is_due(state.time_of_next_retry, now) {
            None
        } else {
            match f.message_type {
                MessageType::StartupSuccess => Some(f),
                MessageType::Alert => Some(f),
                MessageType::StartupFailed => match f.ctx.time_of_startup {
                    None => None,
                    Some(t) => if elapsed_nanos(t.instant, now) < startup_window {
                        None
                    } else {
                        Some(f)
                    },
                },
                MessageType::Reminder => if is_due(state.time_of_next_reminder, now) {
                    Some(f)
                } else {
                    None
                },
            }
        },
    }
}

/// The failed send of `state` that is due to be retried at `now`, if any
/// (see `retry_choice`).
pub fn due_retry(state: &NotifierState, now: u64, startup_window: u64) -> (r: Option<
    FailedSendAttempt,
>)
    ensures
        r == retry_choice(*state, now, startup_window),
{
    let f = match state.previous_failed_send {
        Some(f) => f,
        None => {
            return None;
        },
    };
    match state.time_of_next_retry {
        Some(t) => {
            if t > now {
                return None;
            }
        },
        None => {
            return None;
        },
    }
    match f.message_type {
        MessageType::StartupSuccess | MessageType::Alert => Some(f),
        MessageType::StartupFailed => {
            match f.ctx.time_of_startup {
                None => None,
                Some(t) => {
                    if crate::time::elapsed(t.instant, now) < startup_window {
                        None
                    } else {
                        Some(f)
                    }
                },
            }
        },
        MessageType::Reminder => {
            match state.time_of_next_reminder {
                None => None,
                Some(t) => {
                    if t > now {
                        None
                    } else {
                        Some(f)
                    }
                },
            }
        },
    }
}

/// Whether a send of a message of type `t` in `ctx` is held back before it
/// is attempted: a reminder that is not scheduled, or scheduled after the
/// context's current instant.
pub open spec fn held_back(state: NotifierState, ctx: Context, t: MessageType) -> bool {
    t == MessageType::Reminder && match state.time_of_next_reminder {
        Some(r) => r > ctx.now.instant,
        None => true,
    }
}

/// Begins sending a message of type `t` in `ctx` through notifier `n`, the
/// current time being `now`: a held-back reminder is skipped (postponed, or
/// failed when none was scheduled); anything else is prepared for sending.
pub fn begin_send_at<B: Backend>(n: &Notifier<B>, ctx: &Context, t: MessageType, now: &WallTime) -> (step: SendStep)
    ensures
        held_back(n.state, *ctx, t) ==> match n.state.time_of_next_reminder {
            Some(_) => step == SendStep::Skipped(SendResult::TryAgainLater),
            None => step matches SendStep::Skipped(SendResult::Failure(m)) && m@
                == missing_reminder_message(),
        },
        !held_back(n.state, *ctx, t) ==> prepared(*n, *ctx, t, *now, step),
{
    match send_gate(&n.state, ctx, t) {
        Some(r) => SendStep::Skipped(r),
        None => n.prepare_send_at(ctx, t, now),
    }
}

/// The pause to keep before sending through `n` in a round over all
/// notifiers, in nanoseconds: its stagger delay, except for the notifier
/// with identifier 0, which goes at once.
pub fn pause_before_send<B: Backend>(n: &Notifier<B>) -> (r: u64)
    ensures
        r == if n.sender_id() > 0 {
            n.sender_stagger()
        } else {
            0
        },
{
    if n.id() > 0 {
        n.stagger_delay()
    } else {
        0
    }
}

/// Whether any notifier has a reminder due at `now`.
pub open spec fn some_reminder_due<B: Backend>(notifiers: Seq<Notifier<B>>, now: u64) -> bool {
    exists|i: int| 0 <= i < notifiers.len() && is_due(#[trigger] notifiers[i].state.time_of_next_reminder, now)
}

/// Whether any notifier has a retry due at `now`.
pub open spec fn some_retry_due<B: Backend>(notifiers: Seq<Notifier<B>>, now: u64) -> bool {
    exists|i: int| 0 <= i < notifiers.len() && is_due(#[trigger] notifiers[i].state.time_of_next_retry, now)
}

/// Whether at least one notifier is due for a reminder at `now`.
pub fn any_due_reminder<B: Backend>(notifiers: &Vec<Notifier<B>>, now: u64) -> (b: bool)
    ensures
        b == some_reminder_due(notifiers@, now),
{
    let mut i: usize = 0;
    while i < notifiers.len()
        invariant
            i <= notifiers.len(),
            forall|j: int| 0 <= j < i ==> !is_due(#[trigger] notifiers@[j].state.time_of_next_reminder, now),
        decreases notifiers.len() - i,
    {
        if notifiers[i].state.has_due_reminder(now) {
            return true;
        }
        i = i + 1;
    }
    false
}

/// Whether at least one notifier is due for a retry at `now`.
pub fn any_due_retry<B: Backend>(notifiers: &Vec<Notifier<B>>, now: u64) -> (b: bool)
    ensures
        b == some_retry_due(notifiers@, now),
{
    let mut i: usize = 0;
    while i < notifiers.len()
        invariant
            i <= notifiers.len(),
            forall|j: int| 0 <= j < i ==> !is_due(#[trigger] notifiers@[j].state.time_of_next_retry, now),
        decreases notifiers.len() - i,
    {
        if notifiers[i].state.has_due_retry(now) {
            return true;
        }
        i = i + 1;
    }
    false
}

/// A failed send is retried once its retry delay has passed, and not
/// before: until then no retry of it is due; from then on an alert or a
/// startup success that failed is the retry that is due.
pub proof fn law_failure_retried_after_delay(
    state: NotifierState,
    ctx: Context,
    t: MessageType,
    output: String,
    now: u64,
    later: u64,
    startup_window: u64,
)
    requires
        now + retry_delay(state.retry_count) <= u64::MAX,
    ensures
        ({
            let after = after_send(state, ctx, t, SendResult::Failure(output), now);
            let delay = retry_delay(state.retry_count);
            &&& later < now + delay ==> !is_due(after.time_of_next_retry, later) && retry_choice(
                after,
                later,
                startup_window,
            ) is None
            &&& later >= now + delay ==> is_due(after.time_of_next_retry, later)
            &&& later >= now + delay && (t == MessageType::Alert || t == MessageType::StartupSuccess)
                ==> retry_choice(after, later, startup_window) == Some(
                FailedSendAttempt { message_type: t, ctx },
            )
        }),
{
}

/// Each failed attempt is counted after its retry is scheduled by the count
/// before it, so the retry after the next failure waits at least as long as
/// this one: retries are spaced out more and more while the failures go on.
pub proof fn law_failed_retries_spread_out(
    state: NotifierState,
    ctx: Context,
    t: MessageType,
    output: String,
    now: u64,
)
    requires
        now + retry_delay(state.retry_count) <= u64::MAX,
    ensures
        ({
            let after = after_send(state, ctx, t, SendResult::Failure(output), now);
            &&& state.retry_count < u32::MAX ==> after.retry_count == state.retry_count + 1
            &&& after.retry_count >= state.retry_count
            &&& after.time_of_next_retry == Some((now + retry_delay(state.retry_count)) as u64)
            &&& retry_delay(after.retry_count) >= retry_delay(state.retry_count)
        }),
{
    super::lemma_retry_delay_grows(state.retry_count, count_up(state.retry_count));
}

/// A failed send is kept for a retry and leaves the reminder schedule
/// alone: the next reminder stays when it was and the reminder count is
/// kept. Once the retry delay has passed, a failed reminder is the retry
/// that is due while the reminder itself is still due, and a failed
/// startup-failure notice once the startup window has passed since the
/// startup its context holds.
pub proof fn law_failure_keeps_reminder_schedule(
    state: NotifierState,
    ctx: Context,
    t: MessageType,
    output: String,
    now: u64,
    later: u64,
    startup_window: u64,
)
    requires
        now + retry_delay(state.retry_count) <= u64::MAX,
    ensures
        ({
            let after = after_send(state, ctx, t, SendResult::Failure(output), now);
            let failed = FailedSendAttempt { message_type: t, ctx };
            let retry_ready = later >= now + retry_delay(state.retry_count);
            &&& after.time_of_next_reminder == state.time_of_next_reminder
            &&& after.reminder_count == state.reminder_count
            &&& after.previous_failed_send == Some(failed)
            &&& t == MessageType::Reminder && retry_ready ==> (retry_choice(
                after,
                later,
                startup_window,
            ) == if is_due(state.time_of_next_reminder, later) {
                Some(failed)
            } else {
                None
            })
            &&& t == MessageType::StartupFailed && retry_ready ==> (retry_choice(
                after,
                later,
                startup_window,
            ) == match ctx.time_of_startup {
                Some(s) => if elapsed_nanos(s.instant, later) >= startup_window {
                    Some(failed)
                } else {
                    None
                },
                None => None,
            })
        }),
{
}

/// A send that succeeds, of any kind, settles the failure state: no failed
/// send is kept, no retry is left, the count of failed attempts is back to
/// zero, and no retry is chosen at any later time.
pub proof fn law_success_settles_failure(
    state: NotifierState,
    ctx: Context,
    t: MessageType,
    output: Option<String>,
    now: u64,
    later: u64,
    startup_window: u64,
)
    requires
        can_apply(state, t, SendResult::Success(output), now),
    ensures
        ({
            let after = after_send(state, ctx, t, SendResult::Success(output), now);
            &&& after.previous_failed_send is None
            &&& after.time_of_next_retry is None
            &&& after.retry_count == 0
            &&& !is_due(after.time_of_next_retry, later)
            &&& retry_choice(after, later, startup_window) is None
        }),
{
}

/// A startup success that was sent wipes the slate: nothing is due
/// afterwards, neither a reminder nor a retry.
pub proof fn law_startup_success_clears(
    state: NotifierState,
    ctx: Context,
    output: Option<String>,
    now: u64,
    later: u64,
    startup_window: u64,
)
    ensures
        ({
            let after = after_send(
                state,
                ctx,
                MessageType::StartupSuccess,
                SendResult::Success(output),
                now,
            );
            &&& after.is_initial()
            &&& !is_due(after.time_of_next_reminder, later)
            &&& !is_due(after.time_of_next_retry, later)
            &&& retry_choice(after, later, startup_window) is None
        }),
{
}

/// After an alert or a startup failure has been sent, the next reminder
/// comes due exactly the reminder delay later: never before, always after.
pub proof fn law_reminder_follows_notice(
    state: NotifierState,
    ctx: Context,
    t: MessageType,
    output: Option<String>,
    now: u64,
    later: u64,
)
    requires
        t == MessageType::Alert || t == MessageType::StartupFailed,
        now + reminder_delay(state.reminder_count) <= u64::MAX,
    ensures
        ({
            let after = after_send(state, ctx, t, SendResult::Success(output), now);
            is_due(after.time_of_next_reminder, later) <==> later >= now + reminder_delay(
                state.reminder_count,
            )
        }),
{
}

/// Each reminder that is sent pushes the next one further out: it comes due
/// after the delay that follows from the new reminder count, which is never
/// shorter than the delay before it; and it settles any stored failure, so
/// no retry is left due.
pub proof fn law_reminders_spread_out(
    state: NotifierState,
    ctx: Context,
    output: Option<String>,
    now: u64,
)
    requires
        state.reminder_count < u32::MAX,
        now + reminder_delay((state.reminder_count + 1) as u32) <= u64::MAX,
    ensures
        ({
            let after = after_send(
                state,
                ctx,
                MessageType::Reminder,
                SendResult::Success(output),
                now,
            );
            &&& after.reminder_count == state.reminder_count + 1
            &&& after.time_of_next_reminder == Some(
                (now + reminder_delay(after.reminder_count)) as u64,
            )
            &&& reminder_delay(after.reminder_count) >= reminder_delay(state.reminder_count)
            &&& after.previous_failed_send is None
            &&& !is_due(after.time_of_next_retry, now)
        }),
{
    super::lemma_reminder_delay_grows(state.reminder_count, (state.reminder_count + 1) as u32);
}

/// An outcome that sent nothing (an empty message or a postponed reminder)
/// leaves the state as it was.
pub proof fn law_unsent_changes_nothing(
    state: NotifierState,
    ctx: Context,
    t: MessageType,
    result: SendResult,
    now: u64,
)
    requires
        result is NoMessage || result is TryAgainLater,
    ensures
        after_send(state, ctx, t, result, now) == state,
{
}

/// The number of successes among `outcomes`.
pub open spec fn successes(outcomes: Seq<SendResult>) -> nat
    decreases outcomes.len(),
{
    if outcomes.len() == 0 {
        0
    } else {
        successes(outcomes.drop_last()) + if outcomes.last() is Success {
            1nat
        } else {
            0nat
        }
    }
}

/// The number of failures among `outcomes`.
pub open spec fn failures(outcomes: Seq<SendResult>) -> nat
    decreases outcomes.len(),
{
    if outcomes.len() == 0 {
        0
    } else {
        failures(outcomes.drop_last()) + if outcomes.last() is Failure {
            1nat
        } else {
            0nat
        }
    }
}

/// The number of postponements among `outcomes`.
pub open spec fn postponements(outcomes: Seq<SendResult>) -> nat
    decreases outcomes.len(),
{
    if outcomes.len() == 0 {
        0
    } else {
        postponements(outcomes.drop_last()) + if outcomes.last() is TryAgainLater {
            1nat
        } else {
            0nat
        }
    }
}

/// Each outcome is counted at most once: the three counts together never
/// exceed the number of outcomes.
pub proof fn lemma_counts_within_outcomes(outcomes: Seq<SendResult>)
    ensures
        successes(outcomes) + failures(outcomes) + postponements(outcomes) <= outcomes.len(),
    decreases outcomes.len(),
{
    if outcomes.len() > 0 {
        lemma_counts_within_outcomes(outcomes.drop_last());
    }
}

/// Counts of the outcomes of sending one notification through all notifiers.
pub struct NotificationResult {
    /// The number of notifiers the notification was sent through.
    pub total: usize,
    /// The number of notifiers that sent it successfully.
    pub success: usize,
    /// The number of notifiers that failed to send it.
    pub failure: usize,
    /// The number of notifiers that postponed it.
    pub try_again_later: usize,
}

impl NotificationResult {
    /// A tally over `total` notifiers with no outcome counted yet.
    pub fn new(total: usize) -> (r: Self)
        ensures
            r.total == total,
            r.success == 0,
            r.failure == 0,
            r.try_again_later == 0,
    {
        NotificationResult { total, success: 0, failure: 0, try_again_later: 0 }
    }

    /// The tally of a round of sends whose outcomes, one per notifier in
    /// order, are `outcomes`: the total is the number of notifiers, and each
    /// count is the number of outcomes of its kind (an empty message counts
    /// in none), so the counts never add up to more than the total.
    pub fn tally(outcomes: &Vec<SendResult>) -> (r: Self)
        ensures
            r.total == outcomes.len(),
            r.success == successes(outcomes@),
            r.failure == failures(outcomes@),
            r.try_again_later == postponements(outcomes@),
            r.success + r.failure + r.try_again_later <= r.total,
    {
        let mut r = NotificationResult::new(outcomes.len());
        let mut i: usize = 0;
        while i < outcomes.len()
            invariant
                i <= outcomes.len(),
                r.total == outcomes.len(),
                r.success == successes(outcomes@.take(i as int)),
                r.failure == failures(outcomes@.take(i as int)),
                r.try_again_later == postponements(outcomes@.take(i as int)),
            decreases outcomes.len() - i,
        {
            proof {
                lemma_counts_within_outcomes(outcomes@.take(i as int));
                let next = outcomes@.take(i + 1);
                assert(next.drop_last() =~= outcomes@.take(i as int));
                assert(next.last() == outcomes@[i as int]);
            }
            r.record(&outcomes[i]);
            i = i + 1;
        }
        proof {
            assert(outcomes@.take(i as int) =~= outcomes@);
            lemma_counts_within_outcomes(outcomes@);
        }
        r
    }

    /// Counts one outcome: successes, failures and postponements each in
    /// their own count; an empty message in none.
    pub fn record(&mut self, outcome: &SendResult)
        requires
            outcome is Success ==> old(self).success < usize::MAX,
            outcome is Failure ==> old(self).failure < usize::MAX,
            outcome is TryAgainLater ==> old(self).try_again_later < usize::MAX,
        ensures
            final(self).total == old(self).total,
            final(self).success == old(self).success + (if outcome is Success {
                1int
            } else {
                0
            }),
            final(self).failure == old(self).failure + (if outcome is Failure {
                1int
            } else {
                0
            }),
            final(self).try_again_later == old(self).try_again_later + (if outcome is TryAgainLater {
                1int
            } else {
                0
            }),
    {
        match outcome {
            SendResult::Success(_) => {
                self.success = self.success + 1;
            },
            SendResult::Failure(_) => {
                self.failure = self.failure + 1;
            },
            SendResult::TryAgainLater => {
                self.try_again_later = self.try_again_later + 1;
            },
            SendResult::NoMessage => {},
        }
    }
}

} // verus!
