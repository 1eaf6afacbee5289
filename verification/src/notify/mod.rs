//! Notification state: what a notifier remembers between sends, how it
//! schedules reminders and retries, and how a send outcome updates it.

pub mod dispatch;

use vstd::prelude::*;

use crate::backend::Backend;
use crate::context::Context;
use crate::time::WallTime;

verus! {

/// Nanoseconds in one second.
pub const SECOND_NANOS: u64 = 1_000_000_000;

/// Nanoseconds in one hour.
pub const HOUR_NANOS: u64 = 3_600_000_000_000;

/// The kind of message being sent.
#[derive(Debug, Clone, Copy, PartialEq, Eq, Structural)]
pub enum MessageType {
    /// The input source implies an error state.
    Alert,
    /// The error state since the last alert has not been resolved.
    Reminder,
    /// The burner attempted to start up but failed to do so.
    StartupFailed,
    /// The burner started up successfully.
    StartupSuccess,
}

impl MessageType {
    /// The lowercase name of the message type: `alert`, `reminder`,
    /// `startup_failed` or `startup_success`.
    pub fn as_str(&self) -> (s: &'static str)
        ensures
            s@ == message_type_name(*self),
    {
        match self {
            MessageType::Alert => "alert",
            MessageType::Reminder => "reminder",
            MessageType::StartupFailed => "startup_failed",
            MessageType::StartupSuccess => "startup_success",
        }
    }

    /// The lowercase name of the message type, as an owned string.
    pub fn to_string(&self) -> (s: String)
        ensures
            s@ == message_type_name(*self),
    {
        String::from_str(self.as_str())
    }

    /// The name of the variant as written in code: `Alert`, `Reminder`,
    /// `StartupFailed` or `StartupSuccess`.
    pub fn variant_name(&self) -> (s: &'static str)
        ensures
            s@ == message_type_variant(*self),
    {
        match self {
            MessageType::Alert => "Alert",
            MessageType::Reminder => "Reminder",
            MessageType::StartupFailed => "StartupFailed",
            MessageType::StartupSuccess => "StartupSuccess",
        }
    }
}

/// The lowercase name of a message type.
pub open spec fn message_type_name(t: MessageType) -> Seq<char> {
    match t {
        MessageType::Alert => "alert"@,
        MessageType::Reminder => "reminder"@,
        MessageType::StartupFailed => "startup_failed"@,
        MessageType::StartupSuccess => "startup_success"@,
    }
}

/// The variant name of a message type.
pub open spec fn message_type_variant(t: MessageType) -> Seq<char> {
    match t {
        MessageType::Alert => "Alert"@,
        MessageType::Reminder => "Reminder"@,
        MessageType::StartupFailed => "StartupFailed"@,
        MessageType::StartupSuccess => "StartupSuccess"@,
    }
}

/// Outcome of a send attempt.
pub enum SendResult {
    /// The send succeeded, with an optional output to show.
    Success(Option<String>),
    /// The send failed, with an output describing the failure.
    Failure(String),
    /// No send was made because the rendered message was empty.
    NoMessage,
    /// The send was postponed by the spacing of reminders.
    TryAgainLater,
}

impl SendResult {
    /// The outcome of emitting a message: `Ok` output is a success, an `Err`
    /// output a failure.
    pub fn from_emit(r: Result<Option<String>, String>) -> (s: SendResult)
        ensures
            r matches Ok(o) ==> s == SendResult::Success(o),
            r matches Err(e) ==> s == SendResult::Failure(e),
    {
        match r {
            Ok(o) => SendResult::Success(o),
            Err(e) => SendResult::Failure(e),
        }
    }
}

/// A failed send attempt, with what is needed to retry it.
#[derive(Clone, Copy)]
pub struct FailedSendAttempt {
    /// The type of message that failed to send.
    pub message_type: MessageType,
    /// The context of the monitor loop at the time of the failure.
    pub ctx: Context,
}

impl FailedSendAttempt {
    /// A failed attempt to send a message of type `message_type` in `ctx`.
    pub fn new(message_type: MessageType, ctx: &Context) -> (f: Self)
        ensures
            f.message_type == message_type,
            f.ctx == *ctx,
    {
        FailedSendAttempt { message_type, ctx: *ctx }
    }
}

/// Hours until the next reminder, after `count` reminders have been sent:
/// 3, 6, 12, 24, 24, 48, 48, 96, and 168 from then on.
pub open spec fn reminder_hours(count: u32) -> u64 {
    if count == 0 {
        3
    } else if count == 1 {
        6
    } else if count == 2 {
        12
    } else if count <= 4 {
        24
    } else if count <= 6 {
        48
    } else if count == 7 {
        96
    } else {
        168
    }
}

/// Seconds until the next retry, after `count` failed attempts:
/// 5 up to three, then 15, 30 and 60, and 120 from thirteen on.
pub open spec fn retry_secs(count: u32) -> u64 {
    if count <= 3 {
        5
    } else if count <= 6 {
        15
    } else if count <= 9 {
        30
    } else if count <= 12 {
        60
    } else {
        120
    }
}

/// `count` raised by one, staying at `u32::MAX` once it gets there.
pub open spec fn count_up(count: u32) -> u32 {
    if count < u32::MAX {
        (count + 1) as u32
    } else {
        count
    }
}

/// Nanoseconds until the next reminder, after `count` reminders.
pub open spec fn reminder_delay(count: u32) -> int {
    reminder_hours(count) * HOUR_NANOS
}

/// Nanoseconds until the next retry, after `count` failed attempts.
pub open spec fn retry_delay(count: u32) -> int {
    retry_secs(count) * SECOND_NANOS
}

/// The longest delay between reminders, in nanoseconds (one week).
pub open spec fn max_reminder_delay() -> int {
    168 * HOUR_NANOS
}

/// Whether a scheduled time is due at `now`.
pub open spec fn is_due(scheduled: Option<u64>, now: u64) -> bool {
    match scheduled {
        Some(t) => t <= now,
        None => false,
    }
}

/// State of a notifier.
pub struct NotifierState {
    /// The previous failed send attempt, if any.
    pub previous_failed_send: Option<FailedSendAttempt>,
    /// When the next reminder should be sent, on the monotonic clock.
    pub time_of_next_reminder: Option<u64>,
    /// When the next retry should be attempted, on the monotonic clock.
    pub time_of_next_retry: Option<u64>,
    /// The number of consecutive reminders sent.
    pub reminder_count: u32,
    /// The number of consecutive failed attempts since the last success:
    /// the send that failed first and each retry of it that failed too.
    pub retry_count: u32,
}

impl NotifierState {
    /// Whether this is the state of a notifier that has sent nothing yet.
    pub open spec fn is_initial(&self) -> bool {
        &&& self.previous_failed_send is None
        &&& self.time_of_next_reminder is None
        &&& self.time_of_next_retry is None
        &&& self.reminder_count == 0
        &&& self.retry_count == 0
    }

    /// The state of a notifier that has sent nothing yet.
    pub fn new() -> (s: Self)
        ensures
            s.is_initial(),
    {
        NotifierState {
            previous_failed_send: None,
            time_of_next_reminder: None,
            time_of_next_retry: None,
            reminder_count: 0,
            retry_count: 0,
        }
    }

    /// Handles a successful startup notification: clears everything about
    /// failed sends and reminders, a clean slate going forward.
    pub fn on_startup_success(&mut self)
        ensures
            final(self).is_initial(),
    {
        self.previous_failed_send = None;
        self.time_of_next_reminder = None;
        self.time_of_next_retry = None;
        self.reminder_count = 0;
        self.retry_count = 0;
    }

    /// Handles a successful reminder: forgets the failed send and the retry,
    /// counts the reminder, resets the retry count.
    pub fn on_reminder_success(&mut self)
        requires
            old(self).reminder_count < u32::MAX,
        ensures
            final(self).previous_failed_send is None,
            final(self).time_of_next_retry is None,
            final(self).time_of_next_reminder == old(self).time_of_next_reminder,
            final(self).reminder_count == old(self).reminder_count + 1,
            final(self).retry_count == 0,
    {
        self.previous_failed_send = None;
        self.time_of_next_retry = None;
        self.reminder_count = self.reminder_count + 1;
        self.retry_count = 0;
    }

    /// Handles a failed send: remembers its type and context for a retry.
    pub fn on_failure(&mut self, ctx: &Context, message_type: MessageType)
        ensures
            final(self).previous_failed_send == Some(
                FailedSendAttempt { message_type, ctx: *ctx },
            ),
            final(self).time_of_next_reminder == old(self).time_of_next_reminder,
            final(self).time_of_next_retry == old(self).time_of_next_retry,
            final(self).reminder_count == old(self).reminder_count,
            final(self).retry_count == old(self).retry_count,
    {
        let failed_send = FailedSendAttempt::new(message_type, ctx);
        self.previous_failed_send = Some(failed_send);
    }

    /// Counts one more failed attempt, once its retry has been scheduled
    /// (the count stops at `u32::MAX`).
    pub fn count_failed_attempt(&mut self)
        ensures
            final(self).retry_count == count_up(old(self).retry_count),
            final(self).previous_failed_send == old(self).previous_failed_send,
            final(self).time_of_next_reminder == old(self).time_of_next_reminder,
            final(self).time_of_next_retry == old(self).time_of_next_retry,
            final(self).reminder_count == old(self).reminder_count,
    {
        if self.retry_count < u32::MAX {
            self.retry_count = self.retry_count + 1;
        }
    }

    /// Handles a successful send of any kind: forgets the stored failure and
    /// its retry, and resets the count of failed attempts.
    pub fn on_send_success(&mut self)
        ensures
            final(self).previous_failed_send is None,
            final(self).time_of_next_retry is None,
            final(self).retry_count == 0,
            final(self).time_of_next_reminder == old(self).time_of_next_reminder,
            final(self).reminder_count == old(self).reminder_count,
    {
        self.previous_failed_send = None;
        self.time_of_next_retry = None;
        self.retry_count = 0;
    }

    /// Schedules the next reminder at `now` plus a delay that grows with the
    /// number of reminders already sent (see `reminder_hours`).
    pub fn bump_time_of_next_reminder(&mut self, now: u64)
        requires
            now + reminder_delay(old(self).reminder_count) <= u64::MAX,
        ensures
            final(self).time_of_next_reminder == Some(
                (now + reminder_delay(old(self).reminder_count)) as u64,
            ),
            final(self).previous_failed_send == old(self).previous_failed_send,
            final(self).time_of_next_retry == old(self).time_of_next_retry,
            final(self).reminder_count == old(self).reminder_count,
            final(self).retry_count == old(self).retry_count,
    {
        let multiplier: u64 = if self.reminder_count == 0 {
            3
        } else if self.reminder_count == 1 {
            6
        } else if self.reminder_count == 2 {
            12
        } else if self.reminder_count <= 4 {
            24
        } else if self.reminder_count <= 6 {
            48
        } else if self.reminder_count == 7 {
            96
        } else {
            168
        };
        self.time_of_next_reminder = Some(now + multiplier * HOUR_NANOS);
    }

    /// Schedules the next retry at `now` plus a delay that grows with the
    /// number of failed attempts so far (see `retry_secs`).
    pub fn bump_time_of_next_retry(&mut self, now: u64)
        requires
            now + retry_delay(old(self).retry_count) <= u64::MAX,
        ensures
            final(self).time_of_next_retry == Some(
                (now + retry_delay(old(self).retry_count)) as u64,
            ),
            final(self).previous_failed_send == old(self).previous_failed_send,
            final(self).time_of_next_reminder == old(self).time_of_next_reminder,
            final(self).reminder_count == old(self).reminder_count,
            final(self).retry_count == old(self).retry_count,
    {
        let multiplier: u64 = if self.retry_count <= 3 {
            5
        } else if self.retry_count <= 6 {
            15
        } else if self.retry_count <= 9 {
            30
        } else if self.retry_count <= 12 {
            60
        } else {
            120
        };
        self.time_of_next_retry = Some(now + multiplier * SECOND_NANOS);
    }

    /// Whether a reminder is due at `now`.
    pub fn has_due_reminder(&self, now: u64) -> (b: bool)
        ensures
            b == is_due(self.time_of_next_reminder, now),
    {
        match self.time_of_next_reminder {
            Some(t) => t <= now,
            None => false,
        }
    }

    /// Whether a retry is due at `now`.
    pub fn has_due_retry(&self, now: u64) -> (b: bool)
        ensures
            b == is_due(self.time_of_next_retry, now),
    {
        match self.time_of_next_retry {
            Some(t) => t <= now,
            None => false,
        }
    }
}

impl Default for NotifierState {
    fn default() -> (s: Self)
        ensures
            s.is_initial(),
    {
        NotifierState::new()
    }
}

/// Something that carries a notifier's state.
pub trait StateCarrier {
    /// The carried state.
    spec fn carried_state(&self) -> NotifierState;

    /// Accessor for the carried state.
    fn state(&self) -> (r: &NotifierState)
        ensures
            *r == self.carried_state(),
    ;
}

/// Something that sends notifications.
pub trait NotificationSender {
    /// The sender's numeric identifier.
    spec fn sender_id(&self) -> usize;

    /// The sender's name.
    spec fn sender_name(&self) -> Seq<char>;

    /// The delay to keep before sending, in nanoseconds.
    spec fn sender_stagger(&self) -> u64;

    /// Accessor for the sender's identifier.
    fn id(&self) -> (r: usize)
        ensures
            r == self.sender_id(),
    ;

    /// Accessor for the sender's name.
    fn name(&self) -> (r: &str)
        ensures
            r@ == self.sender_name(),
    ;

    /// Accessor for the delay to keep before sending, in nanoseconds.
    fn stagger_delay(&self) -> (r: u64)
        ensures
            r == self.sender_stagger(),
    ;
}

/// A notifier that both sends notifications and carries state.
pub trait StatefulNotifier: NotificationSender + StateCarrier {

}

/// The next step of a send attempt.
pub enum SendStep {
    /// The attempt is over with this outcome, which updates the state.
    Done(SendResult),
    /// The attempt was not made, with this outcome, which leaves the state alone.
    Skipped(SendResult),
    /// The body must be emitted through the backend, outside the library;
    /// the outcome of that updates the state.
    Emit(String),
}

impl SendStep {
    /// Whether the outcome of this step updates the notifier's state: every
    /// step but one that was skipped.
    pub fn updates_state(&self) -> (b: bool)
        ensures
            b == !(self is Skipped),
    {
        match self {
            SendStep::Skipped(_) => false,
            _ => true,
        }
    }
}

/// Whether `step` is how notifier `n` prepares to send a message of type
/// `t` in `ctx` at `now`: in dry-run mode a success carrying the display
/// rendering; otherwise nothing to send for an empty body, a success
/// carrying the body for an echoing backend, and the body to emit for any
/// other backend.
pub open spec fn prepared<B: Backend>(
    n: Notifier<B>,
    ctx: Context,
    t: MessageType,
    now: WallTime,
    step: SendStep,
) -> bool {
    let body = n.backend.spec_body(ctx, t, now);
    if n.dry_run {
        step matches SendStep::Done(SendResult::Success(Some(s))) && s@ == n.backend.spec_display(
            ctx,
            t,
            now,
        )
    } else if body.len() == 0 {
        step matches SendStep::Done(SendResult::NoMessage)
    } else if n.backend.echoes() {
        step matches SendStep::Done(SendResult::Success(Some(s))) && s@ == body
    } else {
        step matches SendStep::Emit(s) && s@ == body
    }
}

/// A notifier: sends notifications through a backend and keeps state.
pub struct Notifier<B: Backend> {
    /// State of this notifier.
    pub state: NotifierState,
    /// The backend that sends the notifications.
    pub backend: B,
    /// Whether messages are composed and only echoed, never sent.
    pub dry_run: bool,
}

impl<B: Backend> Notifier<B> {
    /// A notifier that has sent nothing yet.
    pub fn new(backend: B, dry_run: bool) -> (n: Self)
        ensures
            n.state.is_initial(),
            n.backend == backend,
            n.dry_run == dry_run,
    {
        Notifier { state: NotifierState::new(), backend, dry_run }
    }

    /// The backend of this notifier.
    pub fn backend(&self) -> (b: &B)
        ensures
            *b == self.backend,
    {
        &self.backend
    }

    /// Whether this notifier is in dry-run mode.
    pub fn dry_run(&self) -> (d: bool)
        ensures
            d == self.dry_run,
    {
        self.dry_run
    }

    /// Prepares sending a message of type `t` in `ctx`, the current time
    /// being `now`.
    ///
    /// In dry-run mode the message is composed for display and the attempt
    /// counts as a success with that output. Otherwise an empty body means
    /// there is nothing to send; a backend that echoes answers with the body;
    /// any other backend must emit the body.
    pub fn prepare_send_at(&self, ctx: &Context, t: MessageType, now: &WallTime) -> (step: SendStep)
        ensures
            prepared(*self, *ctx, t, *now, step),
    {
        if self.dry_run {
            let body = self.backend.compose_display_at(ctx, t, now);
            return SendStep::Done(SendResult::Success(Some(body)));
        }
        let body = self.backend.compose_at(ctx, t, now);
        if body.unicode_len() == 0 {
            return SendStep::Done(SendResult::NoMessage);
        }
        match self.backend.emit_in_process(body.as_str()) {
            Some(r) => SendStep::Done(SendResult::from_emit(r)),
            None => SendStep::Emit(body),
        }
    }
}

impl<B: Backend> StateCarrier for Notifier<B> {
    open spec fn carried_state(&self) -> NotifierState {
        self.state
    }

    fn state(&self) -> (r: &NotifierState) {
        &self.state
    }
}

impl<B: Backend> NotificationSender for Notifier<B> {
    open spec fn sender_id(&self) -> usize {
        self.backend.spec_id()
    }

    open spec fn sender_name(&self) -> Seq<char> {
        self.backend.spec_name()
    }

    open spec fn sender_stagger(&self) -> u64 {
        self.backend.spec_stagger()
    }

    fn id(&self) -> (r: usize) {
        self.backend.id()
    }

    fn name(&self) -> (r: &str) {
        self.backend.name()
    }

    fn stagger_delay(&self) -> (r: u64) {
        self.backend.stagger_delay()
    }
}

impl<B: Backend> StatefulNotifier for Notifier<B> {

}

/// Reminders are spaced out more and more: the delay never shrinks as the
/// number of reminders grows, and stays between three hours and one week.
pub proof fn lemma_reminder_delay_grows(fewer: u32, more: u32)
    requires
        fewer <= more,
    ensures
        reminder_delay(fewer) <= reminder_delay(more),
        3 * HOUR_NANOS <= reminder_delay(fewer) <= max_reminder_delay(),
{
}

/// Retries are spaced out more and more: the delay never shrinks as the
/// number of failed attempts grows, and stays between five seconds and two
/// minutes.
pub proof fn lemma_retry_delay_grows(fewer: u32, more: u32)
    requires
        fewer <= more,
    ensures
        retry_delay(fewer) <= retry_delay(more),
        5 * SECOND_NANOS <= retry_delay(fewer) <= 120 * SECOND_NANOS,
{
}

/// Once a scheduled time is due, it stays due as time goes on.
pub proof fn lemma_due_stays_due(scheduled: Option<u64>, now: u64, later: u64)
    requires
        is_due(scheduled, now),
        now <= later,
    ensures
        is_due(scheduled, later),
{
}

} // verus!
