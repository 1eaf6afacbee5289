//! The context of the monitor loop, passed to notifiers when they compose
//! and send notifications.

use vstd::prelude::*;

use crate::source::Reading;
use crate::time::Timestamp;

verus! {

/// Context of the monitor loop, including state and timestamps.
///
/// Notifiers read it when composing messages; when a notification fails, a
/// copy of the context is kept for retrying later.
#[derive(Clone, Copy)]
pub struct Context {
    /// The number of iterations of the monitor loop completed so far.
    pub loop_iteration: u64,
    /// The time of the most recent transition to `Reading::Low`.
    pub went_low_at: Option<Timestamp>,
    /// The time of the most recent transition to `Reading::High`.
    pub went_high_at: Option<Timestamp>,
    /// The time of the most recent transition between readings.
    pub time_of_state_change: Option<Timestamp>,
    /// The time when the burner last started back up from an error state:
    /// the first LOW reading of the latest startup attempt. The monitor
    /// records it with `time_of_startup_from_low` and keeps it once that
    /// attempt is over, for messages (`{fuzzy_startup}`), the command
    /// backend and the spacing of retries of a startup failure.
    pub time_of_startup: Option<Timestamp>,
    /// The time when the current startup attempt (a stretch of LOW readings
    /// after an error) began.
    pub time_of_startup_from_low: Option<Timestamp>,
    /// The previous reading from the input source.
    pub previous_reading: Reading,
    /// Whether the burner managed to start back up from an error state.
    pub startup_succeeded: bool,
    /// The current time, taken at the beginning of each loop iteration.
    pub now: Timestamp,
}

impl Context {
    /// A fresh context at time `now`: no transitions seen, reading LOW.
    pub fn new(now: Timestamp) -> (c: Context)
        ensures
            c.loop_iteration == 0,
            c.went_low_at is None,
            c.went_high_at is None,
            c.time_of_state_change is None,
            c.time_of_startup is None,
            c.time_of_startup_from_low is None,
            c.previous_reading == Reading::Low,
            !c.startup_succeeded,
            c.now == now,
    {
        Context {
            loop_iteration: 0,
            went_low_at: None,
            went_high_at: None,
            time_of_state_change: None,
            time_of_startup: None,
            time_of_startup_from_low: None,
            previous_reading: Reading::Low,
            startup_succeeded: false,
            now,
        }
    }
}

} // verus!
