//! Time-related types: wall-clock instants, monotonic timestamps and
//! human-readable durations, with the formatting that notifications use.

use vstd::prelude::*;

verus! {

/// Nanoseconds in one second.
pub const NANOS_PER_SEC: u64 = 1_000_000_000;

/// Nanoseconds in three days: older wall-clock times are shown as a date only.
pub const THREE_DAYS_NANOS: u64 = 259_200_000_000_000;

/// Nanoseconds in twelve hours: older wall-clock times are shown with date and time.
pub const TWELVE_HOURS_NANOS: u64 = 43_200_000_000_000;

/// `strftime`-style pattern of a date, `YYYY-MM-DD`.
pub const DATE_PATTERN: &'static str = "%Y-%m-%d";

/// `strftime`-style pattern of a date with a time of day.
pub const DATE_TIME_PATTERN: &'static str = "%Y-%m-%d %H:%M:%S";

/// `strftime`-style pattern of a time of day with seconds.
pub const TIME_PATTERN: &'static str = "%H:%M:%S";

/// `strftime`-style pattern of a time of day without seconds.
pub const HOUR_MINUTE_PATTERN: &'static str = "%H:%M";

/// The earliest UNIX timestamp chrono represents: -262143-01-01 00:00:00 UTC,
/// the first second of its earliest year.
pub const CHRONO_MIN_SECS: i64 = -8_334_601_228_800;

/// The latest UNIX timestamp chrono represents: +262142-12-31 23:59:59 UTC,
/// the last second of its latest year.
pub const CHRONO_MAX_SECS: i64 = 8_210_266_876_799;

/// Whether chrono can represent the UNIX timestamp `secs` with `nanos`
/// additional nanoseconds, that is whether `chrono::DateTime::from_timestamp`
/// returns `Some`: the second lies within chrono's range of dates, and the
/// nanoseconds stay below one second, or below two seconds on a second that
/// ends a minute (chrono's leap-second form).
pub open spec fn chrono_timestamp_accepted(secs: i64, nanos: u32) -> bool {
    &&& CHRONO_MIN_SECS <= secs <= CHRONO_MAX_SECS
    &&& (nanos < 1_000_000_000 || (nanos < 2_000_000_000 && (secs as int) % 60 == 59))
}

/// The text chrono renders for the instant `secs`/`nanos` seen at UTC offset
/// `offset` (in seconds) with the `strftime`-style `pattern`.
pub uninterp spec fn chrono_formatted(secs: i64, nanos: u32, offset: i32, pattern: Seq<char>) -> Seq<char>;

/// The text humantime renders for a duration of `nanos` nanoseconds.
pub uninterp spec fn humantime_text(nanos: u64) -> Seq<char>;

/// The patterns this library formats wall-clock times with.
pub open spec fn is_known_pattern(p: Seq<char>) -> bool {
    ||| p == DATE_PATTERN@
    ||| p == DATE_TIME_PATTERN@
    ||| p == TIME_PATTERN@
    ||| p == HOUR_MINUTE_PATTERN@
}

/// Asks chrono whether it can represent a UNIX timestamp.
///
/// Calls `chrono::DateTime::from_timestamp` and reports whether it returned
/// `Some`. chrono splits `secs` into a day and a second of that day: the day
/// must give a date within its years -262143 to 262142, and the second with
/// `nanos` a time of day (`NaiveTime::from_num_seconds_from_midnight_opt`
/// takes nanoseconds below two seconds, those of one second or more only on
/// a second that ends a minute). The contract states that range.
#[verifier::external_body]
fn timestamp_accepted(secs: i64, nanos: u32) -> (b: bool)
    ensures
        b == chrono_timestamp_accepted(secs, nanos),
{
    chrono::DateTime::from_timestamp(secs, nanos).is_some()
}

/// Renders a wall-clock instant with chrono.
///
/// Builds the UTC `chrono::DateTime` with `from_timestamp`, moves it to the
/// fixed offset with `FixedOffset::east_opt` and `with_timezone`, and
/// renders it with `format(..).to_string()`. The contract names the text.
/// `from_timestamp` returns `Some` exactly when `chrono_timestamp_accepted`
/// holds, `east_opt` returns `Some` for offsets strictly within one day,
/// and rendering fails only for an invalid pattern, which the `requires`
/// rule out.
#[verifier::external_body]
fn format_wall(secs: i64, nanos: u32, offset: i32, pattern: &str) -> (s: String)
    requires
        chrono_timestamp_accepted(secs, nanos),
        -86_400 < offset < 86_400,
        is_known_pattern(pattern@),
    ensures
        s@ == chrono_formatted(secs, nanos, offset, pattern@),
{
    let utc = chrono::DateTime::from_timestamp(secs, nanos).unwrap();
    let zone = chrono::FixedOffset::east_opt(offset).unwrap();
    utc.with_timezone(&zone).format(pattern).to_string()
}

/// The system clock's type, carried through opaque.
#[verifier::external_type_specification]
#[verifier::external_body]
pub struct ExSystemTime(std::time::SystemTime);

/// Reads the system clock with `std::time::SystemTime::now`. Which instant
/// comes back depends on the clock: nothing is stated of it.
#[verifier::external_body]
fn system_clock() -> (t: std::time::SystemTime) {
    std::time::SystemTime::now()
}

/// Measures a system time from the UNIX epoch with
/// `SystemTime::duration_since(UNIX_EPOCH)`, as whole seconds and the
/// nanoseconds past them. That call fails, and this gives `None`, for a
/// time before the epoch; `Duration::subsec_nanos` is always below one
/// second.
#[verifier::external_body]
fn since_unix_epoch(t: &std::time::SystemTime) -> (r: Option<(u64, u32)>)
    ensures
        r matches Some(d) ==> d.1 < NANOS_PER_SEC,
{
    match t.duration_since(std::time::UNIX_EPOCH) {
        Ok(d) => Some((d.as_secs(), d.subsec_nanos())),
        Err(_) => None,
    }
}

/// Renders a duration with humantime.
///
/// Calls `humantime::format_duration` on `Duration::from_nanos(nanos)` and
/// renders it with `to_string`; the contract names the text.
#[verifier::external_body]
fn format_human(nanos: u64) -> (s: String)
    ensures
        s@ == humantime_text(nanos),
{
    humantime::format_duration(std::time::Duration::from_nanos(nanos)).to_string()
}

/// A wall-clock instant: a UNIX timestamp with nanoseconds, and the UTC
/// offset of the local time zone when it was taken.
#[derive(Clone, Copy)]
pub struct WallTime {
    pub(crate) secs: i64,
    pub(crate) nanos: u32,
    pub(crate) offset: i32,
}

impl WallTime {
    #[verifier::type_invariant]
    spec fn inv(self) -> bool {
        &&& chrono_timestamp_accepted(self.secs, self.nanos)
        &&& self.nanos < NANOS_PER_SEC
        &&& -86_400 < self.offset < 86_400
    }

    /// Seconds since the UNIX epoch.
    pub closed spec fn unix_secs(self) -> i64 {
        self.secs
    }

    /// Nanoseconds past `unix_secs`.
    pub closed spec fn subsec_nanos(self) -> u32 {
        self.nanos
    }

    /// Offset of the local time zone from UTC, in seconds.
    pub closed spec fn utc_offset(self) -> i32 {
        self.offset
    }

    /// Builds a wall-clock instant, or `None` when chrono cannot represent
    /// it (`nanos` of a second or more, an offset of a day or more, or a
    /// timestamp out of chrono's range).
    pub fn new(secs: i64, nanos: u32, offset: i32) -> (r: Option<WallTime>)
        ensures
            r is Some <==> (chrono_timestamp_accepted(secs, nanos) && nanos < NANOS_PER_SEC
                && -86_400 < offset < 86_400),
            r matches Some(w) ==> w.unix_secs() == secs && w.subsec_nanos() == nanos
                && w.utc_offset() == offset,
    {
        if nanos < 1_000_000_000u32 && -86_400 < offset && offset < 86_400 && timestamp_accepted(
            secs,
            nanos,
        ) {
            Some(WallTime { secs, nanos, offset })
        } else {
            None
        }
    }

    /// A wall-clock instant from a reading of the system clock (`secs` and
    /// `nanos` since the UNIX epoch) seen at UTC offset `offset`, or `None`
    /// where `WallTime::new` would refuse it or the seconds exceed `i64`.
    pub fn from_clock(secs: u64, nanos: u32, offset: i32) -> (r: Option<WallTime>)
        ensures
            r is Some <==> (secs <= i64::MAX && nanos < NANOS_PER_SEC && -86_400 < offset < 86_400
                && chrono_timestamp_accepted(secs as i64, nanos)),
            r matches Some(w) ==> w.unix_secs() == secs && w.subsec_nanos() == nanos
                && w.utc_offset() == offset,
    {
        if secs <= 9_223_372_036_854_775_807u64 {
            WallTime::new(secs as i64, nanos, offset)
        } else {
            None
        }
    }

    /// The current wall-clock time, seen at UTC offset `offset` (the local
    /// time zone's, which the caller reads): the system clock's reading as
    /// `from_clock` takes it. `None` when the clock reads before the UNIX
    /// epoch or past chrono's range, or the offset is a day or more.
    pub fn now(offset: i32) -> (w: Option<WallTime>)
        ensures
            !(-86_400 < offset < 86_400) ==> w is None,
            w matches Some(x) ==> x.unix_secs() >= 0 && x.subsec_nanos() < NANOS_PER_SEC
                && x.utc_offset() == offset,
    {
        let clock = system_clock();
        match since_unix_epoch(&clock) {
            None => None,
            Some((secs, nanos)) => WallTime::from_clock(secs, nanos, offset),
        }
    }

    /// Seconds since the UNIX epoch.
    pub fn timestamp(&self) -> (r: i64)
        ensures
            r == self.unix_secs(),
    {
        self.secs
    }

    /// Nanoseconds past the second.
    pub fn timestamp_subsec_nanos(&self) -> (r: u32)
        ensures
            r == self.subsec_nanos(),
    {
        self.nanos
    }

    /// Offset of the local time zone from UTC, in seconds.
    pub fn offset_secs(&self) -> (r: i32)
        ensures
            r == self.utc_offset(),
    {
        self.offset
    }

    /// Renders this instant in its own UTC offset with one of the known patterns.
    pub fn format(&self, pattern: &str) -> (s: String)
        requires
            is_known_pattern(pattern@),
        ensures
            s@ == formatted(*self, pattern@),
    {
        proof {
            use_type_invariant(self);
        }
        format_wall(self.secs, self.nanos, self.offset, pattern)
    }
}

/// The text of `w` rendered with `pattern`.
pub open spec fn formatted(w: WallTime, pattern: Seq<char>) -> Seq<char> {
    chrono_formatted(w.unix_secs(), w.subsec_nanos(), w.utc_offset(), pattern)
}

/// Nanoseconds from `earlier` to `later` (negative when `later` is earlier).
pub open spec fn nanos_between(earlier: WallTime, later: WallTime) -> int {
    (later.unix_secs() - earlier.unix_secs()) * 1_000_000_000 + (later.subsec_nanos()
        - earlier.subsec_nanos())
}

/// The pattern a time `when` is shown with, seen from `now`: a date alone
/// when more than three days ago, date and time when more than twelve hours
/// ago, otherwise the time of day.
pub open spec fn fuzzy_pattern(when: WallTime, now: WallTime) -> Seq<char> {
    let ago = nanos_between(when, now);
    if ago > THREE_DAYS_NANOS {
        DATE_PATTERN@
    } else if ago > TWELVE_HOURS_NANOS {
        DATE_TIME_PATTERN@
    } else {
        TIME_PATTERN@
    }
}

/// The fuzzy rendering of `when`, seen from `now`.
pub open spec fn fuzzy_text(when: WallTime, now: WallTime) -> Seq<char> {
    formatted(when, fuzzy_pattern(when, now))
}

/// Expresses a time as a fuzzy string, seen from `now`: the date alone when
/// more than three days old, date and time when more than twelve hours old,
/// otherwise only the time of day.
pub fn fuzzy_datestamp_at(when: &WallTime, now: &WallTime) -> (s: String)
    ensures
        s@ == fuzzy_text(*when, *now),
{
    let ago: i128 = (now.secs as i128 - when.secs as i128) * 1_000_000_000i128 + (now.nanos as i128
        - when.nanos as i128);
    proof {
        reveal_strlit("%Y-%m-%d");
        reveal_strlit("%Y-%m-%d %H:%M:%S");
        reveal_strlit("%H:%M:%S");
    }
    if ago > THREE_DAYS_NANOS as i128 {
        when.format(DATE_PATTERN)
    } else if ago > TWELVE_HOURS_NANOS as i128 {
        when.format(DATE_TIME_PATTERN)
    } else {
        when.format(TIME_PATTERN)
    }
}

/// Expresses a time as a fuzzy string which may omit the date or time if the
/// time is recent (or distant) enough, judged against the current time;
/// `None` when the current time cannot be read (see `WallTime::now`). Only
/// how long ago `when` was matters, so the current time is taken at the
/// offset of `when`, in which it is rendered.
pub fn fuzzy_datestamp_of(when: &WallTime) -> (s: Option<String>)
    ensures
        s matches Some(t) ==> exists|now: WallTime| t@ == fuzzy_text(*when, now),
{
    match WallTime::now(when.offset) {
        Some(now) => Some(fuzzy_datestamp_at(when, &now)),
        None => None,
    }
}

/// A timestamp that allows for measuring both wall-clock time and elapsed
/// time: `instant` counts nanoseconds on a monotonic clock.
#[derive(Clone, Copy)]
pub struct Timestamp {
    /// Nanoseconds on the monotonic clock, used for measuring elapsed time.
    pub instant: u64,
    /// The wall-clock component, used for human-readable time.
    pub wall: WallTime,
}

impl Timestamp {
    /// A timestamp from a monotonic reading and a wall-clock reading.
    pub fn new(instant: u64, wall: WallTime) -> (t: Timestamp)
        ensures
            t.instant == instant,
            t.wall == wall,
    {
        Timestamp { instant, wall }
    }
}

/// Nanoseconds elapsed from `since` until `now` on the monotonic clock,
/// zero when `now` is not later.
pub open spec fn elapsed_nanos(since: u64, now: u64) -> nat {
    if now >= since {
        (now - since) as nat
    } else {
        0
    }
}

/// Nanoseconds elapsed from `since` until `now`, saturating at zero.
pub fn elapsed(since: u64, now: u64) -> (r: u64)
    ensures
        r == elapsed_nanos(since, now),
{
    if now >= since {
        now - since
    } else {
        0
    }
}

/// A duration, in nanoseconds, that renders in a human-readable way
/// (e.g. "1h" rather than "3600s").
#[derive(Clone, Copy)]
pub struct HumanDuration(pub u64);

impl HumanDuration {
    /// The duration of the given number of whole seconds.
    pub fn from_secs(secs: u64) -> (d: HumanDuration)
        requires
            secs * NANOS_PER_SEC <= u64::MAX,
        ensures
            d.0 == secs * NANOS_PER_SEC,
    {
        HumanDuration(secs * NANOS_PER_SEC)
    }

    /// The duration in nanoseconds.
    pub fn as_nanos(&self) -> (n: u64)
        ensures
            n == self.0,
    {
        self.0
    }

    /// The human-readable rendering of the duration.
    pub fn to_human_string(&self) -> (s: String)
        ensures
            s@ == humantime_text(self.0),
    {
        format_human(self.0)
    }
}

} // verus!
