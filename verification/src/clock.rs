//! Instants on the UTC time line, counted from the Unix epoch, and the calls
//! into `chrono` that read the clock, measure and print them.

use chrono::{DateTime, Utc};
use vstd::prelude::*;

verus! {

/// Seconds of the earliest instant that can be represented
/// (midnight of 1 January of the year -262143).
pub const MIN_SECONDS: i64 = -8_334_601_228_800;

/// Seconds of the last second that can be represented
/// (23:59:59 of 31 December of the year 262142).
pub const MAX_SECONDS: i64 = 8_210_266_876_799;

/// Nanoseconds in one second.
pub const NANOS_PER_SECOND: u32 = 1_000_000_000;

/// Seconds in one day.
pub const SECONDS_PER_DAY: i64 = 86_400;

/// An instant as a pair of integers: whole seconds since the Unix epoch, and
/// nanoseconds since the start of that second.
pub struct Instant {
    pub secs: int,
    pub nanos: int,
}

impl Instant {
    /// An instant is valid when its seconds lie in the representable range and
    /// its nanoseconds are below one second, or below two seconds where the
    /// second is the last of its minute (a leap second).
    pub open spec fn valid(self) -> bool {
        &&& MIN_SECONDS <= self.secs <= MAX_SECONDS
        &&& 0 <= self.nanos < 2 * NANOS_PER_SECOND
        &&& (self.nanos >= NANOS_PER_SECOND ==> self.secs % 60 == 59)
    }

    /// `self` is strictly earlier than `other`.
    pub open spec fn before(self, other: Instant) -> bool {
        self.secs < other.secs || (self.secs == other.secs && self.nanos < other.nanos)
    }

    /// `self` is not later than `other`.
    pub open spec fn at_or_before(self, other: Instant) -> bool {
        self == other || self.before(other)
    }

    /// The later of `self` and `other`.
    pub open spec fn later_of(self, other: Instant) -> Instant {
        if self.before(other) {
            other
        } else {
            self
        }
    }

    /// Seconds since the last midnight.
    pub open spec fn second_of_day(self) -> int {
        self.secs % (SECONDS_PER_DAY as int)
    }

    /// The second that a leap second on one side adds to or takes from the
    /// distance between two times of day: one more where `later` is at a later
    /// time of day and `self` lies in a leap second, one less where `later` is
    /// at an earlier time of day and lies in a leap second itself.
    pub open spec fn leap_correction(self, later: Instant) -> int {
        if later.second_of_day() > self.second_of_day() && self.nanos >= NANOS_PER_SECOND {
            1
        } else if later.second_of_day() < self.second_of_day()
            && later.nanos >= NANOS_PER_SECOND {
            -1
        } else {
            0
        }
    }

    /// Nanoseconds from `self` to `later`; negative where `later` is earlier.
    pub open spec fn nanos_until(self, later: Instant) -> int {
        let seconds = later.secs - self.secs + self.leap_correction(later);
        seconds * (NANOS_PER_SECOND as int) + (later.nanos - self.nanos)
    }

    /// Whole seconds from `self` to `later`, rounded towards zero.
    pub open spec fn seconds_until(self, later: Instant) -> int {
        truncated_quotient(self.nanos_until(later), NANOS_PER_SECOND as int)
    }
}

/// The quotient of `n` by a positive `d`, rounded towards zero.
pub open spec fn truncated_quotient(n: int, d: int) -> int {
    if n >= 0 {
        n / d
    } else {
        -((-n) / d)
    }
}

/// What is left of `n` after `truncated_quotient(n, d)` times `d`; it has the
/// sign of `n`.
pub open spec fn truncated_remainder(n: int, d: int) -> int {
    n - truncated_quotient(n, d) * d
}

/// The text that `chrono` prints for the instant in RFC 3339 form, with UTC
/// written as the offset `+00:00`.
pub uninterp spec fn rfc3339_text(secs: int, nanos: int) -> Seq<char>;

/// The text that `chrono` prints for the instant under a `strftime` pattern.
pub uninterp spec fn strftime_text(secs: int, nanos: int, pattern: Seq<char>) -> Seq<char>;

/// The pattern for a calendar date followed by the time of day.
pub const DATE_TIME_PATTERN: &'static str = "%Y-%m-%d %H:%M:%S";

/// The pattern for the time of day alone.
pub const TIME_OF_DAY_PATTERN: &'static str = "%H:%M:%S";

/// Reads the system clock with `chrono::Utc::now` and takes the reading apart
/// with `DateTime::timestamp` and `DateTime::timestamp_subsec_nanos`.
///
/// Trusted: every `DateTime<Utc>` lies in the representable range and keeps
/// its nanoseconds below two seconds, at or above one second only in the last
/// second of a minute. `Utc::now` itself gives up where the system clock
/// stands before 1970 or beyond that range.
#[verifier::external_body]
fn utc_now() -> (res: (i64, u32))
    ensures
        (Instant { secs: res.0 as int, nanos: res.1 as int }).valid(),
{
    let now = Utc::now();
    (now.timestamp(), now.timestamp_subsec_nanos())
}

/// Prints an instant with `DateTime::<Utc>::to_rfc3339`.
///
/// Trusted: `DateTime::from_timestamp` accepts every valid instant, and the
/// text depends on the instant alone.
#[verifier::external_body]
fn chrono_rfc3339(secs: i64, nanos: u32) -> (res: String)
    requires
        (Instant { secs: secs as int, nanos: nanos as int }).valid(),
    ensures
        res@ == rfc3339_text(secs as int, nanos as int),
{
    DateTime::from_timestamp(secs, nanos).unwrap().to_rfc3339()
}

/// Prints an instant with `DateTime::<Utc>::format` under one of the two
/// patterns of this module.
///
/// Trusted: `DateTime::from_timestamp` accepts every valid instant, both
/// patterns hold only specifiers that `chrono` knows, and the text depends on
/// the instant and the pattern alone.
#[verifier::external_body]
fn chrono_format(secs: i64, nanos: u32, pattern: &str) -> (res: String)
    requires
        (Instant { secs: secs as int, nanos: nanos as int }).valid(),
        pattern@ == DATE_TIME_PATTERN@ || pattern@ == TIME_OF_DAY_PATTERN@,
    ensures
        res@ == strftime_text(secs as int, nanos as int, pattern@),
{
    DateTime::from_timestamp(secs, nanos).unwrap().format(pattern).to_string()
}

/// Subtracts two instants as `chrono` does (`end - start`) and takes the whole
/// seconds of the difference with `TimeDelta::num_seconds`.
///
/// Trusted: the difference is the distance in seconds, corrected by one where
/// a leap second lies on one side as `Instant::leap_correction` says, plus the
/// difference of the nanoseconds; `num_seconds` rounds it towards zero.
#[verifier::external_body]
fn chrono_seconds_between(
    start_secs: i64,
    start_nanos: u32,
    end_secs: i64,
    end_nanos: u32,
) -> (res: i64)
    requires
        (Instant { secs: start_secs as int, nanos: start_nanos as int }).valid(),
        (Instant { secs: end_secs as int, nanos: end_nanos as int }).valid(),
    ensures
        res == (Instant { secs: start_secs as int, nanos: start_nanos as int }).seconds_until(
            Instant { secs: end_secs as int, nanos: end_nanos as int },
        ),
{
    let start = DateTime::from_timestamp(start_secs, start_nanos).unwrap();
    let end = DateTime::from_timestamp(end_secs, end_nanos).unwrap();
    (end - start).num_seconds()
}

/// The second within its minute, from 0 to 59, also before the epoch.
fn second_of_minute(secs: i64) -> (res: i64)
    ensures
        res == secs % 60,
{
    let r: i64 = secs % 60;
    if r < 0 {
        r + 60
    } else {
        r
    }
}

/// A valid instant.
#[derive(Clone, Copy, Debug, PartialEq, Eq)]
pub struct Timestamp {
    secs: i64,
    nanos: u32,
}

impl View for Timestamp {
    type V = Instant;

    closed spec fn view(&self) -> Instant {
        Instant { secs: self.secs as int, nanos: self.nanos as int }
    }
}

impl Timestamp {
    #[verifier::type_invariant]
    spec fn inv(self) -> bool {
        self@.valid()
    }

    /// The instant with the given seconds and nanoseconds, if it is valid.
    pub fn new(secs: i64, nanos: u32) -> (res: Option<Timestamp>)
        ensures
            res is Some <==> (Instant { secs: secs as int, nanos: nanos as int }).valid(),
            res matches Some(t) ==> t@ == (Instant { secs: secs as int, nanos: nanos as int }),
    {
        if secs < MIN_SECONDS || secs > MAX_SECONDS {
            return None;
        }
        if nanos >= 2 * NANOS_PER_SECOND {
            return None;
        }
        if nanos >= NANOS_PER_SECOND && second_of_minute(secs) != 59 {
            return None;
        }
        Some(Timestamp { secs, nanos })
    }

    /// The instant that the system clock shows.
    pub fn now() -> (res: Timestamp)
        ensures
            res@.valid(),
    {
        let (secs, nanos) = utc_now();
        Timestamp { secs, nanos }
    }

    /// Whole seconds since the Unix epoch.
    pub fn seconds(&self) -> (res: i64)
        ensures
            res == self@.secs,
            self@.valid(),
    {
        proof {
            use_type_invariant(self);
        }
        self.secs
    }

    /// Nanoseconds since the start of the second.
    pub fn subsec_nanos(&self) -> (res: u32)
        ensures
            res == self@.nanos,
            self@.valid(),
    {
        proof {
            use_type_invariant(self);
        }
        self.nanos
    }

    /// Whether `self` is strictly earlier than `other`.
    pub fn is_before(&self, other: &Timestamp) -> (res: bool)
        ensures
            res == self@.before(other@),
    {
        self.secs < other.secs || (self.secs == other.secs && self.nanos < other.nanos)
    }

    /// The later of `self` and `other`.
    pub fn later_of(&self, other: &Timestamp) -> (res: Timestamp)
        ensures
            res@ == self@.later_of(other@),
            res@.valid(),
    {
        proof {
            use_type_invariant(self);
            use_type_invariant(other);
        }
        if self.is_before(other) {
            *other
        } else {
            *self
        }
    }

    /// Whole seconds from `self` to `later`, rounded towards zero; negative
    /// where `later` is the earlier one.
    pub fn seconds_until(&self, later: &Timestamp) -> (res: i64)
        ensures
            res == self@.seconds_until(later@),
    {
        proof {
            use_type_invariant(self);
            use_type_invariant(later);
        }
        chrono_seconds_between(self.secs, self.nanos, later.secs, later.nanos)
    }

    /// The instant in RFC 3339 form.
    pub fn to_rfc3339(&self) -> (res: String)
        ensures
            res@ == rfc3339_text(self@.secs, self@.nanos),
    {
        proof {
            use_type_invariant(self);
        }
        chrono_rfc3339(self.secs, self.nanos)
    }

    /// The calendar date and the time of day, as `DATE_TIME_PATTERN` prints
    /// them.
    pub fn date_time_text(&self) -> (res: String)
        ensures
            res@ == strftime_text(self@.secs, self@.nanos, DATE_TIME_PATTERN@),
    {
        proof {
            use_type_invariant(self);
        }
        chrono_format(self.secs, self.nanos, DATE_TIME_PATTERN)
    }

    /// The time of day, as `TIME_OF_DAY_PATTERN` prints it.
    pub fn time_of_day_text(&self) -> (res: String)
        ensures
            res@ == strftime_text(self@.secs, self@.nanos, TIME_OF_DAY_PATTERN@),
    {
        proof {
            use_type_invariant(self);
        }
        chrono_format(self.secs, self.nanos, TIME_OF_DAY_PATTERN)
    }
}

} // verus!
