//! Points in UTC time as plain values, and the clock.
use vstd::prelude::*;

verus! {

/// Bound on the seconds of any instant the clock can report (the
/// representable range of `chrono::DateTime<Utc>` lies within it).
pub const CLOCK_SECS_BOUND: i64 = 8_796_093_022_208;

/// Seconds since the epoch of the earliest instant `chrono::DateTime<Utc>`
/// represents (`DateTime::<Utc>::MIN_UTC`, the start of year -262143).
pub const CHRONO_MIN_SECS: i64 = -8_334_601_315_200;

/// Seconds since the epoch of the latest instant `chrono::DateTime<Utc>`
/// represents (`DateTime::<Utc>::MAX_UTC`, the end of year 262142).
pub const CHRONO_MAX_SECS: i64 = 8_210_266_876_799;

/// A UTC instant: whole seconds since the Unix epoch and the sub-second
/// nanoseconds (at least one billion during a leap second).
#[derive(Debug, Clone, Copy, PartialEq, Eq, Structural)]
pub struct Timestamp {
    pub secs: i64,
    pub nanos: u32,
}

impl Timestamp {
    /// `self` is strictly later than `other`.
    pub open spec fn later_than(self, other: Timestamp) -> bool {
        self.secs > other.secs || (self.secs == other.secs && self.nanos > other.nanos)
    }

    /// Whether `self` is strictly later than `other`.
    pub fn is_after(&self, other: &Timestamp) -> (r: bool)
        ensures
            r == self.later_than(*other),
    {
        self.secs > other.secs || (self.secs == other.secs && self.nanos > other.nanos)
    }
}

/// The current UTC time (`chrono::Utc::now`), as seconds and nanoseconds.
/// The value depends on the clock; only its range is stated: the system
/// time since the epoch, within what `chrono` represents, and never a leap
/// second.
#[verifier::external_body]
pub(crate) fn utc_now() -> (t: Timestamp)
    ensures
        0 <= t.secs <= CHRONO_MAX_SECS,
        t.nanos < 1_000_000_000,
{
    let now = chrono::Utc::now();
    Timestamp { secs: now.timestamp(), nanos: now.timestamp_subsec_nanos() }
}

/// What parsing a string as `chrono::DateTime<Utc>` gives.
pub uninterp spec fn utc_datetime_from_str(s: Seq<char>) -> Option<Timestamp>;

/// Parses `s` as a `chrono::DateTime<Utc>` (`str::parse`).
#[verifier::external_body]
pub(crate) fn parse_utc_datetime(s: &str) -> (r: Option<Timestamp>)
    ensures
        r == utc_datetime_from_str(s@),
{
    match s.parse::<chrono::DateTime<chrono::Utc>>() {
        Ok(t) => Some(Timestamp { secs: t.timestamp(), nanos: t.timestamp_subsec_nanos() }),
        Err(_) => None,
    }
}

} // verus!
