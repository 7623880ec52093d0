//! Instants in time, counted from the Unix epoch.

use vstd::prelude::*;

verus! {

/// Nanoseconds in one second.
pub const NANOS_PER_SECOND: u32 = 1_000_000_000;

/// Seconds in one day.
pub const SECONDS_PER_DAY: i64 = 86_400;

/// An instant: `secs` whole seconds after the Unix epoch plus `nanos`
/// nanoseconds. A `nanos` of a second or more stands for a leap second and is
/// simply carried into the instant.
#[derive(Clone, Copy, Debug, PartialEq, Eq, Structural)]
pub struct Timestamp {
    pub secs: i64,
    pub nanos: u32,
}

impl Timestamp {
    /// The instant as a count of nanoseconds since the epoch.
    pub open spec fn total_nanos(self) -> int {
        self.secs * (NANOS_PER_SECOND as int) + self.nanos
    }
}

/// Nanoseconds in one day.
pub open spec fn day_nanos() -> int {
    SECONDS_PER_DAY * (NANOS_PER_SECOND as int)
}

/// Whether strictly more than one day has passed from `earlier` to `later`.
pub fn more_than_a_day_between(earlier: Timestamp, later: Timestamp) -> (r: bool)
    ensures
        r == (later.total_nanos() - earlier.total_nanos() > day_nanos()),
{
    let secs_diff: i128 = later.secs as i128 - earlier.secs as i128;
    let nanos_diff: i128 = later.nanos as i128 - earlier.nanos as i128;
    let elapsed: i128 = secs_diff * 1_000_000_000i128 + nanos_diff;
    elapsed > 86_400_000_000_000i128
}

/// An instant read from the system clock. Its field is private to this
/// module, where only `read_clock` builds one, so a contract that names a
/// `ClockReading`'s instant names an instant that the clock gave.
#[derive(Clone, Copy, Debug)]
pub struct ClockReading {
    instant: Timestamp,
}

impl ClockReading {
    /// The instant that the clock gave.
    pub closed spec fn at(self) -> Timestamp {
        self.instant
    }

    /// The instant that the clock gave.
    pub fn timestamp(&self) -> (t: Timestamp)
        ensures
            t == self.at(),
    {
        self.instant
    }
}

/// `chrono::Utc::now`, taken apart with `DateTime::timestamp` and
/// `DateTime::timestamp_subsec_nanos`. Nothing is stated of the instant: it is
/// whatever the system clock reads. The call panics only if the system clock
/// reads a time before the Unix epoch.
#[verifier::external_body]
pub(crate) fn read_clock() -> (now: ClockReading) {
    let now = chrono::Utc::now();
    ClockReading { instant: Timestamp { secs: now.timestamp(), nanos: now.timestamp_subsec_nanos() } }
}

} // verus!
