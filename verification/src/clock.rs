//! Points in time, read from the system clock by the `chrono` crate.

use vstd::prelude::*;

verus! {

/// A point in time in UTC: whole seconds since the Unix epoch and the
/// nanoseconds since the last second boundary.
#[derive(Debug, Clone, Copy, PartialEq, Eq, Structural)]
pub struct Timestamp {
    pub seconds: i64,
    pub nanos: u32,
}

/// One more than the largest count of nanoseconds that a timestamp holds.
/// Counts of a thousand million and above stand for a leap second.
pub const NANOS_LIMIT: u32 = 2_000_000_000u32;

/// Calls `chrono::Utc::now` and reads the result with `DateTime::timestamp`
/// and `DateTime::timestamp_subsec_nanos`. The value depends on the clock; all
/// that is claimed is the range that `chrono` documents for the nanoseconds.
#[verifier::external_body]
fn read_clock() -> (now: Timestamp)
    ensures
        now.nanos < NANOS_LIMIT,
{
    let now = chrono::Utc::now();
    Timestamp { seconds: now.timestamp(), nanos: now.timestamp_subsec_nanos() }
}

impl Timestamp {
    /// Whether the nanoseconds are in range.
    pub open spec fn wf(self) -> bool {
        self.nanos < NANOS_LIMIT
    }

    /// Whether `self` is at or after `other`, comparing seconds first and
    /// nanoseconds second.
    pub open spec fn at_or_after(self, other: Timestamp) -> bool {
        self.seconds > other.seconds || (self.seconds == other.seconds && self.nanos
            >= other.nanos)
    }

    pub fn new(seconds: i64, nanos: u32) -> (t: Timestamp)
        ensures
            t.seconds == seconds,
            t.nanos == nanos,
    {
        Timestamp { seconds, nanos }
    }

    /// The current time.
    pub fn now() -> (t: Timestamp)
        ensures
            t.wf(),
    {
        read_clock()
    }

    /// The timestamp cut down to its whole seconds.
    pub fn truncated(&self) -> (t: Timestamp)
        ensures
            t.seconds == self.seconds,
            t.nanos == 0,
    {
        Timestamp { seconds: self.seconds, nanos: 0 }
    }

    /// Compares two timestamps.
    pub fn is_at_or_after(&self, other: &Timestamp) -> (r: bool)
        ensures
            r == self.at_or_after(*other),
    {
        self.seconds > other.seconds || (self.seconds == other.seconds && self.nanos
            >= other.nanos)
    }
}

} // verus!
