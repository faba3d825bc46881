//! Points in time, and the whole hours between two of them.

use vstd::prelude::*;

verus! {

/// The number of nanoseconds in a second.
pub const NANOS_PER_SECOND: i128 = 1_000_000_000;

/// The number of nanoseconds in an hour.
pub const NANOS_PER_HOUR: i128 = 3_600_000_000_000;

/// A point in time: `secs` whole seconds after the start of 1970 in UTC
/// (before it, if negative), and `nanos` nanoseconds after that.
#[derive(Clone, Copy, Debug, PartialEq, Eq, Structural)]
pub struct Timestamp {
    pub secs: i64,
    pub nanos: u32,
}

impl Timestamp {
    /// The point in time as a number of nanoseconds after the start of 1970.
    pub open spec fn total_nanos(self) -> int {
        self.secs * NANOS_PER_SECOND + self.nanos
    }

    /// The number of whole hours from `self` to `later`, rounded down. It is
    /// negative where `later` is before `self`.
    pub open spec fn hours_until(self, later: Timestamp) -> int {
        (later.total_nanos() - self.total_nanos()) / (NANOS_PER_HOUR as int)
    }

    /// The number of whole hours from `self` to `later`, rounded down.
    pub fn whole_hours_until(&self, later: &Timestamp) -> (hours: i64)
        ensures
            hours == self.hours_until(*later),
    {
        let from: i128 = (self.secs as i128) * NANOS_PER_SECOND + (self.nanos as i128);
        let to: i128 = (later.secs as i128) * NANOS_PER_SECOND + (later.nanos as i128);
        let span: i128 = to - from;
        if span >= 0 {
            (span / NANOS_PER_HOUR) as i64
        } else {
            let back: i128 = -span;
            let hours_back: i128 = (back + (NANOS_PER_HOUR - 1)) / NANOS_PER_HOUR;
            (-hours_back) as i64
        }
    }
}

/// No time has passed between a point in time and itself, and the hours
/// between two points do not shrink as the later one moves on.
pub proof fn lemma_hours_grow_with_time(from: Timestamp, earlier: Timestamp, later: Timestamp)
    requires
        earlier.total_nanos() <= later.total_nanos(),
    ensures
        from.hours_until(from) == 0,
        from.hours_until(earlier) <= from.hours_until(later),
{
}

} // verus!
