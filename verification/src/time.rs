//! Instants on the UTC time line, with whole seconds and a sub-second part.

use vstd::prelude::*;

verus! {

/// Number of nanoseconds in one second.
pub const NANOS_PER_SECOND: u32 = 1_000_000_000;

/// Seconds in one day.
pub const SECONDS_PER_DAY: i64 = 86_400;

/// Exclusive upper bound on the seconds that the system clock reports:
/// the day count of any instant it can hand out fits in 32 bits.
pub const CLOCK_SECONDS_LIMIT: i64 = 185_542_587_187_200;

/// A UTC instant: whole seconds since 1970-01-01T00:00:00Z and the
/// nanoseconds elapsed since the last whole second.
#[derive(Clone, Copy, Debug, PartialEq, Eq, Structural)]
pub struct Timestamp {
    pub secs: i64,
    pub nanos: u32,
}

impl Timestamp {
    /// The sub-second part stays below one second.
    pub open spec fn wf(self) -> bool {
        self.nanos < NANOS_PER_SECOND
    }

    /// Whether `self` is not later than `other`.
    pub open spec fn at_or_before(self, other: Timestamp) -> bool {
        self.secs < other.secs || (self.secs == other.secs && self.nanos <= other.nanos)
    }

    /// The instant `seconds` whole seconds earlier.
    pub open spec fn earlier_by(self, seconds: int) -> Timestamp
        recommends
            i64::MIN <= self.secs - seconds <= i64::MAX,
    {
        Timestamp { secs: (self.secs - seconds) as i64, nanos: self.nanos }
    }

    /// An instant from whole seconds and a sub-second part; `None` when
    /// the sub-second part does not stay below one second.
    pub fn new(secs: i64, nanos: u32) -> (t: Option<Timestamp>)
        ensures
            nanos < NANOS_PER_SECOND ==> t == Some(Timestamp { secs, nanos }),
            nanos >= NANOS_PER_SECOND ==> t is None,
    {
        if nanos < NANOS_PER_SECOND {
            Some(Timestamp { secs, nanos })
        } else {
            None
        }
    }
}

/// What every reading of the system clock satisfies.
pub open spec fn clock_reading(t: Timestamp) -> bool {
    &&& t.wf()
    &&& 0 <= t.secs < CLOCK_SECONDS_LIMIT
}

/// Reads the system clock through `chrono::Utc::now`.
///
/// Trusted: the reading is not earlier than the epoch, its sub-second
/// part is below one second, and its day count fits in 32 bits. Nothing
/// relates two readings to each other.
#[verifier::external_body]
pub(crate) fn system_now() -> (t: Timestamp)
    ensures
        clock_reading(t),
{
    let now = chrono::Utc::now();
    Timestamp { secs: now.timestamp(), nanos: now.timestamp_subsec_nanos() }
}

} // verus!
