//! Instants as the service handles them: seconds since the Unix epoch and
//! the nanoseconds within that second, as `DateTime<Utc>` stores them.
use vstd::prelude::*;

verus! {

/// An instant in UTC: `secs` is the Unix timestamp (floor seconds) and
/// `nanos` the sub-second part.
#[derive(Clone, Copy, Debug, PartialEq, Eq, Structural)]
pub struct UtcTime {
    pub secs: i64,
    pub nanos: u32,
}

impl UtcTime {
    /// Strictly earlier, in the order of `DateTime<Utc>`.
    pub open spec fn earlier(self, other: UtcTime) -> bool {
        self.secs < other.secs || (self.secs == other.secs && self.nanos < other.nanos)
    }

    /// The instant `secs` seconds after the epoch, with no sub-second part.
    pub fn from_timestamp(secs: i64) -> (t: UtcTime)
        ensures
            t == (UtcTime { secs, nanos: 0 }),
    {
        UtcTime { secs, nanos: 0 }
    }

    /// `self < other` on instants.
    pub fn is_before(&self, other: &UtcTime) -> (b: bool)
        ensures
            b == self.earlier(*other),
    {
        self.secs < other.secs || (self.secs == other.secs && self.nanos < other.nanos)
    }
}

} // verus!
