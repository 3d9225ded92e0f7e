//! Instants of UTC time, held as plain numbers.

use vstd::prelude::*;

verus! {

/// The least count of nanoseconds that no instant carries.
pub const NANOS_LIMIT: u32 = 2_000_000_000;

/// An instant of UTC time: whole seconds since the start of 1970, and the
/// nanoseconds past that second. During a leap second the nanoseconds run on
/// past one thousand million.
#[derive(Clone, Copy, Debug, PartialEq, Eq, Structural)]
pub struct Timestamp {
    pub secs: i64,
    pub nanos: u32,
}

impl Timestamp {
    /// The nanoseconds stay under two seconds' worth.
    pub open spec fn wf(self) -> bool {
        self.nanos < NANOS_LIMIT
    }

    /// `self` is `other` or comes before it.
    pub open spec fn not_after(self, other: Timestamp) -> bool {
        self.secs < other.secs || (self.secs == other.secs && self.nanos <= other.nanos)
    }

    /// Whether the nanoseconds are in range.
    pub fn is_valid(&self) -> (valid: bool)
        ensures
            valid == self.wf(),
    {
        self.nanos < NANOS_LIMIT
    }

    /// Whether `self` is `other` or comes before it.
    pub fn is_not_after(&self, other: &Timestamp) -> (earlier: bool)
        ensures
            earlier == self.not_after(*other),
    {
        self.secs < other.secs || (self.secs == other.secs && self.nanos <= other.nanos)
    }
}

/// Reads the clock through `chrono::Utc::now`, and takes the instant apart
/// with `DateTime::timestamp` and `DateTime::timestamp_subsec_nanos`. Nothing
/// is claimed of which instant comes back, only that its nanoseconds are in
/// the range that chrono documents. chrono panics where the system clock
/// stands before 1970.
#[verifier::external_body]
pub(crate) fn utc_now() -> (now: Timestamp)
    ensures
        now.wf(),
{
    let now = chrono::Utc::now();
    Timestamp { secs: now.timestamp(), nanos: now.timestamp_subsec_nanos() }
}

} // verus!
