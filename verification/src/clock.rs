//! Points in time, as plain integers, and the wall clock.

use vstd::prelude::*;

verus! {

/// An instant on the UTC time line: whole seconds since 1970-01-01T00:00:00Z
/// and the nanoseconds into that second.
#[derive(Debug, PartialEq, Eq, Structural)]
pub struct Timestamp {
    pub secs: i64,
    pub nanos: u32,
}

impl Clone for Timestamp {
    fn clone(&self) -> (r: Self)
        ensures
            r == *self,
    {
        Timestamp { secs: self.secs, nanos: self.nanos }
    }
}

impl Copy for Timestamp {}

impl Timestamp {
    /// `self` is not later than `other`.
    pub open spec fn not_after(self, other: Timestamp) -> bool {
        self.secs < other.secs || (self.secs == other.secs && self.nanos <= other.nanos)
    }

    /// Decides whether `self` is not later than `other`.
    pub fn le(&self, other: &Timestamp) -> (r: bool)
        ensures
            r == self.not_after(*other),
    {
        self.secs < other.secs || (self.secs == other.secs && self.nanos <= other.nanos)
    }

    /// The later of two instants; `self` when they are equal.
    pub fn later_of(self, other: Timestamp) -> (r: Timestamp)
        ensures
            r == if other.not_after(self) { self } else { other },
            self.not_after(r),
            other.not_after(r),
    {
        if other.le(&self) {
            self
        } else {
            other
        }
    }
}

/// Reads the wall clock through `chrono::Utc::now`.
///
/// Trusted: chrono builds the value from the time elapsed since the Unix
/// epoch, so the seconds are not negative and the nanoseconds stay below one
/// second. Nothing else is claimed: two calls may go backwards, and chrono
/// itself panics when the system clock is set before 1970.
#[verifier::external_body]
pub(crate) fn now() -> (t: Timestamp)
    ensures
        t.secs >= 0,
        t.nanos < 1_000_000_000,
{
    let t = chrono::Utc::now();
    Timestamp { secs: t.timestamp(), nanos: t.timestamp_subsec_nanos() }
}

} // verus!
