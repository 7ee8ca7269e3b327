//! Points in time, as seconds and nanoseconds since the Unix epoch.

use vstd::prelude::*;

verus! {

/// Nanoseconds in one second.
pub const NSEC_PER_SEC: i32 = 1_000_000_000;

/// A point in time: whole seconds since 1970-01-01T00:00:00Z, and the
/// nanoseconds past that second.
#[derive(Clone, Copy, Debug, PartialEq, Eq)]
pub struct Timestamp {
    pub sec: i64,
    pub nsec: i32,
}

impl Timestamp {
    /// `self` is `other` or a later point in time: the seconds decide, and
    /// between equal seconds the nanoseconds.
    pub open spec fn not_before(self, other: Timestamp) -> bool {
        self.sec > other.sec || (self.sec == other.sec && self.nsec >= other.nsec)
    }

    /// The nanoseconds lie within one second.
    pub open spec fn wf(self) -> bool {
        0 <= self.nsec < NSEC_PER_SEC
    }

    /// A timestamp on a whole second.
    pub fn from_secs(sec: i64) -> (t: Timestamp)
        ensures
            t == (Timestamp { sec, nsec: 0 }),
            t.wf(),
    {
        Timestamp { sec, nsec: 0 }
    }

    /// Whether `self` is `other` or later.
    pub fn is_not_before(&self, other: &Timestamp) -> (r: bool)
        ensures
            r == self.not_before(*other),
    {
        self.sec > other.sec || (self.sec == other.sec && self.nsec >= other.nsec)
    }
}

/// Reads the system clock with `time::get_time`.
///
/// The reading differs from call to call, so nothing is claimed of its value
/// but what `time::Timespec::new` checks before it returns: the nanoseconds
/// lie within one second.
#[verifier::external_body]
pub(crate) fn now() -> (t: Timestamp)
    ensures
        t.wf(),
{
    let t = time::get_time();
    Timestamp { sec: t.sec, nsec: t.nsec }
}

} // verus!
