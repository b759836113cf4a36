//! Time as the transfers measure it.

use vstd::prelude::*;

verus! {

/// A length of time, in nanoseconds.
pub type Duration = u128;

/// A reading of a monotonic clock, in nanoseconds since the clock's origin.
#[derive(Clone, Copy, Debug, PartialEq, Eq, Structural)]
pub struct Instant {
    pub nanos: u128,
}

impl Instant {
    /// How long after `earlier` this reading was taken; zero if it was taken before.
    pub open spec fn since(self, earlier: Instant) -> int {
        if self.nanos > earlier.nanos {
            self.nanos - earlier.nanos
        } else {
            0
        }
    }

    /// How long after `earlier` this reading was taken; zero if it was taken before.
    pub fn saturating_duration_since(&self, earlier: Instant) -> (elapsed: Duration)
        ensures
            elapsed == self.since(earlier),
            self.nanos >= earlier.nanos ==> earlier.nanos + elapsed == self.nanos,
            self.nanos <= earlier.nanos ==> elapsed == 0,
    {
        self.nanos.saturating_sub(earlier.nanos)
    }
}

} // verus!
