//! Moments of a monotonic clock.
use vstd::prelude::*;

verus! {

pub const NANOS_PER_SEC: u64 = 1_000_000_000;

/// A reading of the monotonic clock, in nanoseconds since some fixed origin.
#[derive(Clone, Copy, Debug, PartialEq, Eq, Structural)]
pub struct Moment {
    pub nanos: u64,
}

impl Moment {
    /// The whole seconds that have passed from `earlier` to `self`, zero if
    /// `earlier` lies in the future.
    pub open spec fn secs_since(self, earlier: Moment) -> nat {
        if self.nanos >= earlier.nanos {
            (self.nanos - earlier.nanos) as nat / NANOS_PER_SEC as nat
        } else {
            0
        }
    }

    pub fn seconds_since(&self, earlier: &Moment) -> (r: u64)
        ensures
            r == self.secs_since(*earlier),
    {
        if self.nanos >= earlier.nanos {
            (self.nanos - earlier.nanos) / NANOS_PER_SEC
        } else {
            0
        }
    }
}

/// `n` seconds have passed just when `n` times a billion nanoseconds have:
/// no second is counted before it is whole.
pub proof fn law_seconds_are_whole(later: Moment, earlier: Moment, n: nat)
    requires
        n > 0,
    ensures
        later.secs_since(earlier) >= n <==> later.nanos >= earlier.nanos + n * 1_000_000_000,
{
}

} // verus!
