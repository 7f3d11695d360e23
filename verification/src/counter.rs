//! Monotonic statistics counters.
//!
//! Each counter belongs to one port queue and is only ever increased;
//! accumulation is tolerant of arbitrarily interleaved increments, so a
//! reader may observe any monotonically growing value. Increments saturate
//! at the maximum instead of wrapping.

use vstd::prelude::*;

verus! {

/// `a + b`, saturating at `u64::MAX`.
pub open spec fn sat_add(a: u64, b: u64) -> u64 {
    if a + b > u64::MAX {
        u64::MAX
    } else {
        (a + b) as u64
    }
}

/// A monotonically non-decreasing event counter.
#[derive(Clone, Copy, Debug)]
pub struct StatCounter {
    count: u64,
}

impl StatCounter {
    pub closed spec fn spec_count(self) -> u64 {
        self.count
    }

    pub fn new() -> (r: StatCounter)
        ensures
            r.spec_count() == 0,
    {
        StatCounter { count: 0 }
    }

    /// Read the accumulated count.
    pub fn count(&self) -> (r: u64)
        ensures
            r == self.spec_count(),
    {
        self.count
    }

    /// Accumulate `n` events; the count never decreases.
    pub fn add(&mut self, n: u64)
        ensures
            final(self).spec_count() == sat_add(old(self).spec_count(), n),
            final(self).spec_count() >= old(self).spec_count(),
    {
        if self.count > u64::MAX - n {
            self.count = u64::MAX;
        } else {
            self.count = self.count + n;
        }
    }
}

} // verus!
