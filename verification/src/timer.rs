//! The periodic sampling timer that gates both history recording and rewind
//! playback to one shared cadence.

use vstd::prelude::*;

verus! {

/// A repeating interval timer. One timer per entity gates both recording and
/// playback, so the two cadences can never drift apart.
#[derive(Clone, Copy, PartialEq, Eq, Structural, Debug)]
pub struct SampleTimer {
    /// Time accumulated toward the next period boundary; always below `period`.
    pub elapsed: u64,
    /// Length of one sampling period; always positive.
    pub period: u64,
}

impl SampleTimer {
    pub open spec fn wf(self) -> bool {
        &&& self.period > 0
        &&& self.elapsed < self.period
    }

    /// The timer state after advancing by `dt`.
    pub open spec fn spec_advance(self, dt: u64) -> SampleTimer {
        SampleTimer {
            elapsed: ((self.elapsed + dt) % (self.period as int)) as u64,
            period: self.period,
        }
    }

    /// Whether advancing by `dt` completes (at least) one period.
    pub open spec fn spec_fires(self, dt: u64) -> bool {
        self.elapsed + dt >= self.period
    }

    pub fn new(period: u64) -> (t: SampleTimer)
        requires
            period > 0,
        ensures
            t.wf(),
            t.period == period,
            t.elapsed == 0,
    {
        SampleTimer { elapsed: 0, period }
    }

    /// Advance the timer by `dt`, reporting whether a period completed.
    pub fn advance(&mut self, dt: u64) -> (fired: bool)
        requires
            old(self).wf(),
            dt <= u64::MAX - old(self).period,
        ensures
            final(self).wf(),
            *final(self) == old(self).spec_advance(dt),
            fired == old(self).spec_fires(dt),
    {
        let total: u64 = self.elapsed + dt;
        let fired: bool = total >= self.period;
        self.elapsed = total % self.period;
        fired
    }
}

} // verus!
