//! Frame timing as plain nanosecond counts.
//!
//! The embedding layer samples a monotonic clock and reports nanoseconds
//! since an arbitrary epoch; everything here is integer bookkeeping over
//! those samples.  Converting an elapsed span to fractional seconds is the
//! embedding layer's concern.

use vstd::prelude::*;

verus! {

/// Clock state: the startup instant and the latest sample, both in
/// nanoseconds since the same epoch.
#[derive(Clone, Copy, Debug, PartialEq, Eq, Structural)]
pub struct TimeContext {
    pub start_time: u64,
    pub current_time: u64,
}

impl TimeContext {
    /// The latest sample never precedes the startup instant.
    pub open spec fn wf(self) -> bool {
        self.start_time <= self.current_time
    }

    /// Starts the clock at `now`.
    pub fn new(now: u64) -> (t: TimeContext)
        ensures
            t.wf(),
            t.start_time == now,
            t.current_time == now,
    {
        TimeContext { start_time: now, current_time: now }
    }

    /// Records a new clock sample; the clock is monotonic, so the sample
    /// never precedes the one before it.
    pub fn advance(&mut self, now: u64)
        requires
            old(self).wf(),
            now >= old(self).current_time,
        ensures
            final(self).wf(),
            final(self).current_time == now,
            final(self).start_time == old(self).start_time,
    {
        self.current_time = now;
    }

    /// Nanoseconds elapsed between startup and the latest sample.
    pub fn elapsed_nanos(&self) -> (r: u64)
        requires
            self.wf(),
        ensures
            r == self.current_time - self.start_time,
    {
        self.current_time - self.start_time
    }
}

} // verus!
