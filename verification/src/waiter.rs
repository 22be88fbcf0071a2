//! Drift-free periodic schedule.
//!
//! The heartbeat fires once per elapsed period.  To keep slow iterations from
//! permanently shifting the schedule, the next deadline is always computed
//! from the previously scheduled deadline, never from the time the work
//! finished.  The waiter here holds that schedule; the caller supplies the
//! current time in milliseconds and learns whether a period has elapsed.

use vstd::prelude::*;

verus! {

/// The schedule of a periodic activity: a fixed period and the next deadline,
/// both in milliseconds of some monotonic clock.
pub struct PeriodicWaiter {
    period_ms: u64,
    next_deadline_ms: u64,
}

impl PeriodicWaiter {
    /// The fixed period.
    pub closed spec fn period(self) -> u64 {
        self.period_ms
    }

    /// The next scheduled deadline.
    pub closed spec fn next_deadline(self) -> u64 {
        self.next_deadline_ms
    }

    /// A schedule is well-formed when its period is positive.
    pub open spec fn wf(self) -> bool {
        self.period() >= 1
    }

    /// Start a schedule: the first deadline is one period from now.
    pub fn new(period_ms: u64, now_ms: u64) -> (w: PeriodicWaiter)
        requires
            period_ms >= 1,
            now_ms + period_ms <= u64::MAX,
        ensures
            w.wf(),
            w.period() == period_ms,
            w.next_deadline() == now_ms + period_ms,
    {
        PeriodicWaiter { period_ms, next_deadline_ms: now_ms + period_ms }
    }

    /// Ask whether a period has elapsed.  Fires exactly when the current time
    /// has reached the scheduled deadline, and then advances the deadline by
    /// one period from the deadline itself — not from `now_ms` — so a slow
    /// iteration does not push every later deadline forward.  When several
    /// periods have elapsed, each poll fires once and the schedule catches up
    /// one period per call.
    pub fn poll(&mut self, now_ms: u64) -> (fired: bool)
        requires
            old(self).wf(),
            old(self).next_deadline() + old(self).period() <= u64::MAX,
        ensures
            final(self).wf(),
            final(self).period() == old(self).period(),
            fired == (now_ms >= old(self).next_deadline()),
            fired ==> final(self).next_deadline() == old(self).next_deadline() + old(self).period(),
            !fired ==> final(self).next_deadline() == old(self).next_deadline(),
    {
        if now_ms >= self.next_deadline_ms {
            self.next_deadline_ms = self.next_deadline_ms + self.period_ms;
            true
        } else {
            false
        }
    }
}

} // verus!
