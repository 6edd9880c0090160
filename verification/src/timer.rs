//! The repeating spawn countdown: advanced once per frame, it reports a
//! fire at most once per tick and keeps the remainder past the period.

use vstd::prelude::*;

use crate::geometry::DT_LIMIT_MS;

verus! {

/// Longest period a spawn timer may be built with, in milliseconds.
pub const PERIOD_LIMIT_MS: u64 = 31_536_000_000;

/// A repeating countdown with a fixed period.
#[derive(Clone, Copy, PartialEq, Eq, Structural, Debug)]
pub struct SpawnTimer {
    /// Time accumulated since the last fire, in milliseconds.
    pub elapsed_ms: u64,
    /// The fixed period, in milliseconds.
    pub period_ms: u64,
    /// Whether the last tick crossed a period boundary.
    pub finished: bool,
}

/// The timer's invariant: a positive, bounded period, with strictly less
/// than one period accumulated.
pub open spec fn timer_wf(t: SpawnTimer) -> bool {
    &&& 0 < t.period_ms <= PERIOD_LIMIT_MS
    &&& t.elapsed_ms < t.period_ms
}

/// The timer after one tick of `dt` milliseconds: it fires exactly when
/// the accumulated time reaches the period, and keeps the remainder.
pub open spec fn ticked(t: SpawnTimer, dt: u64) -> SpawnTimer {
    if t.elapsed_ms + dt >= t.period_ms {
        SpawnTimer {
            elapsed_ms: ((t.elapsed_ms + dt) % (t.period_ms as int)) as u64,
            period_ms: t.period_ms,
            finished: true,
        }
    } else {
        SpawnTimer { elapsed_ms: (t.elapsed_ms + dt) as u64, period_ms: t.period_ms, finished: false }
    }
}

impl SpawnTimer {
    /// A fresh timer with the given period, not yet started.
    pub fn from_period(period_ms: u64) -> (t: SpawnTimer)
        requires
            0 < period_ms <= PERIOD_LIMIT_MS,
        ensures
            t == (SpawnTimer { elapsed_ms: 0u64, period_ms, finished: false }),
            timer_wf(t),
    {
        SpawnTimer { elapsed_ms: 0, period_ms, finished: false }
    }

    /// Advances the timer by the frame's elapsed time.
    pub fn tick(&mut self, dt_ms: u64)
        requires
            timer_wf(*old(self)),
            dt_ms <= DT_LIMIT_MS,
        ensures
            *final(self) == ticked(*old(self), dt_ms),
            timer_wf(*final(self)),
    {
        let total: u64 = self.elapsed_ms + dt_ms;
        if total >= self.period_ms {
            self.elapsed_ms = total % self.period_ms;
            self.finished = true;
        } else {
            self.elapsed_ms = total;
            self.finished = false;
        }
    }

    /// Whether the last tick crossed a period boundary.
    pub fn finished(&self) -> (b: bool)
        ensures
            b == self.finished,
    {
        self.finished
    }
}

} // verus!
