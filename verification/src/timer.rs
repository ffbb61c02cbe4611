//! Elapsed-time accumulators.
//!
//! A [`Timer`] counts milliseconds up to a fixed duration, clamps there, and
//! raises an edge flag on exactly the tick that first reaches the duration.
//! The update driver runs one timer for the start delay and one for the
//! animation itself.

use vstd::prelude::*;

verus! {

/// A one-shot countdown: accumulates elapsed time up to `duration` and
/// reports the completing tick through `just_finished`.
#[derive(Clone, Copy, Debug, PartialEq, Eq, Structural)]
pub struct Timer {
    /// The full runtime, in milliseconds.
    pub duration: u64,
    /// Time accumulated so far, clamped to `duration`.
    pub elapsed: u64,
    /// Whether the timer has reached its duration.
    pub finished: bool,
    /// Whether the timer reached its duration on the latest tick.
    pub just_finished: bool,
}

impl Timer {
    /// The timer's internal invariant.
    pub open spec fn wf(self) -> bool {
        self.elapsed <= self.duration
        && (self.finished ==> self.elapsed == self.duration)
        && (self.just_finished ==> self.finished)
    }

    /// The state after one tick of `dt` milliseconds: a finished timer only
    /// drops its edge flag; a running one accumulates, clamps, and raises
    /// the edge flag on the tick that first reaches the duration.
    pub open spec fn ticked(self, dt: u64) -> Timer {
        if self.finished {
            Timer { just_finished: false, ..self }
        } else if self.elapsed + dt >= self.duration {
            Timer { elapsed: self.duration, finished: true, just_finished: true, ..self }
        } else {
            Timer { elapsed: (self.elapsed + dt) as u64, finished: false, just_finished: false, ..self }
        }
    }

    /// A fresh timer for `duration` milliseconds.
    pub fn new(duration: u64) -> (t: Timer)
        ensures
            t == (Timer { duration, elapsed: 0, finished: false, just_finished: false }),
            t.wf(),
    {
        Timer { duration, elapsed: 0, finished: false, just_finished: false }
    }

    /// Advances the timer by `dt` milliseconds.
    pub fn tick(&mut self, dt: u64)
        requires
            old(self).wf(),
        ensures
            *final(self) == old(self).ticked(dt),
            final(self).wf(),
    {
        if self.finished {
            self.just_finished = false;
        } else if dt >= self.duration - self.elapsed {
            self.elapsed = self.duration;
            self.finished = true;
            self.just_finished = true;
        } else {
            self.elapsed = self.elapsed + dt;
            self.just_finished = false;
        }
    }

    /// Rewinds to the start, keeping the duration.
    pub fn reset(&mut self)
        ensures
            *final(self) == (Timer {
                duration: old(self).duration,
                elapsed: 0,
                finished: false,
                just_finished: false,
            }),
            final(self).wf(),
    {
        self.elapsed = 0;
        self.finished = false;
        self.just_finished = false;
    }
}

} // verus!
