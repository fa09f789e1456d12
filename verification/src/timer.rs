//! The per-character repeating frame timer.

use vstd::prelude::*;

verus! {

/// Default time one animation frame stays on screen, in microseconds
/// (ten frames per second).
pub const DEFAULT_ANIMATION_FRAME_TIME: u64 = 100000;

/// A repeating countdown driving frame advancement: it accumulates the
/// per-tick delta time and signals once each time a full `duration` has
/// elapsed, carrying any remainder into the next period.
///
/// Times are in microseconds.  Well-formed timers keep `elapsed` strictly
/// below `duration`; every operation here preserves that.
#[derive(Clone, Copy, Debug, PartialEq, Eq, Structural)]
pub struct AnimationTimer {
    /// Length of one period, in microseconds; always at least 1.
    pub duration: u64,
    /// Time accumulated inside the current period, in microseconds.
    pub elapsed: u64,
}

impl AnimationTimer {
    /// Well-formedness: a positive period, and an accumulator that has
    /// not yet reached it.
    pub open spec fn wf(self) -> bool {
        &&& self.duration >= 1
        &&& self.elapsed < self.duration
    }

    /// The timer after `delta` microseconds: the accumulator advances and
    /// wraps modulo the period.
    pub open spec fn spec_tick(self, delta: u64) -> AnimationTimer {
        AnimationTimer {
            duration: self.duration,
            elapsed: (((self.elapsed + delta) as int) % (self.duration as int)) as u64,
        }
    }

    /// Whether advancing by `delta` microseconds completes the current
    /// period (the "just elapsed" signal of a tick).
    pub open spec fn spec_finishes(self, delta: u64) -> bool {
        self.elapsed + delta >= self.duration
    }

    /// A fresh timer with the given period and an empty accumulator.
    pub fn new(duration: u64) -> (r: AnimationTimer)
        requires
            duration >= 1,
        ensures
            r == (AnimationTimer { duration, elapsed: 0 }),
            r.wf(),
    {
        AnimationTimer { duration, elapsed: 0 }
    }

    /// Advance the timer by `delta` microseconds and report whether it
    /// elapsed this tick.  On an elapse the accumulator wraps, keeping
    /// the remainder, so playback speed is independent of tick phase.
    pub fn tick(&mut self, delta: u64) -> (finished: bool)
        requires
            old(self).wf(),
            old(self).elapsed + delta <= u64::MAX,
        ensures
            *final(self) == old(self).spec_tick(delta),
            finished == old(self).spec_finishes(delta),
            final(self).wf(),
    {
        let total = self.elapsed + delta;
        if total >= self.duration {
            self.elapsed = total % self.duration;
            true
        } else {
            proof {
                vstd::arithmetic::div_mod::lemma_small_mod(total as nat, self.duration as nat);
            }
            self.elapsed = total;
            false
        }
    }

    /// Zero the accumulator, keeping the period.
    pub fn reset(&mut self)
        ensures
            *final(self) == (AnimationTimer { duration: old(self).duration, elapsed: 0 }),
    {
        self.elapsed = 0;
    }

    /// Start a fresh period of the given length with an empty
    /// accumulator, as a detected transition demands.
    pub fn restart(&mut self, duration: u64)
        requires
            duration >= 1,
        ensures
            *final(self) == (AnimationTimer { duration, elapsed: 0 }),
            final(self).wf(),
    {
        self.duration = duration;
        self.elapsed = 0;
    }
}

impl Default for AnimationTimer {
    /// A timer over the default frame time, ready to accumulate.
    fn default() -> (r: AnimationTimer)
        ensures
            r == (AnimationTimer { duration: DEFAULT_ANIMATION_FRAME_TIME, elapsed: 0 }),
            r.wf(),
    {
        AnimationTimer { duration: DEFAULT_ANIMATION_FRAME_TIME, elapsed: 0 }
    }
}

} // verus!
