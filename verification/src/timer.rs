//! Repeating tick timers, in whole milliseconds.
//!
//! A timer accumulates elapsed time and fires whenever at least one full
//! period has passed, keeping the remainder, so a long frame still fires
//! the timer exactly once.

use vstd::prelude::*;

verus! {

/// The automatic descent fires once a second.
pub const FALL_TIMER_TICK_MS: u64 = 1000;

/// Held movement keys repeat every 50 milliseconds.
pub const MOVE_MINO_TIMER_TICK_MS: u64 = 50;

/// A repeating timer: fires when the accumulated time reaches the period
/// and carries the remainder over.
#[derive(Clone, Copy, Debug, PartialEq, Eq, Structural)]
pub struct TickTimer {
    pub period_ms: u64,
    pub elapsed_ms: u64,
}

impl TickTimer {
    /// Well-formed: a positive period, with the accumulator inside it.
    pub open spec fn wf(self) -> bool {
        self.period_ms >= 1 && self.elapsed_ms < self.period_ms
    }

    /// Whether adding `delta_ms` makes the timer fire.
    pub open spec fn spec_fires(self, delta_ms: u64) -> bool {
        self.elapsed_ms + delta_ms >= self.period_ms
    }

    /// The accumulator after adding `delta_ms`.
    pub open spec fn spec_elapsed_after(self, delta_ms: u64) -> int {
        (self.elapsed_ms + delta_ms) % (self.period_ms as int)
    }

    /// A fresh timer with the given period.
    pub fn new(period_ms: u64) -> (t: TickTimer)
        requires
            period_ms >= 1,
        ensures
            t.wf(),
            t.period_ms == period_ms,
            t.elapsed_ms == 0,
    {
        TickTimer { period_ms, elapsed_ms: 0 }
    }

    /// Advance the timer by `delta_ms`; report whether it fired.
    pub fn tick(&mut self, delta_ms: u64) -> (fired: bool)
        requires
            old(self).wf(),
        ensures
            final(self).wf(),
            final(self).period_ms == old(self).period_ms,
            final(self).elapsed_ms == old(self).spec_elapsed_after(delta_ms),
            fired == old(self).spec_fires(delta_ms),
    {
        let total: u128 = self.elapsed_ms as u128 + delta_ms as u128;
        let period: u128 = self.period_ms as u128;
        let fired = total >= period;
        self.elapsed_ms = (total % period) as u64;
        fired
    }
}

/// The timer gating automatic descent of the falling tetramino.
#[derive(Clone, Copy, Debug, PartialEq, Eq, Structural)]
pub struct FallTetraminosTimer {
    pub timer: TickTimer,
}

impl Default for FallTetraminosTimer {
    /// A fall timer at the standard one-second period.
    fn default() -> (t: Self)
        ensures
            t.timer.wf(),
            t.timer.period_ms == FALL_TIMER_TICK_MS,
            t.timer.elapsed_ms == 0,
    {
        FallTetraminosTimer { timer: TickTimer::new(FALL_TIMER_TICK_MS) }
    }
}

/// The timer gating how often held movement keys are applied.
#[derive(Clone, Copy, Debug, PartialEq, Eq, Structural)]
pub struct MoveMinoTimer {
    pub timer: TickTimer,
}

impl Default for MoveMinoTimer {
    /// A move timer at the standard key-repeat period.
    fn default() -> (t: Self)
        ensures
            t.timer.wf(),
            t.timer.period_ms == MOVE_MINO_TIMER_TICK_MS,
            t.timer.elapsed_ms == 0,
    {
        MoveMinoTimer { timer: TickTimer::new(MOVE_MINO_TIMER_TICK_MS) }
    }
}

} // verus!
