//! Tick-based timers driving attack cooldowns, attack durations, projectile
//! lifespans and movement segments.
//!
//! A timer accumulates elapsed ticks until it reaches its configured
//! duration. A `Once` timer then stays finished (its elapsed time is clamped
//! to the duration) until it is reset; a `Repeating` timer wraps its elapsed
//! time around and records how many times it completed during the tick.

use vstd::prelude::*;

verus! {

/// Number of ticks in one second of simulated time.
pub const TICKS_PER_SECOND: u64 = 1000;

/// Largest duration (in ticks) a timer may be configured with.
pub const MAX_DURATION: u64 = 1_000_000_000;

/// Largest time step (in ticks) a single `tick` call may advance.
pub const MAX_DELTA: u64 = 1_000_000_000;

#[derive(Clone, Copy, Debug, PartialEq, Eq, Structural)]
pub enum TimerMode {
    /// Runs once, then stays finished until reset.
    Once,
    /// Wraps around each time the duration completes.
    Repeating,
}

/// A countdown over simulated ticks.
#[derive(Clone, Copy, Debug, PartialEq, Eq, Structural)]
pub struct Timer {
    pub duration: u64,
    pub elapsed: u64,
    pub mode: TimerMode,
    pub finished: bool,
    pub times_finished_this_tick: u64,
}

impl Timer {
    /// Well-formedness: the duration is positive and bounded, the elapsed
    /// time never exceeds it, and a `Once` timer is finished exactly when
    /// its elapsed time has been clamped to the duration.
    pub open spec fn wf(self) -> bool {
        &&& 1 <= self.duration <= MAX_DURATION
        &&& self.elapsed <= self.duration
        &&& (self.mode == TimerMode::Once ==> (self.finished <==> self.elapsed == self.duration))
    }

    /// The timer state after advancing by `delta` ticks.
    pub open spec fn spec_tick(self, delta: u64) -> Timer {
        if self.mode == TimerMode::Once && self.finished {
            Timer { times_finished_this_tick: 0, ..self }
        } else {
            let e = self.elapsed + delta;
            if e >= self.duration {
                if self.mode == TimerMode::Repeating {
                    Timer {
                        elapsed: (e % (self.duration as int)) as u64,
                        finished: true,
                        times_finished_this_tick: (e / (self.duration as int)) as u64,
                        ..self
                    }
                } else {
                    Timer {
                        elapsed: self.duration,
                        finished: true,
                        times_finished_this_tick: 1,
                        ..self
                    }
                }
            } else {
                Timer { elapsed: e as u64, finished: false, times_finished_this_tick: 0, ..self }
            }
        }
    }

    /// A fresh, unstarted timer value.
    pub open spec fn spec_new(duration: u64, mode: TimerMode) -> Timer {
        Timer { duration, elapsed: 0, mode, finished: false, times_finished_this_tick: 0 }
    }

    /// A fresh timer with the given duration and mode.
    pub fn new(duration: u64, mode: TimerMode) -> (t: Timer)
        requires
            1 <= duration <= MAX_DURATION,
        ensures
            t == Timer::spec_new(duration, mode),
            t.wf(),
    {
        Timer { duration, elapsed: 0, mode, finished: false, times_finished_this_tick: 0 }
    }

    /// A fresh timer measured in whole seconds.
    pub fn from_seconds(seconds: u64, mode: TimerMode) -> (t: Timer)
        requires
            1 <= seconds,
            seconds * TICKS_PER_SECOND <= MAX_DURATION,
        ensures
            t == Timer::spec_new((seconds * TICKS_PER_SECOND) as u64, mode),
            t.wf(),
    {
        Timer::new(seconds * TICKS_PER_SECOND, mode)
    }

    /// Advance the timer by `delta` ticks.
    pub fn tick(&mut self, delta: u64)
        requires
            old(self).wf(),
            delta <= MAX_DELTA,
        ensures
            *final(self) == old(self).spec_tick(delta),
            final(self).wf(),
    {
        if self.mode == TimerMode::Once && self.finished {
            self.times_finished_this_tick = 0;
            return;
        }
        let e = self.elapsed + delta;
        if e >= self.duration {
            self.finished = true;
            if self.mode == TimerMode::Repeating {
                self.times_finished_this_tick = e / self.duration;
                self.elapsed = e % self.duration;
            } else {
                self.times_finished_this_tick = 1;
                self.elapsed = self.duration;
            }
        } else {
            self.finished = false;
            self.times_finished_this_tick = 0;
            self.elapsed = e;
        }
    }

    /// Whether the duration has completed (for a `Once` timer this stays
    /// true until reset; for a `Repeating` timer it reports the last tick
    /// that wrapped).
    pub fn is_finished(&self) -> (r: bool)
        ensures
            r == self.finished,
    {
        self.finished
    }

    /// Whether the duration completed during the most recent tick.
    pub fn just_finished(&self) -> (r: bool)
        ensures
            r == (self.times_finished_this_tick > 0),
    {
        self.times_finished_this_tick > 0
    }

    /// The timer rewound to the start of its cycle.
    pub open spec fn spec_reset(self) -> Timer {
        Timer { elapsed: 0, finished: false, times_finished_this_tick: 0, ..self }
    }

    /// Rewind the timer to the start of its cycle.
    pub fn reset(&mut self)
        ensures
            *final(self) == old(self).spec_reset(),
            old(self).wf() ==> final(self).wf(),
    {
        self.elapsed = 0;
        self.finished = false;
        self.times_finished_this_tick = 0;
    }
}

/// The timer after a whole sequence of ticks.
pub open spec fn run_ticks(t: Timer, deltas: Seq<u64>) -> Timer
    decreases deltas.len(),
{
    if deltas.len() == 0 {
        t
    } else {
        run_ticks(t.spec_tick(deltas[0]), deltas.skip(1))
    }
}

/// Total time of a sequence of ticks.
pub open spec fn total_ticks(deltas: Seq<u64>) -> int
    decreases deltas.len(),
{
    if deltas.len() == 0 {
        0
    } else {
        deltas[0] + total_ticks(deltas.skip(1))
    }
}

pub proof fn lemma_total_ticks_nonneg(deltas: Seq<u64>)
    ensures
        total_ticks(deltas) >= 0,
    decreases deltas.len(),
{
    if deltas.len() > 0 {
        lemma_total_ticks_nonneg(deltas.skip(1));
    }
}

/// Law: a once-timer finishes exactly when the accumulated time reaches its
/// duration — never before, however the time is split into ticks.
pub proof fn lemma_once_timer_finishes(t: Timer, deltas: Seq<u64>)
    requires
        t.wf(),
        t.mode == TimerMode::Once,
        forall|i: int| 0 <= i < deltas.len() ==> #[trigger] deltas[i] <= MAX_DELTA,
    ensures
        run_ticks(t, deltas).wf(),
        run_ticks(t, deltas).mode == TimerMode::Once,
        run_ticks(t, deltas).duration == t.duration,
        run_ticks(t, deltas).finished <==> t.elapsed + total_ticks(deltas) >= t.duration,
    decreases deltas.len(),
{
    if deltas.len() == 0 {
    } else {
        let t2 = t.spec_tick(deltas[0]);
        assert(forall|i: int|
            0 <= i < deltas.skip(1).len() ==> #[trigger] deltas.skip(1)[i] <= MAX_DELTA);
        lemma_once_timer_finishes(t2, deltas.skip(1));
        lemma_total_ticks_nonneg(deltas.skip(1));
    }
}

} // verus!
