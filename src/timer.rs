use vstd::prelude::*;
use vstd::arithmetic::div_mod::{lemma_mod_add_multiples_vanish, lemma_small_mod};

verus! {

/// Nanoseconds in a second.
pub const NANOS_PER_SECOND: u64 = 1_000_000_000;

/// Simulation ticks per second.
pub const REFRESH_RATE: u64 = 7;

/// How long the splash screen shows, in nanoseconds.
pub const SPLASH_SCREEN_DURATION: u64 = 1_000_000_000;

/// How long the results screen shows, in nanoseconds.
pub const RESULTS_SCREEN_DURATION: u64 = 2_000_000_000;

/// A repeating timer that gates the simulation: it fires once each time the
/// time handed to it crosses a whole period, keeping the remainder.
#[derive(Clone, Copy, Debug, PartialEq, Eq, Structural)]
pub struct GameTimer {
    pub period: u64,
    pub elapsed: u64,
}

impl GameTimer {
    pub open spec fn wf(self) -> bool {
        0 < self.period && self.elapsed < self.period
    }

    pub fn new(period: u64) -> (t: GameTimer)
        requires
            period > 0,
        ensures
            t.wf(),
            t.period == period,
            t.elapsed == 0,
    {
        GameTimer { period, elapsed: 0 }
    }

    /// A timer that fires `rate` times a second.
    pub fn from_rate(rate: u64) -> (t: GameTimer)
        requires
            0 < rate <= NANOS_PER_SECOND,
        ensures
            t.wf(),
            t.period == NANOS_PER_SECOND / rate,
            t.elapsed == 0,
    {
        assert(NANOS_PER_SECOND / rate >= 1) by (nonlinear_arith)
            requires
                0 < rate <= NANOS_PER_SECOND,
        ;
        GameTimer::new(NANOS_PER_SECOND / rate)
    }

    /// Add `delta` nanoseconds; returns whether a period was crossed. However
    /// many periods were crossed, it fires once.
    pub fn tick(&mut self, delta: u64) -> (fired: bool)
        requires
            old(self).wf(),
        ensures
            final(self).wf(),
            final(self).period == old(self).period,
            fired == (old(self).elapsed + delta >= old(self).period),
            final(self).elapsed == (old(self).elapsed + delta) % (old(self).period as int),
    {
        let left = self.period - self.elapsed;
        if delta >= left {
            let rest = delta - left;
            proof {
                lemma_mod_add_multiples_vanish(rest as int, self.period as int);
            }
            self.elapsed = rest % self.period;
            true
        } else {
            proof {
                lemma_small_mod((self.elapsed + delta) as nat, self.period as nat);
            }
            self.elapsed = self.elapsed + delta;
            false
        }
    }

    /// Start the current period over.
    pub fn reset(&mut self)
        requires
            old(self).wf(),
        ensures
            final(self).wf(),
            final(self).period == old(self).period,
            final(self).elapsed == 0,
    {
        self.elapsed = 0;
    }
}

/// A one-shot timer: once `duration` nanoseconds have been handed to it, it
/// stays finished.
#[derive(Clone, Copy, Debug, PartialEq, Eq, Structural)]
pub struct Countdown {
    pub duration: u64,
    pub elapsed: u64,
}

impl Countdown {
    pub open spec fn wf(self) -> bool {
        self.elapsed <= self.duration
    }

    pub open spec fn new_spec(duration: u64) -> Countdown {
        Countdown { duration, elapsed: 0 }
    }

    pub open spec fn is_finished(self) -> bool {
        self.elapsed >= self.duration
    }

    pub fn new(duration: u64) -> (c: Countdown)
        ensures
            c.wf(),
            c.duration == duration,
            c.elapsed == 0,
    {
        Countdown { duration, elapsed: 0 }
    }

    /// Add `delta` nanoseconds; returns whether the countdown has run out.
    pub fn tick(&mut self, delta: u64) -> (finished: bool)
        requires
            old(self).wf(),
        ensures
            final(self).wf(),
            final(self).duration == old(self).duration,
            final(self).elapsed == if old(self).elapsed + delta >= old(self).duration {
                old(self).duration as int
            } else {
                old(self).elapsed + delta
            },
            finished == final(self).is_finished(),
            finished == (old(self).elapsed + delta >= old(self).duration),
    {
        if delta >= self.duration - self.elapsed {
            self.elapsed = self.duration;
        } else {
            self.elapsed = self.elapsed + delta;
        }
        self.elapsed >= self.duration
    }

    pub fn finished(&self) -> (r: bool)
        ensures
            r == self.is_finished(),
    {
        self.elapsed >= self.duration
    }

    pub fn reset(&mut self)
        ensures
            final(self).wf(),
            final(self).duration == old(self).duration,
            final(self).elapsed == 0,
    {
        self.elapsed = 0;
    }
}

} // verus!
