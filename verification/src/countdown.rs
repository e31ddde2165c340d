//! One-shot timers.

use bevy::time::{Timer, TimerMode};
use std::time::Duration;
use vstd::arithmetic::div_mod::{lemma_div_is_ordered, lemma_div_multiples_vanish};
use vstd::arithmetic::mul::lemma_mul_inequality;
use vstd::prelude::*;

verus! {

/// The value of a fraction that stands for one whole.
pub const WHOLE: u64 = 1_000_000_000;

/// A one-shot timer: it counts nanoseconds up to its duration and then stays
/// finished.
#[derive(Clone, Copy, Debug, PartialEq, Eq, Structural)]
pub struct Countdown {
    pub elapsed: u64,
    pub duration: u64,
    pub finished: bool,
}

/// Advances a fresh, running one-shot `bevy::time::Timer` of the given
/// duration, set to `elapsed`, by `delta` through `Timer::tick`, and reads
/// back `Timer::elapsed` and `Timer::just_finished`.
///
/// The contract restates what `tick` does to a timer in `TimerMode::Once`
/// that is neither paused nor finished: the elapsed time grows by `delta`;
/// once it reaches the duration it is set to the duration and the timer
/// reports that it has just finished.
#[verifier::external_body]
fn tick_once(duration: u64, elapsed: u64, delta: u64) -> (r: (u64, bool))
    ensures
        r.1 == (elapsed + delta >= duration),
        r.0 == if elapsed + delta >= duration { duration as int } else { elapsed + delta },
{
    let mut timer = Timer::new(Duration::from_nanos(duration), TimerMode::Once);
    timer.set_elapsed(Duration::from_nanos(elapsed));
    timer.tick(Duration::from_nanos(delta));
    (timer.elapsed().as_nanos() as u64, timer.just_finished())
}

impl Countdown {
    /// The elapsed time never passes the duration, and a finished timer
    /// stands at its duration.
    pub open spec fn wf(self) -> bool {
        &&& self.elapsed <= self.duration
        &&& self.finished ==> self.elapsed == self.duration
    }

    /// Whether a tick of `delta` finishes the timer.
    pub open spec fn finishes_within(self, delta: u64) -> bool {
        !self.finished && self.elapsed + delta >= self.duration
    }

    /// The timer after a tick of `delta`.
    pub open spec fn ticked(self, delta: u64) -> Countdown {
        if self.finished {
            self
        } else if self.elapsed + delta >= self.duration {
            Countdown { elapsed: self.duration, duration: self.duration, finished: true }
        } else {
            Countdown {
                elapsed: (self.elapsed + delta) as u64,
                duration: self.duration,
                finished: false,
            }
        }
    }

    /// A timer of `duration` nanoseconds that has not started.
    pub fn new(duration: u64) -> (c: Countdown)
        ensures
            c == (Countdown { elapsed: 0, duration, finished: false }),
            c.wf(),
    {
        Countdown { elapsed: 0, duration, finished: false }
    }

    /// Advances the timer by `delta` nanoseconds and tells whether this tick
    /// finished it. A finished timer no longer moves.
    pub fn tick(&mut self, delta: u64) -> (just_finished: bool)
        ensures
            *final(self) == old(self).ticked(delta),
            just_finished == old(self).finishes_within(delta),
            just_finished ==> final(self).elapsed == final(self).duration,
            !old(self).finished && !just_finished ==> final(self).elapsed == old(self).elapsed
                + delta,
            final(self).duration == old(self).duration,
            old(self).wf() ==> final(self).wf(),
    {
        if self.finished {
            return false;
        }
        let (elapsed, just_finished) = tick_once(self.duration, self.elapsed, delta);
        self.elapsed = elapsed;
        self.finished = just_finished;
        just_finished
    }

    /// The part of the duration that has elapsed, in billionths: the elapsed
    /// time times `WHOLE` over the duration, rounded down. A timer of no
    /// duration counts as wholly elapsed.
    pub open spec fn spec_percent(self) -> int {
        if self.duration == 0 || self.elapsed >= self.duration {
            WHOLE as int
        } else {
            (self.elapsed * WHOLE) / (self.duration as int)
        }
    }

    /// The part of the duration that is left, in billionths: what
    /// `spec_percent` lacks of one whole.
    pub open spec fn spec_percent_left(self) -> int {
        WHOLE - self.spec_percent()
    }

    /// The time still to run: the duration less the elapsed time, and nothing
    /// once that is passed.
    pub open spec fn spec_remaining(self) -> int {
        if self.elapsed >= self.duration {
            0
        } else {
            self.duration - self.elapsed
        }
    }

    /// Whether the timer has finished.
    pub fn finished(&self) -> (f: bool)
        ensures
            f == self.finished,
    {
        self.finished
    }

    /// The nanoseconds still to run.
    pub fn remaining(&self) -> (r: u64)
        ensures
            r == self.spec_remaining(),
    {
        self.duration.saturating_sub(self.elapsed)
    }

    /// The elapsed part of the duration, in billionths.
    pub fn percent(&self) -> (p: u64)
        ensures
            p == self.spec_percent(),
            p <= WHOLE,
    {
        if self.duration == 0 || self.elapsed >= self.duration {
            return WHOLE;
        }
        let product: u128 = self.elapsed as u128 * WHOLE as u128;
        let quotient: u128 = product / self.duration as u128;
        proof {
            lemma_mul_inequality(self.elapsed as int, self.duration as int, WHOLE as int);
            lemma_div_is_ordered(
                self.elapsed * WHOLE,
                self.duration * WHOLE,
                self.duration as int,
            );
            lemma_div_multiples_vanish(WHOLE as int, self.duration as int);
            assert(self.duration * WHOLE == WHOLE * self.duration) by (nonlinear_arith);
        }
        quotient as u64
    }

    /// The part of the duration that is left, in billionths.
    pub fn percent_left(&self) -> (p: u64)
        ensures
            p == self.spec_percent_left(),
            p <= WHOLE,
    {
        WHOLE - self.percent()
    }
}

/// While a timer runs, the part that is left never grows from one tick to the
/// next, and the tick that finishes the timer leaves nothing.
pub proof fn lemma_percent_left_never_grows(c: Countdown, delta: u64)
    requires
        c.wf(),
    ensures
        c.ticked(delta).spec_percent_left() <= c.spec_percent_left(),
        0 <= c.ticked(delta).spec_percent_left(),
        c.finishes_within(delta) ==> c.ticked(delta).spec_percent_left() == 0,
        c.finishes_within(delta) ==> c.ticked(delta).spec_remaining() == 0,
        c.ticked(delta).spec_remaining() <= c.spec_remaining(),
{
    let t = c.ticked(delta);
    if c.duration > 0 && !c.finished && c.elapsed < c.duration {
        lemma_mul_inequality(c.elapsed as int, c.duration as int, WHOLE as int);
        lemma_div_is_ordered(c.elapsed * WHOLE, c.duration * WHOLE, c.duration as int);
        lemma_div_multiples_vanish(WHOLE as int, c.duration as int);
        assert(c.duration * WHOLE == WHOLE * c.duration) by (nonlinear_arith);
        if c.elapsed + delta < c.duration {
            lemma_mul_inequality(c.elapsed as int, t.elapsed as int, WHOLE as int);
            lemma_div_is_ordered(c.elapsed * WHOLE, t.elapsed * WHOLE, c.duration as int);
            lemma_mul_inequality(t.elapsed as int, c.duration as int, WHOLE as int);
            lemma_div_is_ordered(t.elapsed * WHOLE, c.duration * WHOLE, c.duration as int);
        }
    }
}

} // verus!
