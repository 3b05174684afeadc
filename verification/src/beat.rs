//! The oscillator of one beat.

use vstd::prelude::*;
use vstd::arithmetic::div_mod::{lemma_mod_bound, lemma_mul_mod_noop_left};
use crate::arith::{floor_mod, mul_mod};
use crate::tempo::{Frequency, Millis, Phase, Position, Velocity, CLOCK_RANGE, PHASE_DEN_MAX};

verus! {

/// One beat as an actor knows it: its tempo, the offset of its cycle start,
/// and its velocity.
#[derive(Clone, Copy, Debug, PartialEq, Eq, Structural)]
pub struct Beat {
    pub frequency: Frequency,
    pub phase: Phase,
    pub velocity: Velocity,
}

impl Beat {
    pub open spec fn valid(self) -> bool {
        &&& self.frequency.valid()
        &&& self.phase.valid()
        &&& self.velocity.valid()
    }

    /// Denominator shared by every cycle position of this beat.
    pub open spec fn cycle_den(self) -> int {
        self.phase.den * self.frequency.millis
    }

    /// Cycles run since the phase offset, over `cycle_den`: the product
    /// `(now - phase) * frequency` with both ratios multiplied out. It is
    /// negative for a time before the offset.
    pub open spec fn turns_num(self, now: int) -> int {
        (now * self.phase.den - self.phase.num) * self.frequency.cycles
    }

    /// Where the beat stands in its cycle at `now`: the fractional part of
    /// the cycles run since the phase offset, taken downwards so that it
    /// lies in `[0, 1)` before the offset too.
    pub open spec fn position(self, now: int) -> Position {
        Position {
            num: (self.turns_num(now) % self.cycle_den()) as u128,
            den: self.cycle_den() as u128,
        }
    }

    /// A beat before any update reached it: one hertz, offset by one second,
    /// at full velocity.
    pub open spec fn new_spec() -> Beat {
        Beat {
            frequency: Frequency { cycles: 1, millis: 1000 },
            phase: Phase { num: 1000, den: 1 },
            velocity: Velocity { raw: 127 },
        }
    }

    #[verifier::when_used_as_spec(new_spec)]
    pub fn new() -> (b: Beat)
        ensures
            b == Beat::new_spec(),
            b.valid(),
    {
        Beat {
            frequency: Frequency { cycles: 1, millis: 1000 },
            phase: Phase { num: 1000, den: 1 },
            velocity: Velocity { raw: 127 },
        }
    }

    /// The position in the cycle at time `now`.
    pub fn eval(&self, now: Millis) -> (r: Position)
        requires
            self.frequency.valid(),
            self.phase.valid(),
        ensures
            r == self.position(now as int),
            r.den == self.cycle_den(),
            r.num == self.turns_num(now as int) % self.cycle_den(),
            r.valid(),
    {
        let den: u128 = self.phase.den;
        let millis: u128 = self.frequency.millis as u128;
        assert(0 < den * millis <= PHASE_DEN_MAX * CLOCK_RANGE) by (nonlinear_arith)
            requires
                0 < den <= PHASE_DEN_MAX,
                0 < millis < CLOCK_RANGE,
        ;
        assert(0 <= now * den <= PHASE_DEN_MAX * CLOCK_RANGE) by (nonlinear_arith)
            requires
                0 < den <= PHASE_DEN_MAX,
                0 <= now < CLOCK_RANGE,
        ;
        assert(den * CLOCK_RANGE <= PHASE_DEN_MAX * CLOCK_RANGE) by (nonlinear_arith)
            requires
                0 < den <= PHASE_DEN_MAX,
        ;
        let modulus: u128 = den * millis;
        let elapsed: i128 = (now as i128) * (den as i128) - self.phase.num;
        let within: u128 = floor_mod(elapsed, modulus);
        proof {
            lemma_mod_bound(elapsed as int, modulus as int);
            lemma_mul_mod_noop_left(elapsed as int, self.frequency.cycles as int, modulus as int);
            lemma_mod_bound(self.turns_num(now as int), modulus as int);
        }
        let num: u128 = mul_mod(within, self.frequency.cycles, modulus);
        Position { num, den: modulus }
    }
}

/// A cycle position is a fraction in `[0, 1)` at every time, before the
/// phase offset as well as after it, and before the clock's origin too.
pub proof fn lemma_position_in_unit_interval(beat: Beat, now: int)
    requires
        beat.frequency.valid(),
        beat.phase.valid(),
    ensures
        0 <= beat.turns_num(now) % beat.cycle_den() < beat.cycle_den(),
        beat.position(now).num == beat.turns_num(now) % beat.cycle_den(),
        beat.position(now).den == beat.cycle_den(),
        beat.position(now).valid(),
{
    let den = beat.phase.den as int;
    let millis = beat.frequency.millis as int;
    assert(0 < den * millis <= PHASE_DEN_MAX * CLOCK_RANGE) by (nonlinear_arith)
        requires
            0 < den <= PHASE_DEN_MAX,
            0 < millis < CLOCK_RANGE,
    ;
    lemma_mod_bound(beat.turns_num(now), beat.cycle_den());
}

} // verus!
