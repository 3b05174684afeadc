//! The exact quantities the engine works with: times, tempi, phase offsets,
//! cycle positions and velocities.

use vstd::prelude::*;

verus! {

/// A time on the shared clock, in whole milliseconds since its origin.
pub type Millis = u32;

/// Number of distinct clock readings; every time lies below it.
pub const CLOCK_RANGE: u128 = 0x1_0000_0000;

/// Largest denominator a phase offset may carry: twice the largest number of
/// samples a tap estimator can hold.
pub const PHASE_DEN_MAX: u128 = 0x2_0000_0000_0000_0000;

/// Largest value of a controller data byte.
pub const DATA_MAX: u8 = 127;

/// Denominator of the product of two velocities.
pub const LEVEL_DEN: u16 = 16129;

/// Turns the milliseconds elapsed since the clock's origin into a clock
/// reading. The clock stands still at its last reading once its range is
/// used up.
pub fn clock_reading(elapsed: u128) -> (now: Millis)
    ensures
        elapsed < CLOCK_RANGE ==> now == elapsed,
        elapsed >= CLOCK_RANGE ==> now == CLOCK_RANGE - 1,
{
    if elapsed < CLOCK_RANGE {
        elapsed as Millis
    } else {
        Millis::MAX
    }
}

/// A tempo: `cycles` beats every `millis` milliseconds, that is
/// `1000 * cycles / millis` hertz.
#[derive(Clone, Copy, Debug, PartialEq, Eq, Structural)]
pub struct Frequency {
    pub cycles: u64,
    pub millis: u32,
}

impl Frequency {
    /// The ratio is defined.
    pub open spec fn valid(self) -> bool {
        self.millis > 0
    }

    /// The tempo is above zero.
    pub open spec fn positive(self) -> bool {
        self.valid() && self.cycles > 0
    }

    pub fn is_valid(&self) -> (ok: bool)
        ensures
            ok == self.valid(),
    {
        self.millis > 0
    }

    /// The tempo of an estimator that has never produced an estimate: no
    /// cycles at all.
    pub fn zero() -> (f: Frequency)
        ensures
            f == (Frequency { cycles: 0, millis: 1 }),
            f.valid(),
    {
        Frequency { cycles: 0, millis: 1 }
    }
}

/// A phase offset of `num / den` milliseconds: the time of a beat's cycle
/// start, relative to the clock origin.
#[derive(Clone, Copy, Debug, PartialEq, Eq, Structural)]
pub struct Phase {
    pub num: i128,
    pub den: u128,
}

impl Phase {
    /// The ratio is defined, its denominator is one an estimator can produce,
    /// and the offset lies within one clock range of the origin.
    pub open spec fn valid(self) -> bool {
        &&& 0 < self.den <= PHASE_DEN_MAX
        &&& -(self.den * CLOCK_RANGE) <= self.num <= self.den * CLOCK_RANGE
    }

    pub fn is_valid(&self) -> (ok: bool)
        ensures
            ok == self.valid(),
    {
        if self.den == 0 || self.den > PHASE_DEN_MAX {
            return false;
        }
        let limit: u128 = self.den * CLOCK_RANGE;
        -(limit as i128) <= self.num && self.num <= limit as i128
    }

    /// The offset of an estimator that has never produced an estimate.
    pub fn zero() -> (p: Phase)
        ensures
            p == (Phase { num: 0, den: 1 }),
            p.valid(),
    {
        Phase { num: 0, den: 1 }
    }
}

/// A position within one cycle: the fraction `num / den`, at least 0 and
/// below 1.
#[derive(Clone, Copy, Debug, PartialEq, Eq, Structural)]
pub struct Position {
    pub num: u128,
    pub den: u128,
}

impl Position {
    /// The fraction lies in `[0, 1)`.
    pub open spec fn valid(self) -> bool {
        self.num < self.den
    }

    /// The position lies in the first half of the cycle, below one half.
    pub open spec fn first_half(self) -> bool {
        2 * self.num < self.den
    }

    pub fn is_first_half(&self) -> (b: bool)
        ensures
            b == self.first_half(),
    {
        self.num < self.den && self.num < self.den - self.num
    }
}

/// A velocity of `raw / 127`, as a controller knob reports it.
#[derive(Clone, Copy, Debug, PartialEq, Eq, Structural)]
pub struct Velocity {
    pub raw: u8,
}

impl Velocity {
    /// The velocity lies in `[0, 1]`.
    pub open spec fn valid(self) -> bool {
        self.raw <= DATA_MAX
    }

    pub fn is_valid(&self) -> (ok: bool)
        ensures
            ok == self.valid(),
    {
        self.raw <= DATA_MAX
    }

    /// Full velocity, 1.
    pub fn full() -> (v: Velocity)
        ensures
            v == (Velocity { raw: DATA_MAX }),
            v.valid(),
    {
        Velocity { raw: DATA_MAX }
    }

    /// The product of two velocities, over the denominator `127 * 127`.
    pub open spec fn scaled(self, master: Velocity) -> Level {
        Level { num: (self.raw * master.raw) as u16 }
    }

    pub fn scale(&self, master: Velocity) -> (l: Level)
        ensures
            l == self.scaled(master),
            l.num == self.raw * master.raw,
            self.valid() && master.valid() ==> l.valid(),
    {
        assert(self.raw * master.raw <= 255 * 255) by (nonlinear_arith)
            requires
                self.raw <= 255,
                master.raw <= 255,
        ;
        assert(self.valid() && master.valid() ==> self.raw * master.raw <= 127 * 127)
            by (nonlinear_arith)
            requires
                self.valid() ==> self.raw <= 127,
                master.valid() ==> master.raw <= 127,
        ;
        Level { num: (self.raw as u16) * (master.raw as u16) }
    }
}

/// A velocity after the master velocity was applied: `num / 16129`.
#[derive(Clone, Copy, Debug, PartialEq, Eq, Structural)]
pub struct Level {
    pub num: u16,
}

impl Level {
    /// The level lies in `[0, 1]`.
    pub open spec fn valid(self) -> bool {
        self.num <= LEVEL_DEN
    }
}

} // verus!
