//! The tap-tempo estimator: from the times of a run of taps to a tempo and
//! a phase offset.
//!
//! The period is fitted to the whole run: the span from the first tap to
//! the last, divided by the number of intervals between them. The phase
//! offset is the mean distance of the taps from the grid of that period. A
//! run whose last tap is not later than its first has no period; it yields
//! no estimate, and the estimator keeps what it had.

use vstd::prelude::*;
use vstd::arithmetic::div_mod::lemma_fundamental_div_mod_converse;
use crate::beat::{lemma_position_in_unit_interval, Beat};
use crate::tempo::{Frequency, Millis, Phase, CLOCK_RANGE, PHASE_DEN_MAX};

verus! {

/// Sum of all samples.
pub open spec fn total(samples: Seq<Millis>) -> int
    decreases samples.len(),
{
    if samples.len() == 0 {
        0
    } else {
        total(samples.drop_last()) + samples.last()
    }
}

/// Time from the first sample to the last.
pub open spec fn span(samples: Seq<Millis>) -> int {
    samples.last() - samples.first()
}

/// The samples determine a period: there are at least two, and the last is
/// later than the first.
pub open spec fn estimable(samples: Seq<Millis>) -> bool {
    samples.len() >= 2 && span(samples) > 0
}

/// The fitted tempo: one cycle per interval between taps, over the span,
/// so that the period is `span / (len - 1)`.
pub open spec fn fitted_frequency(samples: Seq<Millis>) -> Frequency {
    Frequency { cycles: (samples.len() - 1) as u64, millis: span(samples) as u32 }
}

/// The fitted phase offset, `total / len - span / 2` as one ratio. It is
/// the mean residual of the samples against the grid of the fitted period
/// (`lemma_phase_is_mean_residual`).
pub open spec fn fitted_phase(samples: Seq<Millis>) -> Phase {
    Phase {
        num: (2 * total(samples) - samples.len() * span(samples)) as i128,
        den: (2 * samples.len()) as u128,
    }
}

/// Sum over the first `upto` samples of the residual `sample[i] - i * period`,
/// scaled by `len - 1` to clear the period's denominator:
/// `(len - 1) * sample[i] - i * span`.
pub open spec fn residuals(samples: Seq<Millis>, upto: nat) -> int
    decreases upto,
{
    if upto == 0 {
        0
    } else {
        let i = (upto - 1) as int;
        residuals(samples, (upto - 1) as nat) + (samples.len() - 1) * samples[i] - i * span(
            samples,
        )
    }
}

/// What an estimator holds: the taps since the last reset, and the last
/// estimate made.
pub struct TapTempoView {
    pub samples: Seq<Millis>,
    pub frequency: Frequency,
    pub phase: Phase,
}

impl TapTempoView {
    pub open spec fn valid(self) -> bool {
        self.frequency.valid() && self.phase.valid()
    }

    /// An estimator that has not seen a tap: no samples, zero tempo, zero
    /// offset.
    pub open spec fn idle() -> TapTempoView {
        TapTempoView {
            samples: Seq::empty(),
            frequency: Frequency { cycles: 0, millis: 1 },
            phase: Phase { num: 0, den: 1 },
        }
    }

    /// With one more sample at the end.
    pub open spec fn with_sample(self, value: Millis) -> TapTempoView {
        TapTempoView { samples: self.samples.push(value), ..self }
    }

    /// Without samples; the estimate stays.
    pub open spec fn cleared(self) -> TapTempoView {
        TapTempoView { samples: Seq::empty(), ..self }
    }

    /// With the estimate brought up to date: fitted to the samples where
    /// they determine a period, and left as it is where they do not.
    pub open spec fn estimated(self) -> TapTempoView {
        if estimable(self.samples) {
            TapTempoView {
                frequency: fitted_frequency(self.samples),
                phase: fitted_phase(self.samples),
                ..self
            }
        } else {
            self
        }
    }
}

/// The tap-tempo estimator of one beat.
pub struct TapTempo {
    frequency: Frequency,
    phase: Phase,
    accum: Vec<Millis>,
}

impl View for TapTempo {
    type V = TapTempoView;

    closed spec fn view(&self) -> TapTempoView {
        TapTempoView { samples: self.accum@, frequency: self.frequency, phase: self.phase }
    }
}

impl TapTempo {
    /// An estimator without samples, at zero tempo and zero offset.
    pub fn new() -> (t: TapTempo)
        ensures
            t@ == TapTempoView::idle(),
            t@.valid(),
    {
        TapTempo { frequency: Frequency::zero(), phase: Phase::zero(), accum: Vec::new() }
    }

    /// The last estimate of the tempo.
    pub fn frequency(&self) -> (f: Frequency)
        ensures
            f == self@.frequency,
    {
        self.frequency
    }

    /// The last estimate of the phase offset.
    pub fn phase(&self) -> (p: Phase)
        ensures
            p == self@.phase,
    {
        self.phase
    }

    pub fn sample_count(&self) -> (n: usize)
        ensures
            n == self@.samples.len(),
    {
        self.accum.len()
    }

    /// Forgets the samples. The estimate stays until the next one is made.
    pub fn reset(&mut self)
        ensures
            final(self)@ == old(self)@.cleared(),
    {
        self.accum.clear();
    }

    /// Records a tap at time `value`, whatever the samples before it.
    pub fn add_sample(&mut self, value: Millis)
        ensures
            final(self)@ == old(self)@.with_sample(value),
    {
        self.accum.push(value);
    }

    /// Brings the estimate up to date with the samples.
    pub fn estimate(&mut self)
        ensures
            final(self)@ == old(self)@.estimated(),
            !estimable(old(self)@.samples) ==> final(self)@ == old(self)@,
            estimable(old(self)@.samples) ==> {
                let samples = old(self)@.samples;
                &&& final(self)@.frequency.cycles == samples.len() - 1
                &&& final(self)@.frequency.millis == span(samples)
                &&& final(self)@.phase.num == 2 * total(samples) - samples.len() * span(samples)
                &&& final(self)@.phase.den == 2 * samples.len()
                &&& final(self)@.frequency.positive()
                &&& final(self)@.phase.valid()
            },
            old(self)@.valid() ==> final(self)@.valid(),
    {
        let count: usize = self.accum.len();
        if count < 2 {
            return ;
        }
        let first: Millis = self.accum[0];
        let last: Millis = self.accum[count - 1];
        if last <= first {
            return ;
        }
        let mut sum: u128 = 0;
        let mut i: usize = 0;
        while i < count
            invariant
                i <= count,
                count == self.accum.len(),
                sum == total(self.accum@.take(i as int)),
                sum <= i * (CLOCK_RANGE - 1),
            decreases count - i,
        {
            proof {
                assert(self.accum@.take(i + 1).drop_last() =~= self.accum@.take(i as int));
                assert((i + 1) * (CLOCK_RANGE - 1) == i * (CLOCK_RANGE - 1) + (CLOCK_RANGE - 1))
                    by (nonlinear_arith);
                assert(i * (CLOCK_RANGE - 1) <= 0xffff_ffff_ffff_ffff * (CLOCK_RANGE - 1))
                    by (nonlinear_arith)
                    requires
                        i <= 0xffff_ffff_ffff_ffff,
                ;
            }
            sum = sum + self.accum[i] as u128;
            i = i + 1;
        }
        proof {
            assert(self.accum@.take(count as int) =~= self.accum@);
            lemma_fitted_valid(self.accum@);
        }
        let width: u32 = last - first;
        assert(count * width <= 0xffff_ffff_ffff_ffff * CLOCK_RANGE) by (nonlinear_arith)
            requires
                count <= 0xffff_ffff_ffff_ffff,
                width < CLOCK_RANGE,
        ;
        assert(sum <= 0xffff_ffff_ffff_ffff * CLOCK_RANGE) by (nonlinear_arith)
            requires
                sum <= count * (CLOCK_RANGE - 1),
                count <= 0xffff_ffff_ffff_ffff,
        ;
        let num: i128 = 2 * (sum as i128) - (count as i128) * (width as i128);
        self.frequency = Frequency { cycles: (count - 1) as u64, millis: width };
        self.phase = Phase { num, den: 2 * (count as u128) };
    }
}

/// Records a tap at time `now` and brings the estimate up to date.
pub fn tap(tapper: &mut TapTempo, now: Millis)
    ensures
        final(tapper)@ == old(tapper)@.with_sample(now).estimated(),
        old(tapper)@.valid() ==> final(tapper)@.valid(),
{
    tapper.add_sample(now);
    tapper.estimate();
}

/// The sum of samples is at most their number times the largest time.
proof fn lemma_total_bounds(samples: Seq<Millis>)
    ensures
        0 <= total(samples) <= samples.len() * (CLOCK_RANGE - 1),
    decreases samples.len(),
{
    if samples.len() > 0 {
        lemma_total_bounds(samples.drop_last());
        assert(samples.len() * (CLOCK_RANGE - 1) == (samples.len() - 1) * (CLOCK_RANGE - 1) + (
        CLOCK_RANGE - 1)) by (nonlinear_arith);
    }
}

/// A fitted estimate is a positive tempo and a phase offset within the
/// clock's range, and nothing of it is lost in the fields that hold it.
pub proof fn lemma_fitted_valid(samples: Seq<Millis>)
    requires
        estimable(samples),
        samples.len() <= usize::MAX,
    ensures
        fitted_frequency(samples).positive(),
        fitted_frequency(samples).cycles == samples.len() - 1,
        fitted_frequency(samples).millis == span(samples),
        fitted_phase(samples).valid(),
        fitted_phase(samples).num == 2 * total(samples) - samples.len() * span(samples),
        fitted_phase(samples).den == 2 * samples.len(),
{
    let n = samples.len() as int;
    let s = total(samples);
    let w = span(samples);
    lemma_total_bounds(samples);
    assert(n <= 0xffff_ffff_ffff_ffff);
    assert(0 < w < CLOCK_RANGE);
    assert(0 <= n * w <= n * CLOCK_RANGE) by (nonlinear_arith)
        requires
            0 < n,
            0 < w < CLOCK_RANGE,
    ;
    assert(n * (CLOCK_RANGE - 1) <= n * CLOCK_RANGE) by (nonlinear_arith)
        requires
            0 < n,
    ;
    assert(n * CLOCK_RANGE <= 0xffff_ffff_ffff_ffff * CLOCK_RANGE) by (nonlinear_arith)
        requires
            n <= 0xffff_ffff_ffff_ffff,
    ;
    assert((2 * n) * CLOCK_RANGE == 2 * (n * CLOCK_RANGE)) by (nonlinear_arith);
}

/// Twice the scaled residuals of the first `upto` samples, in closed form.
proof fn lemma_residuals_prefix(samples: Seq<Millis>, upto: nat)
    requires
        upto <= samples.len(),
    ensures
        2 * residuals(samples, upto) == 2 * (samples.len() - 1) * total(
            samples.take(upto as int),
        ) - span(samples) * (upto * (upto - 1)),
    decreases upto,
{
    let n = samples.len() as int;
    let w = span(samples);
    if upto == 0 {
        assert(samples.take(0) =~= Seq::<Millis>::empty());
        assert(w * (0 * (0 - 1)) == 0) by (nonlinear_arith);
        assert(2 * (n - 1) * 0 == 0);
    } else {
        let k = upto as int;
        lemma_residuals_prefix(samples, (upto - 1) as nat);
        assert(samples.take(k).drop_last() =~= samples.take(k - 1));
        let before = total(samples.take(k - 1));
        let x = samples[k - 1] as int;
        let r0 = residuals(samples, (upto - 1) as nat);
        let r1 = residuals(samples, upto);
        assert(total(samples.take(k)) == before + x);
        assert(r1 == r0 + (n - 1) * x - (k - 1) * w);
        assert(2 * r1 == 2 * (n - 1) * (before + x) - w * (k * (k - 1))) by (nonlinear_arith)
            requires
                r1 == r0 + (n - 1) * x - (k - 1) * w,
                2 * r0 == 2 * (n - 1) * before - w * ((k - 1) * (k - 1 - 1)),
        ;
    }
}

/// The fitted phase offset is the mean residual of the samples against the
/// grid of the fitted period: with `period = span / (len - 1)`, it equals
/// the sum of `sample[i] - i * period` divided by `len`. Both sides are
/// multiplied out by `len * (len - 1)` and by the offset's denominator.
pub proof fn lemma_phase_is_mean_residual(samples: Seq<Millis>)
    requires
        estimable(samples),
        samples.len() <= usize::MAX,
    ensures
        fitted_phase(samples).num * (samples.len() * (samples.len() - 1)) == fitted_phase(
            samples,
        ).den * residuals(samples, samples.len()),
{
    let n = samples.len() as int;
    let w = span(samples);
    let s = total(samples);
    let r = residuals(samples, samples.len());
    lemma_fitted_valid(samples);
    lemma_residuals_prefix(samples, samples.len());
    assert(samples.take(n) =~= samples);
    assert((2 * s - n * w) * (n * (n - 1)) == (2 * n) * r) by (nonlinear_arith)
        requires
            2 * r == 2 * (n - 1) * s - w * (n * (n - 1)),
    ;
}

/// Twice the sum of the first `upto` samples of an even grid.
proof fn lemma_grid_total(samples: Seq<Millis>, start: int, step: int, upto: nat)
    requires
        upto <= samples.len(),
        forall|i: int| 0 <= i < samples.len() ==> #[trigger] samples[i] == start + i * step,
    ensures
        2 * total(samples.take(upto as int)) == 2 * upto * start + step * (upto * (upto - 1)),
    decreases upto,
{
    if upto == 0 {
        assert(samples.take(0) =~= Seq::<Millis>::empty());
        assert(2 * upto * start + step * (upto * (upto - 1)) == 0) by (nonlinear_arith)
            requires
                upto == 0,
        ;
    } else {
        let k = upto as int;
        lemma_grid_total(samples, start, step, (upto - 1) as nat);
        assert(samples.take(k).drop_last() =~= samples.take(k - 1));
        let before = total(samples.take(k - 1));
        let x = samples[k - 1] as int;
        assert(total(samples.take(k)) == before + x);
        assert(2 * (before + x) == 2 * k * start + step * (k * (k - 1))) by (nonlinear_arith)
            requires
                x == start + (k - 1) * step,
                2 * before == 2 * (k - 1) * start + step * ((k - 1) * (k - 1 - 1)),
        ;
    }
}

/// Taps on an even grid are recovered exactly: the fitted period is the
/// grid's step, and the fitted phase offset is the time of the first tap.
pub proof fn lemma_grid_is_recovered(samples: Seq<Millis>, start: int, step: int)
    requires
        2 <= samples.len() <= usize::MAX,
        step > 0,
        forall|i: int| 0 <= i < samples.len() ==> #[trigger] samples[i] == start + i * step,
    ensures
        estimable(samples),
        fitted_frequency(samples).millis == step * fitted_frequency(samples).cycles,
        fitted_phase(samples).num == start * fitted_phase(samples).den,
{
    let n = samples.len() as int;
    assert(samples[0] == start + 0 * step);
    assert(samples[n - 1] == start + (n - 1) * step);
    assert(span(samples) == step * (n - 1)) by (nonlinear_arith)
        requires
            span(samples) == (start + (n - 1) * step) - (start + 0 * step),
    ;
    assert(step * (n - 1) > 0) by (nonlinear_arith)
        requires
            step > 0,
            n >= 2,
    ;
    lemma_fitted_valid(samples);
    lemma_grid_total(samples, start, step, samples.len());
    assert(samples.take(n) =~= samples);
    let s = total(samples);
    let w = span(samples);
    assert(2 * s - n * w == start * (2 * n)) by (nonlinear_arith)
        requires
            2 * s == 2 * n * start + step * (n * (n - 1)),
            w == step * (n - 1),
    ;
}

/// A beat with the tempo and phase fitted to taps on an even grid runs with
/// the taps: at every tap's time, and at every step of the grid before and
/// after them, it stands at the start of its cycle, and `within`
/// milliseconds later at `within / step` of it.
pub proof fn lemma_fitted_beat_follows_grid(
    samples: Seq<Millis>,
    start: int,
    step: int,
    beat: Beat,
    turn: int,
    within: int,
)
    requires
        2 <= samples.len() <= usize::MAX,
        step > 0,
        forall|i: int| 0 <= i < samples.len() ==> #[trigger] samples[i] == start + i * step,
        beat.frequency == fitted_frequency(samples),
        beat.phase == fitted_phase(samples),
        0 <= within < step,
    ensures
        beat.position(start + turn * step + within).valid(),
        beat.position(start + turn * step + within).num * step == within * beat.position(
            start + turn * step + within,
        ).den,
{
    let now = start + turn * step + within;
    lemma_grid_is_recovered(samples, start, step);
    lemma_fitted_valid(samples);
    lemma_position_in_unit_interval(beat, now);
    let pd = beat.phase.den as int;
    let pn = beat.phase.num as int;
    let c = beat.frequency.cycles as int;
    let m = beat.frequency.millis as int;
    let d = beat.cycle_den();
    let rest = within * (pd * c);
    assert(d == pd * m);
    assert(pd * c > 0) by (nonlinear_arith)
        requires
            pd > 0,
            c > 0,
    ;
    assert(d == step * (pd * c)) by (nonlinear_arith)
        requires
            d == pd * m,
            m == step * c,
    ;
    assert(beat.turns_num(now) == turn * d + rest) by (nonlinear_arith)
        requires
            beat.turns_num(now) == (now * pd - pn) * c,
            now == start + turn * step + within,
            pn == start * pd,
            d == step * (pd * c),
            rest == within * (pd * c),
    ;
    assert(0 <= rest < d) by (nonlinear_arith)
        requires
            0 <= within < step,
            pd * c > 0,
            d == step * (pd * c),
            rest == within * (pd * c),
    ;
    lemma_fundamental_div_mod_converse(beat.turns_num(now), d, turn, rest);
    assert(rest * step == within * d) by (nonlinear_arith)
        requires
            d == step * (pd * c),
            rest == within * (pd * c),
    ;
}

/// Taps that come in the order of time, at least two of them and not all
/// at one instant, determine a period.
pub proof fn lemma_ordered_taps_are_estimable(samples: Seq<Millis>)
    requires
        samples.len() >= 2,
        forall|i: int, j: int| 0 <= i <= j < samples.len() ==> samples[i] <= samples[j],
        samples.first() != samples.last(),
    ensures
        estimable(samples),
{
    assert(samples[0] <= samples[samples.len() - 1]);
}

/// With fewer than two samples an estimate changes nothing; so a reset
/// followed by an estimate leaves the estimator as the reset left it, and
/// doing either twice is the same as doing it once.
pub proof fn lemma_reset_then_estimate(tempo: TapTempoView)
    ensures
        tempo.samples.len() < 2 ==> tempo.estimated() == tempo,
        tempo.cleared().estimated() == tempo.cleared(),
        tempo.cleared().frequency == tempo.frequency,
        tempo.cleared().phase == tempo.phase,
        tempo.cleared().cleared() == tempo.cleared(),
        tempo.estimated().estimated() == tempo.estimated(),
{
}

} // verus!
