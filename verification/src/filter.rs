//! A two-pole resonant low-pass filter (biquad, direct form I).
//!
//! Coefficients follow the cookbook low-pass formulas, evaluated in
//! fixed point on the parabolic sine: with `t` the cutoff as a fraction
//! of the sample rate, `alpha = sin(t) / (2 Q)`, and the five
//! coefficients are normalized by `1 + alpha`. They are scaled by
//! `LEVEL_ONE` and recomputed on every parameter change, never lazily.
//! The difference equation output is saturated, so the filter state —
//! and with it the response to any bounded input — stays bounded.

use vstd::prelude::*;

use crate::fixed::{
    cosine_at, sat, scale, scale_signed, sine_at, spec_clamp, spec_cosine, spec_sine, tdiv, FP_ONE,
    LEVEL_ONE, MAX_SAMPLE_RATE, PHASE_HALF, SAMPLE_LIMIT,
};

verus! {

/// Smallest admitted resonance: 0.01, scaled by `FP_ONE`.
pub const MIN_RESONANCE: i64 = 10_000;

/// Largest admitted resonance: one hundred, scaled by `FP_ONE`.
pub const MAX_RESONANCE: i64 = 100_000_000;

#[derive(Clone, Copy, Debug, PartialEq, Eq, Structural)]
pub struct LowPassFilter {
    /// Sample rate, Hz.
    pub sample_rate: u32,
    /// Cutoff, milli-Hz, kept strictly below the Nyquist frequency.
    pub cutoff_freq: i64,
    /// Resonance (Q), scaled by `FP_ONE`.
    pub resonance: i64,
    /// Feed-forward coefficients, scaled by `LEVEL_ONE`.
    pub a0: i64,
    pub a1: i64,
    pub a2: i64,
    /// Feedback coefficients, scaled by `LEVEL_ONE`.
    pub b1: i64,
    pub b2: i64,
    /// Input history: the previous input and the one before it.
    pub x1: i64,
    pub x2: i64,
    /// Output history: the previous output and the one before it.
    pub y1: i64,
    pub y2: i64,
}

/// The cutoff as a phase fraction of one cycle: `cutoff / sample_rate`,
/// in `[0, PHASE_HALF)` for a cutoff below Nyquist.
pub open spec fn spec_cutoff_phase(cutoff: int, rate: int) -> int {
    (cutoff * 1000) / rate
}

/// The filter with its coefficients recomputed from its parameters.
pub open spec fn spec_calc_coefficients(f: LowPassFilter) -> LowPassFilter {
    let t = spec_cutoff_phase(f.cutoff_freq as int, f.sample_rate as int);
    let sin_n = spec_sine(t) * 1000;
    let cos_n = spec_cosine(t) * 1000;
    let alpha = (sin_n * LEVEL_ONE) / (2000 * f.resonance);
    let a0d = LEVEL_ONE + alpha;
    let b0 = (LEVEL_ONE - cos_n) / 2;
    LowPassFilter {
        a0: tdiv(b0 * LEVEL_ONE, a0d) as i64,
        a1: tdiv((LEVEL_ONE - cos_n) * LEVEL_ONE, a0d) as i64,
        a2: tdiv(b0 * LEVEL_ONE, a0d) as i64,
        b1: tdiv(-2 * cos_n * LEVEL_ONE, a0d) as i64,
        b2: tdiv((LEVEL_ONE - alpha) * LEVEL_ONE, a0d) as i64,
        ..f
    }
}

/// The raw difference-equation output:
/// `a0 x + a1 x1 + a2 x2 - b1 y1 - b2 y2`, unscaled by `LEVEL_ONE`.
pub open spec fn spec_biquad_raw(f: LowPassFilter, x: int) -> int {
    tdiv(
        f.a0 * x + f.a1 * f.x1 + f.a2 * f.x2 - f.b1 * f.y1 - f.b2 * f.y2,
        LEVEL_ONE as int,
    )
}

/// The filter after one sample: history shifted, output saturated.
pub open spec fn spec_filter_step(f: LowPassFilter, x: int) -> LowPassFilter {
    let y = sat(spec_biquad_raw(f, x));
    LowPassFilter { x2: f.x1, x1: x as i64, y2: f.y1, y1: y as i64, ..f }
}

impl LowPassFilter {
    /// Parameter ranges, coefficient bounds, and bounded history.
    pub open spec fn wf(&self) -> bool {
        &&& 1 <= self.sample_rate <= MAX_SAMPLE_RATE
        &&& 1 <= self.cutoff_freq < 500 * self.sample_rate
        &&& MIN_RESONANCE <= self.resonance <= MAX_RESONANCE
        &&& -2 * LEVEL_ONE <= self.a0 <= 2 * LEVEL_ONE
        &&& -2 * LEVEL_ONE <= self.a1 <= 2 * LEVEL_ONE
        &&& -2 * LEVEL_ONE <= self.a2 <= 2 * LEVEL_ONE
        &&& -2 * LEVEL_ONE <= self.b1 <= 2 * LEVEL_ONE
        &&& -2 * LEVEL_ONE <= self.b2 <= 2 * LEVEL_ONE
        &&& -SAMPLE_LIMIT <= self.x1 <= SAMPLE_LIMIT
        &&& -SAMPLE_LIMIT <= self.x2 <= SAMPLE_LIMIT
        &&& -SAMPLE_LIMIT <= self.y1 <= SAMPLE_LIMIT
        &&& -SAMPLE_LIMIT <= self.y2 <= SAMPLE_LIMIT
    }

    /// A filter with cleared history and freshly computed coefficients.
    /// The cutoff is clamped strictly below Nyquist, the resonance into
    /// `[MIN_RESONANCE, MAX_RESONANCE]`.
    pub fn new(sample_rate: u32, cutoff_freq: i64, resonance: i64) -> (r: Self)
        ensures
            r.wf(),
            r == spec_calc_coefficients(r),
            r.x1 == 0 && r.x2 == 0 && r.y1 == 0 && r.y2 == 0,
            r.sample_rate as int == spec_clamp(sample_rate as int, 1, MAX_SAMPLE_RATE as int),
            r.cutoff_freq as int == spec_clamp(
                cutoff_freq as int,
                1,
                500 * r.sample_rate as int - 1,
            ),
            r.resonance as int == spec_clamp(
                resonance as int,
                MIN_RESONANCE as int,
                MAX_RESONANCE as int,
            ),
    {
        let rate: u32 = if sample_rate < 1 {
            1
        } else if sample_rate > MAX_SAMPLE_RATE {
            MAX_SAMPLE_RATE
        } else {
            sample_rate
        };
        let mut f = LowPassFilter {
            sample_rate: rate,
            cutoff_freq: crate::fixed::clamp_i64(cutoff_freq, 1, 500 * (rate as i64) - 1),
            resonance: crate::fixed::clamp_i64(resonance, MIN_RESONANCE, MAX_RESONANCE),
            a0: 0,
            a1: 0,
            a2: 0,
            b1: 0,
            b2: 0,
            x1: 0,
            x2: 0,
            y1: 0,
            y2: 0,
        };
        f.calc_coefficients();
        f
    }

    /// Recompute the five coefficients from the current parameters.
    fn calc_coefficients(&mut self)
        requires
            1 <= old(self).sample_rate <= MAX_SAMPLE_RATE,
            1 <= old(self).cutoff_freq < 500 * old(self).sample_rate,
            MIN_RESONANCE <= old(self).resonance <= MAX_RESONANCE,
        ensures
            *final(self) == spec_calc_coefficients(*old(self)),
            -2 * LEVEL_ONE <= final(self).a0 <= 2 * LEVEL_ONE,
            -2 * LEVEL_ONE <= final(self).a1 <= 2 * LEVEL_ONE,
            -2 * LEVEL_ONE <= final(self).a2 <= 2 * LEVEL_ONE,
            -2 * LEVEL_ONE <= final(self).b1 <= 2 * LEVEL_ONE,
            -2 * LEVEL_ONE <= final(self).b2 <= 2 * LEVEL_ONE,
    {
        proof {
            assert(0 <= self.cutoff_freq * 1000 <= 500_000_000_000) by (nonlinear_arith)
                requires
                    1 <= self.cutoff_freq < 500_000_000,
            ;
            assert(self.cutoff_freq * 1000 < 500_000 * (self.sample_rate as int))
                by (nonlinear_arith)
                requires
                    1 <= self.cutoff_freq < 500 * self.sample_rate,
            ;
            assert(tdiv(self.cutoff_freq as int * 1000, self.sample_rate as int) < PHASE_HALF)
                by (nonlinear_arith)
                requires
                    0 <= self.cutoff_freq * 1000 < 500_000 * (self.sample_rate as int),
                    1 <= self.sample_rate,
                    PHASE_HALF == 500_000,
            ;
        }
        let t = scale(self.cutoff_freq, 1000, self.sample_rate as i64);
        proof {
            crate::fixed::lemma_sine_bounds(t as int);
        }
        let sin_n = sine_at(t) * 1000;
        let cos_n = cosine_at(t) * 1000;
        let denom_q = 2000 * self.resonance;
        proof {
            crate::fixed::lemma_mul_div_bound(
                sin_n as int,
                LEVEL_ONE as int,
                denom_q as int,
                LEVEL_ONE as int,
            );
            assert(tdiv(LEVEL_ONE as int * LEVEL_ONE as int, denom_q as int) <= 50_000_000_000)
                by (nonlinear_arith)
                requires
                    denom_q >= 20_000_000,
                    LEVEL_ONE == 1_000_000_000,
            ;
        }
        let alpha = scale(sin_n, LEVEL_ONE, denom_q);
        let a0d = LEVEL_ONE + alpha;
        let b0 = (LEVEL_ONE - cos_n) / 2;
        proof {
            lemma_coeff_bound(b0 as int, a0d as int, LEVEL_ONE as int);
            lemma_coeff_bound((LEVEL_ONE - cos_n) as int, a0d as int, 2 * LEVEL_ONE as int);
            lemma_coeff_bound((-2 * cos_n) as int, a0d as int, 2 * LEVEL_ONE as int);
            lemma_coeff_bound((LEVEL_ONE - alpha) as int, a0d as int, a0d as int);
        }
        self.a0 = scale(b0, LEVEL_ONE, a0d);
        self.a1 = scale(LEVEL_ONE - cos_n, LEVEL_ONE, a0d);
        self.a2 = scale(b0, LEVEL_ONE, a0d);
        self.b1 = scale_signed(-2 * cos_n, LEVEL_ONE, a0d);
        self.b2 = scale_signed(LEVEL_ONE - alpha, LEVEL_ONE, a0d);
    }

    /// One sample through the difference equation; history always moves,
    /// whether or not the coefficients changed since the last call.
    pub fn process(&mut self, input: i64) -> (r: i64)
        requires
            old(self).wf(),
            -SAMPLE_LIMIT <= input <= SAMPLE_LIMIT,
        ensures
            *final(self) == spec_filter_step(*old(self), input as int),
            final(self).wf(),
            r == sat(spec_biquad_raw(*old(self), input as int)),
            -SAMPLE_LIMIT <= r <= SAMPLE_LIMIT,
    {
        proof {
            lemma_product_fits(self.a0 as int, input as int);
            lemma_product_fits(self.a1 as int, self.x1 as int);
            lemma_product_fits(self.a2 as int, self.x2 as int);
            lemma_product_fits(self.b1 as int, self.y1 as int);
            lemma_product_fits(self.b2 as int, self.y2 as int);
        }
        let acc: i128 = (self.a0 as i128) * (input as i128) + (self.a1 as i128) * (self.x1 as i128)
            + (self.a2 as i128) * (self.x2 as i128) - (self.b1 as i128) * (self.y1 as i128) - (
        self.b2 as i128) * (self.y2 as i128);
        let quot: i128 = if acc >= 0 {
            acc / (LEVEL_ONE as i128)
        } else {
            -((-acc) / (LEVEL_ONE as i128))
        };
        let y: i64 = if quot > SAMPLE_LIMIT as i128 {
            SAMPLE_LIMIT
        } else if quot < -SAMPLE_LIMIT as i128 {
            -SAMPLE_LIMIT
        } else {
            quot as i64
        };
        self.x2 = self.x1;
        self.x1 = input;
        self.y2 = self.y1;
        self.y1 = y;
        y
    }

    /// Set the cutoff (clamped strictly below Nyquist) and immediately
    /// recompute the coefficients.
    pub fn set_cutoff_freq(&mut self, cutoff_freq: i64)
        requires
            old(self).wf(),
        ensures
            *final(self) == spec_calc_coefficients(
                LowPassFilter {
                    cutoff_freq: spec_clamp(
                        cutoff_freq as int,
                        1,
                        500 * old(self).sample_rate as int - 1,
                    ) as i64,
                    ..*old(self)
                },
            ),
            final(self).wf(),
    {
        self.cutoff_freq = crate::fixed::clamp_i64(
            cutoff_freq,
            1,
            500 * (self.sample_rate as i64) - 1,
        );
        self.calc_coefficients();
    }

    /// Set the resonance (clamped) and immediately recompute the
    /// coefficients.
    pub fn set_resonance(&mut self, resonance: i64)
        requires
            old(self).wf(),
        ensures
            *final(self) == spec_calc_coefficients(
                LowPassFilter {
                    resonance: spec_clamp(
                        resonance as int,
                        MIN_RESONANCE as int,
                        MAX_RESONANCE as int,
                    ) as i64,
                    ..*old(self)
                },
            ),
            final(self).wf(),
    {
        self.resonance = crate::fixed::clamp_i64(resonance, MIN_RESONANCE, MAX_RESONANCE);
        self.calc_coefficients();
    }

    /// Set the sample rate (clamped; the cutoff is re-clamped below the
    /// new Nyquist) and immediately recompute the coefficients.
    pub fn set_sample_rate(&mut self, rate: u32)
        requires
            old(self).wf(),
        ensures
            final(self).wf(),
            final(self).sample_rate as int == spec_clamp(rate as int, 1, MAX_SAMPLE_RATE as int),
    {
        self.sample_rate = if rate < 1 {
            1
        } else if rate > MAX_SAMPLE_RATE {
            MAX_SAMPLE_RATE
        } else {
            rate
        };
        self.cutoff_freq = crate::fixed::clamp_i64(
            self.cutoff_freq,
            1,
            500 * (self.sample_rate as i64) - 1,
        );
        self.calc_coefficients();
    }

    pub fn get_cutoff_freq(&self) -> (r: i64)
        ensures
            r == self.cutoff_freq,
    {
        self.cutoff_freq
    }

    pub fn get_resonance(&self) -> (r: i64)
        ensures
            r == self.resonance,
    {
        self.resonance
    }

    pub fn get_sample_rate(&self) -> (r: u32)
        ensures
            r == self.sample_rate,
    {
        self.sample_rate
    }

    /// The stage's display name.
    pub fn name(&self) -> &'static str {
        "LowPassFilter"
    }
}

/// A normalized coefficient `n * LEVEL_ONE / d` with `|n| <= b <= d`
/// stays within `[-2 * LEVEL_ONE, 2 * LEVEL_ONE]`.
proof fn lemma_coeff_bound(n: int, d: int, b: int)
    by (nonlinear_arith)
    requires
        LEVEL_ONE <= d,
        0 <= b,
        -b <= n <= b,
        b <= 2 * d,
    ensures
        -2 * LEVEL_ONE <= tdiv(n * LEVEL_ONE, d) <= 2 * LEVEL_ONE,
{
}

/// A coefficient times a bounded sample fits comfortably in an `i128`.
proof fn lemma_product_fits(c: int, v: int)
    by (nonlinear_arith)
    requires
        -2 * LEVEL_ONE <= c <= 2 * LEVEL_ONE,
        -SAMPLE_LIMIT <= v <= SAMPLE_LIMIT,
    ensures
        -2_000_000_000_000_000_000 <= c * v <= 2_000_000_000_000_000_000,
{
}

} // verus!
