//! Fixed-point arithmetic used by every DSP stage.
//!
//! Audio samples are `i64` values scaled by [`FP_ONE`]: `FP_ONE` is an
//! amplitude of one. Envelope levels use the finer scale [`LEVEL_ONE`].
//! Oscillator phase runs over one cycle in [`PHASE_ONE`] steps. Samples
//! flowing through a chain are kept within [`SAMPLE_LIMIT`] by saturation.

use vstd::prelude::*;

verus! {

/// One, in the sample amplitude scale (micro-units).
pub const FP_ONE: i64 = 1_000_000;

/// One, in the envelope level scale (nano-units).
pub const LEVEL_ONE: i64 = 1_000_000_000;

/// One oscillator cycle, in phase steps.
pub const PHASE_ONE: i64 = 1_000_000;

/// Saturation bound for samples travelling through a chain:
/// a thousand times full scale, far above anything audible.
pub const SAMPLE_LIMIT: i64 = 1_000_000_000;

/// Largest admitted sample rate, in Hz.
pub const MAX_SAMPLE_RATE: u32 = 1_000_000;

/// Longest admitted time parameter: ten minutes, in microseconds.
pub const MAX_TIME_MICROS: i64 = 600_000_000;

/// Truncating (round-toward-zero) division, the semantics of `/` on
/// machine integers; spec-level `/` alone is Euclidean.
pub open spec fn tdiv(x: int, d: int) -> int {
    if x >= 0 {
        x / d
    } else {
        -((-x) / d)
    }
}

/// `x * y / d` with truncating division, the value every scaled
/// multiplication in this crate computes.
pub open spec fn mul_div(x: int, y: int, d: int) -> int {
    tdiv(x * y, d)
}

/// Clamp `x` into `[lo, hi]`.
pub open spec fn spec_clamp(x: int, lo: int, hi: int) -> int {
    if x < lo {
        lo
    } else if x > hi {
        hi
    } else {
        x
    }
}

/// Saturate a sample into `[-SAMPLE_LIMIT, SAMPLE_LIMIT]`.
pub open spec fn sat(x: int) -> int {
    spec_clamp(x, -SAMPLE_LIMIT as int, SAMPLE_LIMIT as int)
}

/// A scaled multiplication of a value within `[-b, b]` by a non-negative
/// factor `y` stays within `[-tdiv(b*y, d), tdiv(b*y, d)]`.
pub proof fn lemma_mul_div_bound(x: int, y: int, d: int, b: int)
    by (nonlinear_arith)
    requires
        d > 0,
        y >= 0,
        b >= 0,
        -b <= x <= b,
    ensures
        -tdiv(b * y, d) <= mul_div(x, y, d) <= tdiv(b * y, d),
{
}

/// Scaled multiplication: `x * y / d` exactly, computed through `i128`.
pub fn scale(x: i64, y: i64, d: i64) -> (r: i64)
    requires
        d > 0,
        y >= 0,
        i64::MIN <= mul_div(x as int, y as int, d as int) <= i64::MAX,
    ensures
        r == mul_div(x as int, y as int, d as int),
{
    if x >= 0 {
        proof {
            assert(0 <= x * y <= i128::MAX) by (nonlinear_arith)
                requires
                    0 <= x <= i64::MAX,
                    0 <= y <= i64::MAX,
            ;
        }
        let prod: i128 = (x as i128) * (y as i128);
        let wide: i128 = prod / (d as i128);
        wide as i64
    } else {
        let neg: i128 = -(x as i128);
        proof {
            assert(0 <= (-x) * y <= i128::MAX) by (nonlinear_arith)
                requires
                    0 <= -x <= i64::MAX as int + 1,
                    0 <= y <= i64::MAX,
            ;
        }
        let prod: i128 = neg * (y as i128);
        let wide: i128 = prod / (d as i128);
        proof {
            assert(-(x * y) == (-x) * y) by (nonlinear_arith);
        }
        let res: i128 = -wide;
        res as i64
    }
}

/// Scaled multiplication with a factor of either sign: `tdiv(x * y, d)`.
pub fn scale_signed(x: i64, y: i64, d: i64) -> (r: i64)
    requires
        d > 0,
        y > i64::MIN,
        i64::MIN < tdiv(x as int * y as int, d as int) <= i64::MAX,
    ensures
        r == tdiv(x as int * y as int, d as int),
{
    if y >= 0 {
        scale(x, y, d)
    } else {
        proof {
            assert(x as int * (-y as int) == -(x as int * y as int)) by (nonlinear_arith);
        }
        let m = scale(x, -y, d);
        -m
    }
}

/// Clamp `x` into `[lo, hi]`.
pub fn clamp_i64(x: i64, lo: i64, hi: i64) -> (r: i64)
    requires
        lo <= hi,
    ensures
        r == spec_clamp(x as int, lo as int, hi as int),
{
    if x < lo {
        lo
    } else if x > hi {
        hi
    } else {
        x
    }
}

/// Saturate a sample into `[-SAMPLE_LIMIT, SAMPLE_LIMIT]`.
pub fn saturate(x: i64) -> (r: i64)
    ensures
        r == sat(x as int),
        -SAMPLE_LIMIT <= r <= SAMPLE_LIMIT,
{
    clamp_i64(x, -SAMPLE_LIMIT, SAMPLE_LIMIT)
}

/// The integer square root, as a value: the unique `r` with
/// `r * r <= x < (r + 1) * (r + 1)`.
pub open spec fn spec_isqrt(x: int) -> int {
    choose|r: int| 0 <= r && #[trigger] (r * r) <= x && (r + 1) * (r + 1) > x
}

/// At most one integer square root exists.
pub proof fn lemma_isqrt_unique(x: int, a: int, b: int)
    by (nonlinear_arith)
    requires
        0 <= a,
        a * a <= x,
        (a + 1) * (a + 1) > x,
        0 <= b,
        b * b <= x,
        (b + 1) * (b + 1) > x,
    ensures
        a == b,
{
}

/// The integer square root: the greatest `r` with `r * r <= x`.
pub fn isqrt(x: i64) -> (r: i64)
    requires
        0 <= x,
    ensures
        0 <= r,
        r * r <= x,
        (r + 1) * (r + 1) > x,
        r == spec_isqrt(x as int),
        r <= 3_037_000_499,
{
    let mut lo: i64 = 0;
    let mut hi: i64 = 3_037_000_500;
    while lo + 1 < hi
        invariant
            0 <= lo < hi <= 3_037_000_500,
            lo * lo <= x,
            hi * hi > x,
        decreases hi - lo,
    {
        let mid = lo + (hi - lo) / 2;
        proof {
            assert(mid < hi);
            assert(0 <= mid * mid <= 9_223_372_030_926_249_001) by (nonlinear_arith)
                requires
                    0 <= mid <= 3_037_000_499,
            ;
        }
        if mid * mid <= x {
            lo = mid;
        } else {
            hi = mid;
        }
    }
    proof {
        assert(0 <= lo && lo * lo <= x && (lo + 1) * (lo + 1) > x);
        let w = spec_isqrt(x as int);
        assert(0 <= w && w * w <= x && (w + 1) * (w + 1) > x);
        lemma_isqrt_unique(x as int, lo as int, w);
    }
    lo
}

/// Half a cycle, in phase steps.
pub const PHASE_HALF: i64 = 500_000;

/// The positive half-wave of the parabolic sine on `[0, PHASE_HALF]`:
/// `p (PHASE_HALF - p) / 62_500` peaks at `FP_ONE` for `p = PHASE_HALF / 2`.
pub open spec fn half_wave(p: int) -> int {
    (p * (PHASE_HALF - p)) / 62_500
}

/// One cycle of the parabolic sine approximation, on `[0, PHASE_ONE)`.
pub open spec fn spec_sine(p: int) -> int {
    if p < PHASE_HALF {
        half_wave(p)
    } else {
        -half_wave(p - PHASE_HALF)
    }
}

/// The half-wave stays within `[0, FP_ONE]`.
pub proof fn lemma_half_wave_bounds(p: int)
    requires
        0 <= p <= PHASE_HALF,
    ensures
        0 <= half_wave(p) <= FP_ONE,
{
    assert(0 <= p * (PHASE_HALF - p) <= 62_500_000_000) by (nonlinear_arith)
        requires
            0 <= p <= PHASE_HALF,
    ;
}

/// The sine approximation stays within `[-FP_ONE, FP_ONE]`.
pub proof fn lemma_sine_bounds(p: int)
    requires
        0 <= p < PHASE_ONE,
    ensures
        -FP_ONE <= spec_sine(p) <= FP_ONE,
{
    if p < PHASE_HALF {
        lemma_half_wave_bounds(p);
    } else {
        lemma_half_wave_bounds(p - PHASE_HALF);
    }
}

/// One sample of the sine wave at a phase within one cycle.
pub fn sine_at(p: i64) -> (r: i64)
    requires
        0 <= p < PHASE_ONE,
    ensures
        r == spec_sine(p as int),
        -FP_ONE <= r <= FP_ONE,
{
    proof {
        lemma_sine_bounds(p as int);
    }
    if p < PHASE_HALF {
        proof {
            assert(0 <= p * (PHASE_HALF - p) <= 62_500_000_000) by (nonlinear_arith)
                requires
                    0 <= p <= PHASE_HALF,
            ;
        }
        p * (PHASE_HALF - p) / 62_500
    } else {
        let q = p - PHASE_HALF;
        proof {
            assert(0 <= q * (PHASE_HALF - q) <= 62_500_000_000) by (nonlinear_arith)
                requires
                    0 <= q <= PHASE_HALF,
            ;
        }
        -(q * (PHASE_HALF - q) / 62_500)
    }
}

/// The cosine, as the sine a quarter cycle ahead.
pub open spec fn spec_cosine(p: int) -> int {
    spec_sine((p + 250_000) % (PHASE_ONE as int))
}

/// One sample of the cosine wave at a phase within one cycle.
pub fn cosine_at(p: i64) -> (r: i64)
    requires
        0 <= p < PHASE_ONE,
    ensures
        r == spec_cosine(p as int),
        -FP_ONE <= r <= FP_ONE,
{
    let shifted = (p + 250_000) % PHASE_ONE;
    sine_at(shifted)
}

} // verus!
