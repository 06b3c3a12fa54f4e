//! Decibel arithmetic in fixed point.
//!
//! Gains are carried in milli-decibels (`1000` is one dB) and converted
//! to linear micro-unit factors through a chain of per-bit factors:
//! the factor for bit `i` is `10^(2^i / 20000)` scaled by `FP_ONE`.

use vstd::prelude::*;

use vstd::arithmetic::power2::pow2;

use crate::fixed::{mul_div, scale, tdiv, FP_ONE, SAMPLE_LIMIT};

verus! {

/// Largest magnitude a dB value is clamped to: 120 dB, in milli-dB.
pub const MAX_DB_MILLI: i64 = 120_000;

/// The linear factor for +120 dB: `10^6` scaled by `FP_ONE`.
pub const MAX_GAIN_LIN: i64 = 1_000_000_000_000;

/// How many milli-dB bits the factor chain covers.
pub const DB_BITS: usize = 18;

/// The linear factor for a milli-dB step of `2^i`, scaled by `FP_ONE`.
pub open spec fn spec_factor(i: nat) -> int {
    if i == 0 {
        1_000_115
    } else if i == 1 {
        1_000_230
    } else if i == 2 {
        1_000_461
    } else if i == 3 {
        1_000_921
    } else if i == 4 {
        1_001_844
    } else if i == 5 {
        1_003_691
    } else if i == 6 {
        1_007_395
    } else if i == 7 {
        1_014_846
    } else if i == 8 {
        1_029_912
    } else if i == 9 {
        1_060_718
    } else if i == 10 {
        1_125_123
    } else if i == 11 {
        1_265_902
    } else if i == 12 {
        1_602_507
    } else if i == 13 {
        2_568_029
    } else if i == 14 {
        6_594_775
    } else if i == 15 {
        43_491_061
    } else if i == 16 {
        1_891_472_363
    } else {
        3_577_667_699_361
    }
}

/// The linear factor for a milli-dB step of `2^i`, scaled by `FP_ONE`.
fn factor_for(i: usize) -> (r: i64)
    requires
        i < DB_BITS,
    ensures
        r == spec_factor(i as nat),
        FP_ONE <= r <= 3_577_667_699_361,
{
    match i {
        0 => 1_000_115,
        1 => 1_000_230,
        2 => 1_000_461,
        3 => 1_000_921,
        4 => 1_001_844,
        5 => 1_003_691,
        6 => 1_007_395,
        7 => 1_014_846,
        8 => 1_029_912,
        9 => 1_060_718,
        10 => 1_125_123,
        11 => 1_265_902,
        12 => 1_602_507,
        13 => 2_568_029,
        14 => 6_594_775,
        15 => 43_491_061,
        16 => 1_891_472_363,
        _ => 3_577_667_699_361,
    }
}

/// Every chain factor lies within `[FP_ONE, spec_factor(17)]`.
pub proof fn lemma_factor_bounds(i: nat)
    ensures
        FP_ONE <= spec_factor(i) <= 3_577_667_699_361,
{
}

/// The linear factor for the non-negative milli-dB value `a`, folding
/// the factor for each set bit of `a` from bit `i` upward; the product
/// is clamped at `MAX_GAIN_LIN` along the way.
pub open spec fn spec_chain(a: int, i: nat) -> int
    decreases DB_BITS - i when i <= DB_BITS
{
    if i >= DB_BITS || a <= 0 {
        FP_ONE as int
    } else {
        let rest = spec_chain(a / 2, (i + 1) as nat);
        if a % 2 == 1 {
            let m = mul_div(rest, spec_factor(i), FP_ONE as int);
            if m > MAX_GAIN_LIN {
                MAX_GAIN_LIN as int
            } else {
                m
            }
        } else {
            rest
        }
    }
}

/// The chain stays within `[FP_ONE, MAX_GAIN_LIN]`.
pub proof fn lemma_chain_bounds(a: int, i: nat)
    requires
        i <= DB_BITS,
    ensures
        FP_ONE <= spec_chain(a, i) <= MAX_GAIN_LIN,
    decreases DB_BITS - i,
{
    if i >= DB_BITS || a <= 0 {
    } else {
        lemma_chain_bounds(a / 2, (i + 1) as nat);
        let rest = spec_chain(a / 2, (i + 1) as nat);
        if a % 2 == 1 {
            lemma_factor_bounds(i);
            assert(mul_div(rest, spec_factor(i), FP_ONE as int) >= rest) by (nonlinear_arith)
                requires
                    rest >= 1,
                    spec_factor(i) >= FP_ONE,
                    FP_ONE > 0,
            ;
        }
    }
}

/// The linear factor for the non-negative milli-dB value `a`.
fn chain_gain(a: i64, i: usize) -> (r: i64)
    requires
        0 <= a,
        i <= DB_BITS,
    ensures
        r == spec_chain(a as int, i as nat),
        FP_ONE <= r <= MAX_GAIN_LIN,
    decreases DB_BITS - i,
{
    proof {
        lemma_chain_bounds(a as int, i as nat);
    }
    if i >= DB_BITS || a <= 0 {
        FP_ONE
    } else {
        let rest = chain_gain(a / 2, i + 1);
        if a % 2 == 1 {
            let f = factor_for(i);
            proof {
                assert(rest * f <= 9_000_000_000_000_000_000_000_000) by (nonlinear_arith)
                    requires
                        0 <= rest <= MAX_GAIN_LIN,
                        0 <= f <= 3_577_667_699_361,
                ;
                assert(mul_div(rest as int, f as int, FP_ONE as int) >= 0) by (nonlinear_arith)
                    requires
                        rest >= 0,
                        f >= 0,
                        FP_ONE > 0,
                ;
                assert(mul_div(rest as int, f as int, FP_ONE as int) <= 9_000_000_000_000_000_000)
                    by (nonlinear_arith)
                    requires
                        0 <= rest * f <= 9_000_000_000_000_000_000_000_000,
                        FP_ONE == 1_000_000,
                ;
            }
            let m = scale(rest, f, FP_ONE);
            if m > MAX_GAIN_LIN {
                MAX_GAIN_LIN
            } else {
                m
            }
        } else {
            rest
        }
    }
}

/// The linear micro-unit factor for a milli-dB gain: the factor chain
/// for a raise, its reciprocal for a cut; the value is clamped into
/// `[-120 dB, +120 dB]` first. Zero dB is exactly `FP_ONE`.
pub open spec fn spec_db_to_linear(mdb: int) -> int {
    let c = crate::fixed::spec_clamp(mdb, -MAX_DB_MILLI as int, MAX_DB_MILLI as int);
    if c >= 0 {
        spec_chain(c, 0)
    } else {
        MAX_GAIN_LIN as int / spec_chain(-c, 0)
    }
}

/// The linear factor of any milli-dB gain lies within `[1, MAX_GAIN_LIN]`.
pub proof fn lemma_db_to_linear_bounds(mdb: int)
    ensures
        1 <= spec_db_to_linear(mdb) <= MAX_GAIN_LIN,
{
    let c = crate::fixed::spec_clamp(mdb, -MAX_DB_MILLI as int, MAX_DB_MILLI as int);
    if c >= 0 {
        lemma_chain_bounds(c, 0);
    } else {
        lemma_chain_bounds(-c, 0);
        let ch = spec_chain(-c, 0);
        assert(1 <= MAX_GAIN_LIN as int / ch <= MAX_GAIN_LIN) by (nonlinear_arith)
            requires
                FP_ONE <= ch <= MAX_GAIN_LIN,
        ;
    }
}

/// The linear micro-unit factor for a milli-dB gain, per `spec_db_to_linear`.
pub fn db_to_linear(mdb: i64) -> (r: i64)
    ensures
        r == spec_db_to_linear(mdb as int),
        1 <= r <= MAX_GAIN_LIN,
{
    proof {
        lemma_db_to_linear_bounds(mdb as int);
    }
    let c = crate::fixed::clamp_i64(mdb, -MAX_DB_MILLI, MAX_DB_MILLI);
    if c >= 0 {
        chain_gain(c, 0)
    } else {
        let ch = chain_gain(-c, 0);
        MAX_GAIN_LIN / ch
    }
}


/// The dB value every silent or non-positive level maps to.
pub const MIN_DB_MILLI: i64 = -240_000;

/// Halve a level of at least one amplitude unit until it lies within
/// `[FP_ONE, 2 * FP_ONE)`, counting the halvings.
pub open spec fn spec_norm_down(x: int) -> (int, int)
    decreases x when x >= FP_ONE
{
    if x < 2 * FP_ONE {
        (x, 0int)
    } else {
        let p = spec_norm_down(x / 2);
        (p.0, p.1 + 1)
    }
}

/// Double a level below one amplitude unit until it lies within
/// `[FP_ONE, 2 * FP_ONE)`, counting the doublings (negatively).
pub open spec fn spec_norm_up(x: int) -> (int, int)
    decreases 2 * FP_ONE - x when 1 <= x < 2 * FP_ONE
{
    if x >= FP_ONE {
        (x, 0int)
    } else {
        let p = spec_norm_up(2 * x);
        (p.0, p.1 - 1)
    }
}

/// The binary-logarithm fraction of a normalized level, by repeated
/// squaring, one bit per squaring down from `bit`.
pub open spec fn spec_log_frac(y: int, bit: int) -> int
    decreases bit when bit >= 0
{
    if bit <= 0 {
        0
    } else {
        let y2 = (y * y) / (FP_ONE as int);
        if y2 >= 2 * FP_ONE {
            bit + spec_log_frac(y2 / 2, bit / 2)
        } else {
            spec_log_frac(y2, bit / 2)
        }
    }
}

/// The milli-dB value of a positive micro-unit level `x`: its binary
/// logarithm in units of `1/8192` octave, times `6020.6 / 8192` milli-dB
/// per unit; a non-positive level maps to `MIN_DB_MILLI`.
pub open spec fn spec_linear_to_db(x: int) -> int {
    if x <= 0 {
        MIN_DB_MILLI as int
    } else {
        let p = if x >= FP_ONE {
            spec_norm_down(x)
        } else {
            spec_norm_up(x)
        };
        let units = p.1 * 8192 + spec_log_frac(p.0, 4096);
        tdiv(units * 60206, 81920)
    }
}

fn norm_down(x: i64) -> (r: (i64, i64))
    requires
        FP_ONE <= x <= SAMPLE_LIMIT,
    ensures
        (r.0 as int, r.1 as int) == spec_norm_down(x as int),
        FP_ONE <= r.0 < 2 * FP_ONE,
        0 <= r.1 <= 10,
        FP_ONE * pow2(r.1 as nat) <= x,
    decreases x,
{
    if x < 2 * FP_ONE {
        proof {
            vstd::arithmetic::power2::lemma2_to64();
        }
        (x, 0)
    } else {
        let p = norm_down(x / 2);
        proof {
            assert(FP_ONE * pow2(p.1 as nat) <= x / 2);
            vstd::arithmetic::power2::lemma_pow2_unfold((p.1 + 1) as nat);
            assert(FP_ONE * pow2((p.1 + 1) as nat) == 2 * (FP_ONE * pow2(p.1 as nat)))
                by (nonlinear_arith)
                requires
                    pow2((p.1 + 1) as nat) == 2 * pow2(p.1 as nat),
            ;
            assert(2 * (x as int / 2) <= x);
            if p.1 + 1 > 10 {
                assert(p.1 == 10);
                vstd::arithmetic::power2::lemma2_to64();
                assert(pow2(11) == 2048);
                assert(FP_ONE * 2048 > SAMPLE_LIMIT);
            }
        }
        (p.0, p.1 + 1)
    }
}

fn norm_up(x: i64) -> (r: (i64, i64))
    requires
        1 <= x < 2 * FP_ONE,
    ensures
        (r.0 as int, r.1 as int) == spec_norm_up(x as int),
        FP_ONE <= r.0 < 2 * FP_ONE,
        -21 <= r.1 <= 0,
        r.0 == x * pow2((-r.1) as nat),
    decreases 2 * FP_ONE - x,
{
    if x >= FP_ONE {
        proof {
            vstd::arithmetic::power2::lemma2_to64();
            assert(x as int * pow2(0) == x) by (nonlinear_arith)
                requires
                    pow2(0) == 1,
            ;
        }
        (x, 0)
    } else {
        let p = norm_up(2 * x);
        proof {
            let m = (-p.1) as nat;
            vstd::arithmetic::power2::lemma_pow2_unfold(m + 1);
            assert((2 * x) * pow2(m) == x * pow2(m + 1)) by (nonlinear_arith)
                requires
                    pow2(m + 1) == 2 * pow2(m),
            ;
            if p.1 - 1 < -21 {
                vstd::arithmetic::power2::lemma2_to64();
                assert(pow2(22) == 0x400000);
                assert(x as int * pow2(m + 1) >= pow2(m + 1)) by (nonlinear_arith)
                    requires
                        x >= 1,
                        pow2(m + 1) >= 0,
                ;
                assert(pow2(m + 1) >= pow2(22)) by {
                    if m + 1 > 22 {
                        vstd::arithmetic::power2::lemma_pow2_strictly_increases(22, m + 1);
                    }
                }
            }
        }
        (p.0, p.1 - 1)
    }
}

fn log_frac(y: i64, bit: i64) -> (r: i64)
    requires
        FP_ONE <= y < 2 * FP_ONE,
        0 <= bit <= 4096,
    ensures
        r == spec_log_frac(y as int, bit as int),
        0 <= r <= 2 * bit,
    decreases bit,
{
    if bit <= 0 {
        0
    } else {
        proof {
            assert(FP_ONE * FP_ONE <= y * y < 4 * FP_ONE * FP_ONE) by (nonlinear_arith)
                requires
                    FP_ONE <= y < 2 * FP_ONE,
            ;
        }
        let y2 = scale(y, y, FP_ONE);
        if y2 >= 2 * FP_ONE {
            let rest = log_frac(y2 / 2, bit / 2);
            proof {
                assert(bit + rest <= 2 * bit);
            }
            bit + rest
        } else {
            log_frac(y2, bit / 2)
        }
    }
}

/// The milli-dB value of a micro-unit level, per `spec_linear_to_db`.
pub fn linear_to_db(x: i64) -> (r: i64)
    requires
        x <= SAMPLE_LIMIT,
    ensures
        r == spec_linear_to_db(x as int),
        MIN_DB_MILLI <= r <= 70_000,
{
    if x <= 0 {
        return MIN_DB_MILLI;
    }
    let p: (i64, i64) = if x >= FP_ONE {
        norm_down(x)
    } else {
        norm_up(x)
    };
    let frac = log_frac(p.0, 4096);
    let units = p.1 * 8192 + frac;
    proof {
        assert(-172_032 <= units <= 90_112);
        assert(-140_000 <= tdiv(units as int * 60206, 81920) <= 70_000) by (nonlinear_arith)
            requires
                -172_032 <= units <= 90_112,
        ;
    }
    crate::fixed::scale_signed(units, 60206, 81920)
}

} // verus!
