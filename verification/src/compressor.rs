//! An RMS-detecting dynamics compressor.
//!
//! A sliding window of squared samples feeds a running sum, whose root
//! is the detector level. Above the threshold the gain is reduced at
//! the configured ratio — quadratically inside an optional soft knee —
//! and the reduction is smoothed in the dB domain with separate attack
//! and release coefficients before being applied, with make-up gain, to
//! the original sample.

use vstd::prelude::*;

use crate::db::{
    db_to_linear, linear_to_db, spec_db_to_linear, spec_linear_to_db, MAX_DB_MILLI, MAX_GAIN_LIN,
    MIN_DB_MILLI,
};
use crate::fixed::{
    isqrt, mul_div, sat, scale, scale_signed, spec_clamp, tdiv, FP_ONE, MAX_SAMPLE_RATE,
    MAX_TIME_MICROS, SAMPLE_LIMIT,
};

verus! {

/// Largest admitted compression ratio: one hundred to one, scaled.
pub const MAX_RATIO_COMP: i64 = 100_000_000;

/// Widest admitted soft knee: 24 dB, in milli-dB.
pub const MAX_KNEE_MILLI: i64 = 24_000;

/// The sum of a window of squared samples.
pub open spec fn seq_sum(s: Seq<i64>) -> int
    decreases s.len(),
{
    if s.len() == 0 {
        0
    } else {
        seq_sum(s.drop_last()) + s.last()
    }
}

/// Replacing one element changes the sum by the difference.
pub proof fn lemma_seq_sum_update(s: Seq<i64>, i: int, v: i64)
    requires
        0 <= i < s.len(),
    ensures
        seq_sum(s.update(i, v)) == seq_sum(s) - s[i] + v,
    decreases s.len(),
{
    if s.len() > 0 {
        if i == s.len() - 1 {
            assert(s.update(i, v).drop_last() =~= s.drop_last());
        } else {
            assert(s.update(i, v).drop_last() =~= s.drop_last().update(i, v));
            lemma_seq_sum_update(s.drop_last(), i, v);
        }
    }
}

/// A sum of elements within `[0, b]` lies within `[0, len * b]`.
pub proof fn lemma_seq_sum_bounds(s: Seq<i64>, b: int)
    requires
        forall|i: int| 0 <= i < s.len() ==> 0 <= #[trigger] s[i] <= b,
    ensures
        0 <= seq_sum(s) <= s.len() * b,
    decreases s.len(),
{
    if s.len() == 0 {
    } else {
        lemma_seq_sum_bounds(s.drop_last(), b);
        assert((s.len() - 1) * b + b == s.len() * b) by (nonlinear_arith);
    }
}

#[derive(Clone, Debug)]
pub struct Compressor {
    /// Threshold, milli-dB.
    pub threshold_db: i64,
    /// Ratio, scaled by `FP_ONE`, within `[FP_ONE, MAX_RATIO_COMP]`.
    pub ratio: i64,
    /// Soft-knee width, milli-dB, within `[0, MAX_KNEE_MILLI]`.
    pub knee_db: i64,
    /// Attack smoothing coefficient, within `[0, FP_ONE)`.
    pub attack_coeff: i64,
    /// Release smoothing coefficient, within `[0, FP_ONE)`.
    pub release_coeff: i64,
    /// Make-up gain, milli-dB.
    pub makeup_gain_db: i64,
    /// Sample rate, Hz.
    pub sample_rate: u32,
    /// Sliding window of squared samples (micro-units).
    pub rms_buffer: Vec<i64>,
    /// Running sum of the window.
    pub rms_sum: i64,
    pub rms_index: usize,
    /// Smoothed gain reduction, milli-dB, non-negative.
    pub envelope_db: i64,
}

/// A squared sample in micro-units: `x^2 / FP_ONE`.
pub open spec fn spec_square_micro(x: int) -> int {
    tdiv(x * x, FP_ONE as int)
}

/// The detector's RMS level after `x` enters the window: the root of
/// the mean of the updated window, in micro-units.
pub open spec fn spec_rms_next(c: Compressor, x: int) -> int {
    let sum = c.rms_sum - c.rms_buffer@[c.rms_index as int] + spec_square_micro(x);
    let mean = sum / (c.rms_buffer@.len() as int);
    let scaled = mean * FP_ONE;
    // the unique integer square root
    choose|r: int| 0 <= r && #[trigger] (r * r) <= scaled && (r + 1) * (r + 1) > scaled
}

/// The target gain reduction, milli-dB, for a detector level of
/// `input_db`: zero below the knee, the ratio's slope above it, a
/// quadratic blend inside it.
pub open spec fn spec_gain_reduction(c: Compressor, input_db: int) -> int {
    let over = input_db - c.threshold_db;
    let slope = FP_ONE - tdiv(FP_ONE as int * FP_ONE as int, c.ratio as int);
    if c.knee_db > 0 && 2 * over > -c.knee_db && 2 * over < c.knee_db {
        let edge = over + c.knee_db / 2;
        tdiv(tdiv(edge * edge, 2 * c.knee_db) * slope, FP_ONE as int)
    } else if over > 0 {
        tdiv(over * slope, FP_ONE as int)
    } else {
        0
    }
}

/// The smoothed reduction: one-pole motion from the current envelope
/// toward the target, under the attack coefficient when rising and the
/// release coefficient when falling.
pub open spec fn spec_envelope_next(c: Compressor, target: int) -> int {
    let coeff = if target > c.envelope_db {
        c.attack_coeff as int
    } else {
        c.release_coeff as int
    };
    target + tdiv(coeff * (c.envelope_db - target), FP_ONE as int)
}

/// The output sample: the input scaled by the linear factor of
/// `makeup - reduction`, saturated.
pub open spec fn spec_compressor_out(c: Compressor, x: int) -> int {
    let rms = spec_rms_next(c, x);
    let input_db = spec_linear_to_db(rms);
    let target = spec_gain_reduction(c, input_db);
    let env = spec_envelope_next(c, target);
    let gain_db = c.makeup_gain_db - env;
    sat(mul_div(x, spec_db_to_linear(gain_db), FP_ONE as int))
}

/// A first-order estimate of the one-pole coefficient
/// `exp(-1 / (time * rate))`: one minus one part per smoothing sample,
/// in micro-units.
pub open spec fn spec_one_pole_coeff(time_micros: int, rate: int) -> int {
    let samples = (time_micros * rate) / 1_000_000;
    if samples <= 1 {
        0
    } else {
        let part = FP_ONE as int / samples;
        FP_ONE - (if part < 1 {
            1int
        } else {
            part
        })
    }
}

impl Compressor {
    pub open spec fn wf(&self) -> bool {
        &&& -MAX_DB_MILLI <= self.threshold_db <= MAX_DB_MILLI
        &&& FP_ONE <= self.ratio <= MAX_RATIO_COMP
        &&& 0 <= self.knee_db <= MAX_KNEE_MILLI
        &&& 0 <= self.attack_coeff < FP_ONE
        &&& 0 <= self.release_coeff < FP_ONE
        &&& -MAX_DB_MILLI <= self.makeup_gain_db <= MAX_DB_MILLI
        &&& 1 <= self.sample_rate <= MAX_SAMPLE_RATE
        &&& 1 <= self.rms_buffer@.len() <= 30_000
        &&& (self.rms_index as int) < self.rms_buffer@.len()
        &&& forall|i: int|
            0 <= i < self.rms_buffer@.len() ==> 0 <= #[trigger] self.rms_buffer@[i]
                <= 1_000_000_000_000
        &&& self.rms_sum == seq_sum(self.rms_buffer@)
        &&& 0 <= self.envelope_db <= 2 * MAX_DB_MILLI + MAX_KNEE_MILLI
    }

    /// A compressor with a cleared 30 ms detector window and no
    /// reduction pending. Parameters out of range are clamped.
    pub fn new(
        threshold_db: i64,
        ratio: i64,
        attack_micros: i64,
        release_micros: i64,
        makeup_gain_db: i64,
        sample_rate: u32,
    ) -> (r: Self)
        ensures
            r.wf(),
            r.threshold_db as int == spec_clamp(
                threshold_db as int,
                -MAX_DB_MILLI as int,
                MAX_DB_MILLI as int,
            ),
            r.ratio as int == spec_clamp(ratio as int, FP_ONE as int, MAX_RATIO_COMP as int),
            r.knee_db == 0,
            r.makeup_gain_db as int == spec_clamp(
                makeup_gain_db as int,
                -MAX_DB_MILLI as int,
                MAX_DB_MILLI as int,
            ),
            r.envelope_db == 0,
            r.attack_coeff == spec_one_pole_coeff(
                spec_clamp(attack_micros as int, 0, MAX_TIME_MICROS as int),
                r.sample_rate as int,
            ),
            r.release_coeff == spec_one_pole_coeff(
                spec_clamp(release_micros as int, 0, MAX_TIME_MICROS as int),
                r.sample_rate as int,
            ),
            r.rms_buffer@.len() == (if 3 * (r.sample_rate as int) / 100 < 1 {
                1int
            } else {
                3 * (r.sample_rate as int) / 100
            }),
            r.sample_rate as int == spec_clamp(sample_rate as int, 1, MAX_SAMPLE_RATE as int),
    {
        let rate: u32 = if sample_rate < 1 {
            1
        } else if sample_rate > MAX_SAMPLE_RATE {
            MAX_SAMPLE_RATE
        } else {
            sample_rate
        };
        let window = 3 * (rate as i64) / 100;
        let wlen: usize = if window < 1 {
            1
        } else {
            window as usize
        };
        let mut buf: Vec<i64> = Vec::new();
        let mut k: usize = 0;
        while k < wlen
            invariant
                k <= wlen,
                buf@.len() == k,
                forall|i: int| 0 <= i < k ==> #[trigger] buf@[i] == 0,
                seq_sum(buf@) == 0,
            decreases wlen - k,
        {
            proof {
                assert(buf@.push(0).drop_last() =~= buf@);
            }
            buf.push(0);
            k = k + 1;
        }
        Compressor {
            threshold_db: crate::fixed::clamp_i64(threshold_db, -MAX_DB_MILLI, MAX_DB_MILLI),
            ratio: crate::fixed::clamp_i64(ratio, FP_ONE, MAX_RATIO_COMP),
            knee_db: 0,
            attack_coeff: one_pole_coeff(
                crate::fixed::clamp_i64(attack_micros, 0, MAX_TIME_MICROS),
                rate,
            ),
            release_coeff: one_pole_coeff(
                crate::fixed::clamp_i64(release_micros, 0, MAX_TIME_MICROS),
                rate,
            ),
            makeup_gain_db: crate::fixed::clamp_i64(makeup_gain_db, -MAX_DB_MILLI, MAX_DB_MILLI),
            sample_rate: rate,
            rms_buffer: buf,
            rms_sum: 0,
            rms_index: 0,
            envelope_db: 0,
        }
    }

    /// Slide `x` squared into the detector window and return the RMS
    /// level of the window, in micro-units.
    fn update_rms(&mut self, x: i64) -> (r: i64)
        requires
            old(self).wf(),
            -SAMPLE_LIMIT <= x <= SAMPLE_LIMIT,
        ensures
            final(self).wf(),
            r == spec_rms_next(*old(self), x as int),
            0 <= r <= SAMPLE_LIMIT,
            *final(self) == (Compressor {
                rms_buffer: final(self).rms_buffer,
                rms_sum: final(self).rms_sum,
                rms_index: final(self).rms_index,
                ..*old(self)
            }),
            final(self).rms_buffer@ == old(self).rms_buffer@.update(
                old(self).rms_index as int,
                spec_square_micro(x as int) as i64,
            ),
    {
        let ax = if x < 0 {
            -x
        } else {
            x
        };
        proof {
            assert(0 <= ax * ax <= 1_000_000_000_000_000_000) by (nonlinear_arith)
                requires
                    0 <= ax <= SAMPLE_LIMIT,
                    SAMPLE_LIMIT == 1_000_000_000,
            ;
            assert(ax as int * ax as int == x as int * x as int) by (nonlinear_arith)
                requires
                    ax == if x < 0 {
                        -x as int
                    } else {
                        x as int
                    },
            ;
        }
        let sq = scale(ax, ax, FP_ONE);
        let slot = self.rms_buffer[self.rms_index];
        proof {
            lemma_seq_sum_bounds(self.rms_buffer@, 1_000_000_000_000);
            lemma_seq_sum_update(
                self.rms_buffer@,
                self.rms_index as int,
                spec_square_micro(x as int) as i64,
            );
        }
        let new_sum = self.rms_sum - slot + sq;
        self.rms_sum = new_sum;
        self.rms_buffer.set(self.rms_index, sq);
        let wlen = self.rms_buffer.len();
        self.rms_index = if self.rms_index + 1 >= wlen {
            0
        } else {
            self.rms_index + 1
        };
        proof {
            lemma_seq_sum_bounds(self.rms_buffer@, 1_000_000_000_000);
        }
        let mean = new_sum / (wlen as i64);
        proof {
            assert(0 <= mean <= 1_000_000_000_000) by (nonlinear_arith)
                requires
                    0 <= new_sum <= (wlen as int) * 1_000_000_000_000,
                    1 <= wlen,
                    mean == new_sum as int / wlen as int,
            ;
        }
        let scaled = mean * FP_ONE;
        let root = isqrt(scaled);
        proof {
            assert(root * root <= scaled && (root + 1) * (root + 1) > scaled);
            let w = spec_rms_next(*old(self), x as int);
            assert(w == root as int) by {
                crate::fixed::lemma_isqrt_unique(scaled as int, root as int, w);
            }
            assert(root <= SAMPLE_LIMIT) by (nonlinear_arith)
                requires
                    0 <= root,
                    root * root <= 1_000_000_000_000_000_000,
            ;
        }
        root
    }

    /// The target reduction for a detector level, per `spec_gain_reduction`.
    fn gain_reduction(&self, input_db: i64) -> (r: i64)
        requires
            self.wf(),
            MIN_DB_MILLI <= input_db <= 70_000,
        ensures
            r == spec_gain_reduction(*self, input_db as int),
            0 <= r <= 2 * MAX_DB_MILLI + MAX_KNEE_MILLI,
    {
        let over = input_db - self.threshold_db;
        proof {
            assert(0 <= tdiv(FP_ONE as int * FP_ONE as int, self.ratio as int) <= FP_ONE)
                by (nonlinear_arith)
                requires
                    FP_ONE <= self.ratio,
                    FP_ONE == 1_000_000,
            ;
        }
        let slope = FP_ONE - scale(FP_ONE, FP_ONE, self.ratio);
        if self.knee_db > 0 && 2 * over > -self.knee_db && 2 * over < self.knee_db {
            let edge = over + self.knee_db / 2;
            proof {
                assert(0 <= edge * edge <= 576_000_000) by (nonlinear_arith)
                    requires
                        0 <= edge <= MAX_KNEE_MILLI,
                        MAX_KNEE_MILLI == 24_000,
                ;
                assert(0 <= tdiv(edge as int * edge as int, 2 * self.knee_db as int)
                    <= MAX_KNEE_MILLI) by (nonlinear_arith)
                    requires
                        0 <= edge < self.knee_db,
                        0 < self.knee_db <= MAX_KNEE_MILLI,
                ;
            }
            let quad = scale(edge, edge, 2 * self.knee_db);
            proof {
                assert(0 <= tdiv(quad as int * slope as int, FP_ONE as int) <= quad as int)
                    by (nonlinear_arith)
                    requires
                        0 <= quad,
                        0 <= slope <= FP_ONE,
                        FP_ONE == 1_000_000,
                ;
            }
            scale(quad, slope, FP_ONE)
        } else if over > 0 {
            proof {
                assert(0 <= tdiv(over as int * slope as int, FP_ONE as int) <= over as int)
                    by (nonlinear_arith)
                    requires
                        0 < over <= 2 * MAX_DB_MILLI + MAX_KNEE_MILLI,
                        0 <= slope <= FP_ONE,
                        FP_ONE == 1_000_000,
                ;
            }
            scale(over, slope, FP_ONE)
        } else {
            0
        }
    }

    /// One sample through the compressor, per `spec_compressor_out`.
    pub fn process(&mut self, input: i64) -> (r: i64)
        requires
            old(self).wf(),
            -SAMPLE_LIMIT <= input <= SAMPLE_LIMIT,
        ensures
            final(self).wf(),
            r == spec_compressor_out(*old(self), input as int),
            -SAMPLE_LIMIT <= r <= SAMPLE_LIMIT,
            final(self).envelope_db == spec_envelope_next(
                *old(self),
                spec_gain_reduction(
                    *old(self),
                    spec_linear_to_db(spec_rms_next(*old(self), input as int)),
                ),
            ),
            *final(self) == (Compressor {
                rms_buffer: final(self).rms_buffer,
                rms_sum: final(self).rms_sum,
                rms_index: final(self).rms_index,
                envelope_db: final(self).envelope_db,
                ..*old(self)
            }),
            final(self).rms_buffer@ == old(self).rms_buffer@.update(
                old(self).rms_index as int,
                spec_square_micro(input as int) as i64,
            ),
    {
        let rms = self.update_rms(input);
        let input_db = linear_to_db(rms);
        let target = self.gain_reduction(input_db);
        let diff = self.envelope_db - target;
        let coeff = if target > self.envelope_db {
            self.attack_coeff
        } else {
            self.release_coeff
        };
        proof {
            assert(-264_000_000_000 <= coeff * diff <= 264_000_000_000) by (nonlinear_arith)
                requires
                    0 <= coeff <= FP_ONE,
                    -264_000 <= diff <= 264_000,
                    FP_ONE == 1_000_000,
            ;
            assert(tdiv(coeff as int * diff as int, FP_ONE as int) <= 264_000
                && tdiv(coeff as int * diff as int, FP_ONE as int) >= -264_000)
                by (nonlinear_arith)
                requires
                    -264_000_000_000 <= coeff * diff <= 264_000_000_000,
                    FP_ONE == 1_000_000,
            ;
        }
        let smoothed = scale_signed(coeff, diff, FP_ONE);
        let env = target + smoothed;
        proof {
            lemma_envelope_in_range(*old(self), target as int, env as int);
        }
        self.envelope_db = env;
        let gain_db = self.makeup_gain_db - env;
        let gain = db_to_linear(gain_db);
        proof {
            crate::fixed::lemma_mul_div_bound(
                input as int,
                gain as int,
                FP_ONE as int,
                SAMPLE_LIMIT as int,
            );
            assert(tdiv(SAMPLE_LIMIT as int * gain as int, FP_ONE as int)
                <= 1_000_000_000_000_000_000) by (nonlinear_arith)
                requires
                    0 <= gain <= MAX_GAIN_LIN,
                    MAX_GAIN_LIN == 1_000_000_000_000,
                    SAMPLE_LIMIT == 1_000_000_000,
                    FP_ONE == 1_000_000,
            ;
        }
        let raw = scale(input, gain, FP_ONE);
        crate::fixed::saturate(raw)
    }

    pub fn get_threshold(&self) -> (r: i64)
        ensures
            r == self.threshold_db,
    {
        self.threshold_db
    }

    pub fn set_threshold(&mut self, new_threshold: i64)
        ensures
            *final(self) == (Compressor {
                threshold_db: spec_clamp(
                    new_threshold as int,
                    -MAX_DB_MILLI as int,
                    MAX_DB_MILLI as int,
                ) as i64,
                ..*old(self)
            }),
            old(self).wf() ==> final(self).wf(),
    {
        self.threshold_db = crate::fixed::clamp_i64(new_threshold, -MAX_DB_MILLI, MAX_DB_MILLI);
    }

    /// Set the soft-knee width, clamped into `[0, MAX_KNEE_MILLI]`.
    pub fn set_knee(&mut self, knee_db: i64)
        ensures
            *final(self) == (Compressor {
                knee_db: spec_clamp(knee_db as int, 0, MAX_KNEE_MILLI as int) as i64,
                ..*old(self)
            }),
            old(self).wf() ==> final(self).wf(),
    {
        self.knee_db = crate::fixed::clamp_i64(knee_db, 0, MAX_KNEE_MILLI);
    }

    pub fn get_knee(&self) -> (r: i64)
        ensures
            r == self.knee_db,
    {
        self.knee_db
    }

    /// The stage's display name.
    pub fn name(&self) -> &'static str {
        "SimpleRMSCompressor"
    }
}

/// A first-order estimate of `exp(-1 / (time * rate))` in micro-units.
fn one_pole_coeff(time_micros: i64, rate: u32) -> (r: i64)
    requires
        0 <= time_micros <= MAX_TIME_MICROS,
        1 <= rate <= MAX_SAMPLE_RATE,
    ensures
        r == spec_one_pole_coeff(time_micros as int, rate as int),
        0 <= r < FP_ONE,
{
    proof {
        assert(0 <= time_micros * rate <= 600_000_000_000_000) by (nonlinear_arith)
            requires
                0 <= time_micros <= MAX_TIME_MICROS,
                1 <= rate <= MAX_SAMPLE_RATE,
        ;
    }
    let samples = time_micros * (rate as i64) / 1_000_000;
    if samples <= 1 {
        0
    } else {
        let part = FP_ONE / samples;
        FP_ONE - (if part < 1 {
            1
        } else {
            part
        })
    }
}

/// The smoothed envelope stays within `[0, 2 * MAX_DB_MILLI + MAX_KNEE_MILLI]`.
proof fn lemma_envelope_in_range(c: Compressor, target: int, env: int)
    requires
        c.wf(),
        0 <= target <= 2 * MAX_DB_MILLI + MAX_KNEE_MILLI,
        env == spec_envelope_next(c, target),
    ensures
        0 <= env <= 2 * MAX_DB_MILLI + MAX_KNEE_MILLI,
{
    let coeff = if target > c.envelope_db {
        c.attack_coeff as int
    } else {
        c.release_coeff as int
    };
    let diff = c.envelope_db - target;
    assert(diff >= 0 ==> 0 <= tdiv(coeff * diff, FP_ONE as int) <= diff) by (nonlinear_arith)
        requires
            0 <= coeff < FP_ONE,
            FP_ONE == 1_000_000,
    ;
    assert(diff < 0 ==> diff <= tdiv(coeff * diff, FP_ONE as int) <= 0) by (nonlinear_arith)
        requires
            0 <= coeff < FP_ONE,
            FP_ONE == 1_000_000,
    ;
}

/// Law: a signal whose detector level sits at or below the lower knee
/// edge of the threshold gets no reduction; if no reduction is pending
/// either, the compressor applies exactly the make-up gain.
pub proof fn lemma_transparent_below_threshold(c: Compressor, x: int)
    requires
        c.wf(),
        c.envelope_db == 0,
        -SAMPLE_LIMIT <= x <= SAMPLE_LIMIT,
        2 * (spec_linear_to_db(spec_rms_next(c, x)) - c.threshold_db) <= -c.knee_db,
        spec_linear_to_db(spec_rms_next(c, x)) <= c.threshold_db,
    ensures
        spec_gain_reduction(c, spec_linear_to_db(spec_rms_next(c, x))) == 0,
        spec_compressor_out(c, x) == sat(
            mul_div(x, spec_db_to_linear(c.makeup_gain_db as int), FP_ONE as int),
        ),
{
    let input_db = spec_linear_to_db(spec_rms_next(c, x));
    assert(spec_gain_reduction(c, input_db) == 0);
    assert(spec_envelope_next(c, 0) == 0 + tdiv(
        (if 0 > c.envelope_db {
            c.attack_coeff as int
        } else {
            c.release_coeff as int
        }) * (c.envelope_db - 0),
        FP_ONE as int,
    ));
    assert(tdiv(c.release_coeff as int * 0, FP_ONE as int) == 0) by (nonlinear_arith);
}

} // verus!
