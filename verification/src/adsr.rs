//! The ADSR envelope generator: one per voice.
//!
//! Levels run over `[0, LEVEL_ONE]`; times are microseconds. Every
//! transition is mirrored by a spec function, so the envelope laws —
//! the level moves monotonically within each stage, and a released
//! envelope reaches `Idle` in finitely many samples — are proved below
//! over the very transitions the executable code takes.

use vstd::prelude::*;

use crate::fixed::{mul_div, scale, tdiv, LEVEL_ONE, MAX_SAMPLE_RATE, MAX_TIME_MICROS, SAMPLE_LIMIT};

verus! {

/// Shape of each envelope segment: a per-sample additive step, or a
/// per-sample multiplicative ratio.
#[derive(Clone, Copy, Debug, PartialEq, Eq, Structural)]
pub enum EnvelopeCurve {
    Linear,
    Exponential,
}

/// The envelope's stage.
#[derive(Clone, Copy, Debug, PartialEq, Eq, Structural)]
pub enum EnvelopeStage {
    Idle,
    Attack,
    Decay,
    Sustain,
    Release,
}

/// Floor for the starting level of an exponential segment, so the ratio
/// is computed from a positive base.
pub const EXP_START_FLOOR: i64 = 1_000;

/// An exponential release snaps to zero below this level.
pub const EXP_RELEASE_SNAP: i64 = 100_000;

/// Largest admitted multiplicative ratio: four, scaled by `LEVEL_ONE`.
pub const MAX_RATIO: i64 = 4_000_000_000;

#[derive(Clone, Copy, Debug, PartialEq, Eq, Structural)]
pub struct ADSR {
    /// Attack time, µs.
    pub attack: i64,
    /// Decay time, µs.
    pub decay: i64,
    /// Sustain level, in `[0, LEVEL_ONE]`.
    pub sustain: i64,
    /// Release time, µs.
    pub release: i64,
    /// Sample rate, Hz.
    pub sample_rate: u32,
    pub curve: EnvelopeCurve,
    pub stage: EnvelopeStage,
    /// Current level, in `[0, LEVEL_ONE]`.
    pub level: i64,
    /// Per-sample increment (linear) or scaled ratio (exponential).
    pub step: i64,
}

/// How many samples a time span covers.
pub open spec fn spec_samples(time: int, rate: int) -> int {
    (time * rate) / 1_000_000
}

/// The step a segment toward `target` over `time` uses, from state `s`.
/// A linear step is at least one unit of progress when there is distance
/// to cover; an exponential ratio is a first-order fixed-point estimate
/// of the per-sample root, clamped into `[0, MAX_RATIO]`.
pub open spec fn spec_segment_step(s: ADSR, target: int, samples: int) -> int {
    match s.curve {
        EnvelopeCurve::Linear => {
            if target > s.level {
                let d = (target - s.level) / samples;
                if d < 1 {
                    1
                } else {
                    d
                }
            } else if target < s.level {
                let d = (s.level - target) / samples;
                if d < 1 {
                    -1
                } else {
                    -d
                }
            } else {
                0
            }
        },
        EnvelopeCurve::Exponential => {
            let start = if s.level > EXP_START_FLOOR {
                s.level as int
            } else {
                EXP_START_FLOOR as int
            };
            let ratio = LEVEL_ONE + mul_div(target - s.level, LEVEL_ONE as int, start * samples);
            crate::fixed::spec_clamp(ratio, 0, MAX_RATIO as int)
        },
    }
}

/// Re-aim the envelope at `target` over `time`: the state after `calc_step`.
pub open spec fn spec_calc_step(s: ADSR, target: int, time: int) -> ADSR {
    let samples = spec_samples(time, s.sample_rate as int);
    if time <= 0 || samples <= 0 {
        ADSR {
            level: target as i64,
            step: match s.curve {
                EnvelopeCurve::Linear => 0,
                EnvelopeCurve::Exponential => LEVEL_ONE,
            },
            ..s
        }
    } else {
        ADSR { step: spec_segment_step(s, target, samples) as i64, ..s }
    }
}

/// The raw next level of one advance within a stage, before any snap:
/// additive for a linear curve; for an exponential curve, the scaled
/// product with a one-unit progress guard toward `target`.
pub open spec fn spec_next_level(s: ADSR, toward_one: bool) -> int {
    match s.curve {
        EnvelopeCurve::Linear => s.level + s.step,
        EnvelopeCurve::Exponential => {
            let m = mul_div(s.level as int, s.step as int, LEVEL_ONE as int);
            if toward_one {
                if m < s.level + 1 {
                    s.level + 1
                } else {
                    m
                }
            } else {
                if m > s.level - 1 {
                    s.level - 1
                } else {
                    m
                }
            }
        },
    }
}

/// The state after advancing one sample.
pub open spec fn spec_advance(s: ADSR) -> ADSR {
    match s.stage {
        EnvelopeStage::Idle => s,
        EnvelopeStage::Sustain => s,
        EnvelopeStage::Attack => {
            let lvl = spec_next_level(s, true);
            if lvl >= LEVEL_ONE {
                let capped = ADSR { level: LEVEL_ONE, stage: EnvelopeStage::Decay, ..s };
                spec_calc_step(capped, s.sustain as int, s.decay as int)
            } else {
                ADSR { level: lvl as i64, ..s }
            }
        },
        EnvelopeStage::Decay => {
            let lvl = spec_next_level(s, false);
            if lvl <= s.sustain {
                ADSR { level: s.sustain, stage: EnvelopeStage::Sustain, ..s }
            } else {
                ADSR { level: lvl as i64, ..s }
            }
        },
        EnvelopeStage::Release => {
            let lvl = spec_next_level(s, false);
            let snap = match s.curve {
                EnvelopeCurve::Linear => 0,
                EnvelopeCurve::Exponential => EXP_RELEASE_SNAP as int,
            };
            if lvl <= snap {
                ADSR { level: 0, stage: EnvelopeStage::Idle, ..s }
            } else {
                ADSR { level: lvl as i64, ..s }
            }
        },
    }
}

/// The state after `note_on`: attack toward full level from the current
/// level (an exponential segment first floors it to a positive base).
pub open spec fn spec_note_on(s: ADSR) -> ADSR {
    let floored = match s.curve {
        EnvelopeCurve::Linear => s.level as int,
        EnvelopeCurve::Exponential => {
            if s.level < EXP_START_FLOOR {
                EXP_START_FLOOR as int
            } else {
                s.level as int
            }
        },
    };
    let armed = ADSR { stage: EnvelopeStage::Attack, level: floored as i64, ..s };
    spec_calc_step(armed, LEVEL_ONE as int, s.attack as int)
}

/// The state after `note_off`: release toward zero from the current level.
pub open spec fn spec_note_off(s: ADSR) -> ADSR {
    let armed = ADSR { stage: EnvelopeStage::Release, ..s };
    spec_calc_step(armed, 0, s.release as int)
}

impl ADSR {
    /// Field bounds alone: what every parameter and the level must satisfy.
    pub open spec fn bounds_ok(self) -> bool {
        &&& 0 <= self.attack <= MAX_TIME_MICROS
        &&& 0 <= self.decay <= MAX_TIME_MICROS
        &&& 0 <= self.release <= MAX_TIME_MICROS
        &&& 0 <= self.sustain <= LEVEL_ONE
        &&& 1 <= self.sample_rate <= MAX_SAMPLE_RATE
        &&& 0 <= self.level <= LEVEL_ONE
    }

    /// Field bounds, and the step's direction agreeing with the stage.
    pub open spec fn inv(self) -> bool {
        &&& self.bounds_ok()
        &&& match self.curve {
            EnvelopeCurve::Linear => -LEVEL_ONE <= self.step <= LEVEL_ONE,
            EnvelopeCurve::Exponential => 0 <= self.step <= MAX_RATIO,
        }
        &&& self.stage == EnvelopeStage::Attack ==> match self.curve {
            EnvelopeCurve::Linear => self.step >= 0,
            EnvelopeCurve::Exponential => self.step >= LEVEL_ONE,
        }
        &&& (self.stage == EnvelopeStage::Decay || self.stage == EnvelopeStage::Release)
            ==> match self.curve {
            EnvelopeCurve::Linear => self.step <= 0,
            EnvelopeCurve::Exponential => self.step <= LEVEL_ONE,
        }
    }

    /// A fresh, idle envelope with the default segment times.
    pub fn new(sample_rate: u32) -> (r: Self)
        ensures
            r.inv(),
            r.stage == EnvelopeStage::Idle,
            r.level == 0,
            r.attack == 500_000,
            r.decay == 100_000,
            r.sustain == 700_000_000,
            r.release == 200_000,
            r.curve == EnvelopeCurve::Linear,
            r.step == 0,
            r.sample_rate as int == crate::fixed::spec_clamp(
                sample_rate as int,
                1,
                MAX_SAMPLE_RATE as int,
            ),
    {
        let rate = if sample_rate < 1 {
            1
        } else if sample_rate > MAX_SAMPLE_RATE {
            MAX_SAMPLE_RATE
        } else {
            sample_rate
        };
        ADSR {
            attack: 500_000,
            decay: 100_000,
            sustain: 700_000_000,
            release: 200_000,
            sample_rate: rate,
            curve: EnvelopeCurve::Linear,
            stage: EnvelopeStage::Idle,
            level: 0,
            step: 0,
        }
    }

    /// Re-aim the envelope at `target` over `time`, per `spec_calc_step`.
    fn calc_step(&mut self, target: i64, time: i64)
        requires
            old(self).bounds_ok(),
            0 <= target <= LEVEL_ONE,
            0 <= time <= MAX_TIME_MICROS,
        ensures
            *final(self) == spec_calc_step(*old(self), target as int, time as int),
    {
        proof {
            assert(0 <= time * (self.sample_rate as int) <= 600_000_000_000_000)
                by (nonlinear_arith)
                requires
                    0 <= time <= MAX_TIME_MICROS,
                    1 <= self.sample_rate <= MAX_SAMPLE_RATE,
            ;
        }
        let samples = time * (self.sample_rate as i64) / 1_000_000;
        if time <= 0 || samples <= 0 {
            self.level = target;
            self.step = match self.curve {
                EnvelopeCurve::Linear => 0,
                EnvelopeCurve::Exponential => LEVEL_ONE,
            };
            return ;
        }
        match self.curve {
            EnvelopeCurve::Linear => {
                if target > self.level {
                    let d = (target - self.level) / samples;
                    self.step = if d < 1 {
                        1
                    } else {
                        d
                    };
                } else if target < self.level {
                    let d = (self.level - target) / samples;
                    self.step = if d < 1 {
                        -1
                    } else {
                        -d
                    };
                } else {
                    self.step = 0;
                }
            },
            EnvelopeCurve::Exponential => {
                let start = if self.level > EXP_START_FLOOR {
                    self.level
                } else {
                    EXP_START_FLOOR
                };
                proof {
                    assert(samples <= 600_000_000);
                    assert(0 < start * samples <= 600_000_000_000_000_000)
                        by (nonlinear_arith)
                        requires
                            EXP_START_FLOOR <= start <= LEVEL_ONE,
                            0 < samples <= 600_000_000,
                    ;
                    crate::fixed::lemma_mul_div_bound(
                        target - self.level,
                        LEVEL_ONE as int,
                        start as int * samples as int,
                        LEVEL_ONE as int,
                    );
                    assert(tdiv(LEVEL_ONE as int * LEVEL_ONE as int, start as int * samples as int)
                        <= LEVEL_ONE as int * LEVEL_ONE as int) by (nonlinear_arith)
                        requires
                            start as int * samples as int >= 1,
                    ;
                }
                let denom = start * samples;
                let raw = scale(target - self.level, LEVEL_ONE, denom);
                let ratio = LEVEL_ONE + raw;
                self.step = crate::fixed::clamp_i64(ratio, 0, MAX_RATIO);
            },
        }
    }

    /// Begin the attack from the current level, per `spec_note_on`.
    pub fn note_on(&mut self)
        requires
            old(self).inv(),
        ensures
            *final(self) == spec_note_on(*old(self)),
            final(self).inv(),
            final(self).stage == EnvelopeStage::Attack,
    {
        self.stage = EnvelopeStage::Attack;
        if let EnvelopeCurve::Exponential = self.curve {
            if self.level < EXP_START_FLOOR {
                self.level = EXP_START_FLOOR;
            }
        }
        let att = self.attack;
        self.calc_step(LEVEL_ONE, att);
        proof {
            lemma_calc_step_inv(
                ADSR {
                    stage: EnvelopeStage::Attack,
                    level: spec_note_on(*old(self)).level,
                    ..*old(self)
                },
                LEVEL_ONE as int,
                old(self).attack as int,
            );
        }
    }

    /// Begin the release from the current level, per `spec_note_off`.
    pub fn note_off(&mut self)
        requires
            old(self).inv(),
        ensures
            *final(self) == spec_note_off(*old(self)),
            final(self).inv(),
            final(self).stage == EnvelopeStage::Release,
    {
        self.stage = EnvelopeStage::Release;
        let rel = self.release;
        self.calc_step(0, rel);
        proof {
            lemma_calc_step_inv(
                ADSR { stage: EnvelopeStage::Release, ..*old(self) },
                0,
                old(self).release as int,
            );
        }
    }

    /// Advance one sample, per `spec_advance`.
    fn advance(&mut self)
        requires
            old(self).inv(),
        ensures
            *final(self) == spec_advance(*old(self)),
            final(self).inv(),
    {
        proof {
            lemma_advance_preserves_inv(*old(self));
        }
        match self.stage {
            EnvelopeStage::Idle => {},
            EnvelopeStage::Sustain => {},
            EnvelopeStage::Attack => {
                let lvl = self.next_level(true);
                if lvl >= LEVEL_ONE {
                    self.level = LEVEL_ONE;
                    self.stage = EnvelopeStage::Decay;
                    let sus = self.sustain;
                    let dec = self.decay;
                    self.calc_step(sus, dec);
                } else {
                    self.level = lvl;
                }
            },
            EnvelopeStage::Decay => {
                let lvl = self.next_level(false);
                if lvl <= self.sustain {
                    self.level = self.sustain;
                    self.stage = EnvelopeStage::Sustain;
                } else {
                    self.level = lvl;
                }
            },
            EnvelopeStage::Release => {
                let lvl = self.next_level(false);
                let snap = match self.curve {
                    EnvelopeCurve::Linear => 0,
                    EnvelopeCurve::Exponential => EXP_RELEASE_SNAP,
                };
                if lvl <= snap {
                    self.level = 0;
                    self.stage = EnvelopeStage::Idle;
                } else {
                    self.level = lvl;
                }
            },
        }
    }

    /// The raw next level within a stage, per `spec_next_level`.
    fn next_level(&self, toward_one: bool) -> (r: i64)
        requires
            self.inv(),
        ensures
            r == spec_next_level(*self, toward_one),
            -LEVEL_ONE - 1 <= r <= 2 * LEVEL_ONE + MAX_RATIO,
    {
        match self.curve {
            EnvelopeCurve::Linear => self.level + self.step,
            EnvelopeCurve::Exponential => {
                proof {
                    crate::fixed::lemma_mul_div_bound(
                        self.level as int,
                        self.step as int,
                        LEVEL_ONE as int,
                        LEVEL_ONE as int,
                    );
                    assert(tdiv(LEVEL_ONE as int * MAX_RATIO as int, LEVEL_ONE as int)
                        == MAX_RATIO as int);
                }
                let m = scale(self.level, self.step, LEVEL_ONE);
                if toward_one {
                    if m < self.level + 1 {
                        self.level + 1
                    } else {
                        m
                    }
                } else {
                    if m > self.level - 1 {
                        self.level - 1
                    } else {
                        m
                    }
                }
            },
        }
    }

    /// Advance one sample and return the new level.
    pub fn get_amplitude(&mut self) -> (r: i64)
        requires
            old(self).inv(),
        ensures
            *final(self) == spec_advance(*old(self)),
            final(self).inv(),
            r == final(self).level,
            0 <= r <= LEVEL_ONE,
    {
        self.advance();
        self.level
    }

    /// Advance one sample and scale the input by the new level.
    pub fn process(&mut self, input: i64) -> (r: i64)
        requires
            old(self).inv(),
            -SAMPLE_LIMIT <= input <= SAMPLE_LIMIT,
        ensures
            *final(self) == spec_advance(*old(self)),
            final(self).inv(),
            r == mul_div(input as int, final(self).level as int, LEVEL_ONE as int),
            -SAMPLE_LIMIT <= r <= SAMPLE_LIMIT,
    {
        self.advance();
        proof {
            crate::fixed::lemma_mul_div_bound(
                input as int,
                self.level as int,
                LEVEL_ONE as int,
                SAMPLE_LIMIT as int,
            );
            assert(tdiv(SAMPLE_LIMIT as int * self.level as int, LEVEL_ONE as int)
                <= SAMPLE_LIMIT as int) by (nonlinear_arith)
                requires
                    0 <= self.level <= LEVEL_ONE,
            ;
        }
        scale(input, self.level, LEVEL_ONE)
    }

    /// Whether the envelope has fully faded out.
    pub fn is_finished(&self) -> (r: bool)
        ensures
            r == (self.stage == EnvelopeStage::Idle),
    {
        matches!(self.stage, EnvelopeStage::Idle)
    }

    pub fn set_attack(&mut self, micros: i64)
        ensures
            *final(self) == (ADSR {
                attack: crate::fixed::spec_clamp(micros as int, 0, MAX_TIME_MICROS as int) as i64,
                ..*old(self)
            }),
            old(self).inv() ==> final(self).inv(),
    {
        self.attack = crate::fixed::clamp_i64(micros, 0, MAX_TIME_MICROS);
    }

    pub fn set_decay(&mut self, micros: i64)
        ensures
            *final(self) == (ADSR {
                decay: crate::fixed::spec_clamp(micros as int, 0, MAX_TIME_MICROS as int) as i64,
                ..*old(self)
            }),
            old(self).inv() ==> final(self).inv(),
    {
        self.decay = crate::fixed::clamp_i64(micros, 0, MAX_TIME_MICROS);
    }

    pub fn set_sustain(&mut self, level: i64)
        ensures
            *final(self) == (ADSR {
                sustain: crate::fixed::spec_clamp(level as int, 0, LEVEL_ONE as int) as i64,
                ..*old(self)
            }),
            old(self).inv() ==> final(self).inv(),
    {
        self.sustain = crate::fixed::clamp_i64(level, 0, LEVEL_ONE);
    }

    pub fn set_release(&mut self, micros: i64)
        ensures
            *final(self) == (ADSR {
                release: crate::fixed::spec_clamp(micros as int, 0, MAX_TIME_MICROS as int) as i64,
                ..*old(self)
            }),
            old(self).inv() ==> final(self).inv(),
    {
        self.release = crate::fixed::clamp_i64(micros, 0, MAX_TIME_MICROS);
    }

    /// Change the segment shape; the pending step is reset to the new
    /// shape's neutral value and is re-aimed by the next note event.
    pub fn set_curve(&mut self, curve: EnvelopeCurve)
        ensures
            final(self).curve == curve,
            final(self).stage == old(self).stage,
            final(self).level == old(self).level,
            final(self).sustain == old(self).sustain,
            old(self).inv() ==> final(self).inv(),
    {
        self.curve = curve;
        self.step = match curve {
            EnvelopeCurve::Linear => 0,
            EnvelopeCurve::Exponential => LEVEL_ONE,
        };
    }

    pub fn set_sample_rate(&mut self, rate: u32)
        ensures
            *final(self) == (ADSR {
                sample_rate: crate::fixed::spec_clamp(rate as int, 1, MAX_SAMPLE_RATE as int) as u32,
                ..*old(self)
            }),
            old(self).inv() ==> final(self).inv(),
    {
        self.sample_rate = if rate < 1 {
            1
        } else if rate > MAX_SAMPLE_RATE {
            MAX_SAMPLE_RATE
        } else {
            rate
        };
    }

    pub fn get_attack(&self) -> (r: i64)
        ensures
            r == self.attack,
    {
        self.attack
    }

    pub fn get_decay(&self) -> (r: i64)
        ensures
            r == self.decay,
    {
        self.decay
    }

    pub fn get_sustain(&self) -> (r: i64)
        ensures
            r == self.sustain,
    {
        self.sustain
    }

    pub fn get_release(&self) -> (r: i64)
        ensures
            r == self.release,
    {
        self.release
    }

    pub fn get_curve(&self) -> (r: EnvelopeCurve)
        ensures
            r == self.curve,
    {
        self.curve
    }

    pub fn get_sample_rate(&self) -> (r: u32)
        ensures
            r == self.sample_rate,
    {
        self.sample_rate
    }

    pub fn get_stage(&self) -> (r: EnvelopeStage)
        ensures
            r == self.stage,
    {
        self.stage
    }

    pub fn get_level(&self) -> (r: i64)
        ensures
            r == self.level,
    {
        self.level
    }

    pub fn get_step(&self) -> (r: i64)
        ensures
            r == self.step,
    {
        self.step
    }
}

/// `spec_calc_step` keeps the invariant, and aims the step toward the
/// target: a step of the right sign for the stage recorded in `s`.
pub proof fn lemma_calc_step_inv(s: ADSR, target: int, time: int)
    requires
        s.bounds_ok(),
        0 <= target <= LEVEL_ONE,
        0 <= time <= MAX_TIME_MICROS,
        s.stage == EnvelopeStage::Attack ==> target >= s.level,
        (s.stage == EnvelopeStage::Decay || s.stage == EnvelopeStage::Release) ==> target
            <= s.level,
    ensures
        spec_calc_step(s, target, time).inv(),
        spec_calc_step(s, target, time).stage == s.stage,
        spec_calc_step(s, target, time).level == if time <= 0 || spec_samples(
            time,
            s.sample_rate as int,
        ) <= 0 {
            target
        } else {
            s.level as int
        },
{
    let samples = spec_samples(time, s.sample_rate as int);
    assert(0 <= time * (s.sample_rate as int) <= 600_000_000_000_000) by (nonlinear_arith)
        requires
            0 <= time <= MAX_TIME_MICROS,
            1 <= s.sample_rate <= MAX_SAMPLE_RATE,
    ;
    assert(0 <= samples <= 600_000_000);
    if time <= 0 || samples <= 0 {
    } else {
        match s.curve {
            EnvelopeCurve::Linear => {
                assert(0 <= (if target > s.level {
                    target - s.level
                } else {
                    s.level - target
                }) / samples <= LEVEL_ONE) by (nonlinear_arith)
                    requires
                        samples >= 1,
                        -LEVEL_ONE <= target - s.level <= LEVEL_ONE,
                ;
            },
            EnvelopeCurve::Exponential => {
                let start = if s.level > EXP_START_FLOOR {
                    s.level as int
                } else {
                    EXP_START_FLOOR as int
                };
                assert(start * samples >= 1) by (nonlinear_arith)
                    requires
                        start >= EXP_START_FLOOR,
                        samples >= 1,
                ;
                crate::fixed::lemma_mul_div_bound(
                    target - s.level,
                    LEVEL_ONE as int,
                    start * samples,
                    LEVEL_ONE as int,
                );
                if target >= s.level {
                    assert(mul_div(target - s.level, LEVEL_ONE as int, start * samples) >= 0)
                        by (nonlinear_arith)
                        requires
                            target - s.level >= 0,
                            start * samples >= 1,
                    ;
                } else {
                    assert(mul_div(target - s.level, LEVEL_ONE as int, start * samples) <= 0)
                        by (nonlinear_arith)
                        requires
                            target - s.level < 0,
                            start * samples >= 1,
                    ;
                }
            },
        }
    }
}

/// One advance keeps the invariant.
pub proof fn lemma_advance_preserves_inv(s: ADSR)
    requires
        s.inv(),
    ensures
        spec_advance(s).inv(),
{
    match s.stage {
        EnvelopeStage::Attack => {
            let lvl = spec_next_level(s, true);
            if lvl >= LEVEL_ONE {
                let capped = ADSR { level: LEVEL_ONE, stage: EnvelopeStage::Decay, ..s };
                lemma_calc_step_inv(capped, s.sustain as int, s.decay as int);
            } else {
                lemma_next_level_bounds(s, true);
            }
        },
        EnvelopeStage::Decay => {
            let lvl = spec_next_level(s, false);
            if lvl <= s.sustain {
            } else {
                lemma_next_level_bounds(s, false);
            }
        },
        EnvelopeStage::Release => {
            let lvl = spec_next_level(s, false);
            if lvl <= 0 {
            } else {
                lemma_next_level_bounds(s, false);
            }
        },
        _ => {},
    }
}

/// Law: within one stage the level moves monotonically, with the stage
/// transitions clamped. It never falls during `Attack` (provided the
/// decay segment is non-degenerate, so the crossing into `Decay` holds
/// the level at exactly full scale rather than jumping straight to the
/// sustain target), never rises during `Decay` while the level sits
/// above the sustain target (the crossing clamps to exactly the sustain
/// level and holds), never rises during `Release` (reaching bottom
/// snaps to exactly zero and goes idle — the envelope is never idle
/// while still sounding), and always stays within `[0, LEVEL_ONE]`.
pub proof fn lemma_level_monotonic(s: ADSR)
    requires
        s.inv(),
        s.stage == EnvelopeStage::Decay ==> s.sustain <= s.level,
    ensures
        s.stage == EnvelopeStage::Attack && spec_advance(s).stage == EnvelopeStage::Attack
            ==> spec_advance(s).level >= s.level,
        s.stage == EnvelopeStage::Attack && s.decay > 0 && spec_samples(
            s.decay as int,
            s.sample_rate as int,
        ) > 0 ==> spec_advance(s).level >= s.level,
        s.stage == EnvelopeStage::Attack ==> (spec_advance(s).stage == EnvelopeStage::Attack
            || spec_advance(s).stage == EnvelopeStage::Decay),
        s.stage == EnvelopeStage::Attack && spec_advance(s).stage == EnvelopeStage::Decay
            && s.decay > 0 && spec_samples(s.decay as int, s.sample_rate as int) > 0
            ==> spec_advance(s).level == LEVEL_ONE,
        s.stage == EnvelopeStage::Decay ==> spec_advance(s).level <= s.level,
        s.stage == EnvelopeStage::Decay ==> (spec_advance(s).stage == EnvelopeStage::Decay
            || (spec_advance(s).stage == EnvelopeStage::Sustain && spec_advance(s).level
            == s.sustain)),
        s.stage == EnvelopeStage::Release ==> spec_advance(s).level <= s.level,
        s.stage == EnvelopeStage::Release ==> (spec_advance(s).stage == EnvelopeStage::Release
            || (spec_advance(s).stage == EnvelopeStage::Idle && spec_advance(s).level == 0)),
        spec_advance(s).stage == EnvelopeStage::Idle && s.stage != EnvelopeStage::Idle
            ==> spec_advance(s).level == 0,
        0 <= spec_advance(s).level <= LEVEL_ONE,
{
    lemma_advance_preserves_inv(s);
    match s.stage {
        EnvelopeStage::Attack => {
            lemma_next_level_bounds(s, true);
            let lvl = spec_next_level(s, true);
            if lvl >= LEVEL_ONE {
                let capped = ADSR { level: LEVEL_ONE, stage: EnvelopeStage::Decay, ..s };
                lemma_calc_step_inv(capped, s.sustain as int, s.decay as int);
            }
        },
        EnvelopeStage::Decay => {
            lemma_next_level_bounds(s, false);
        },
        EnvelopeStage::Release => {
            lemma_next_level_bounds(s, false);
        },
        _ => {},
    }
}

/// The envelope after `n` advances.
pub open spec fn spec_advance_n(s: ADSR, n: nat) -> ADSR
    decreases n,
{
    if n == 0 {
        s
    } else {
        spec_advance(spec_advance_n(s, (n - 1) as nat))
    }
}

/// Advancing once and then `n` times is advancing `n + 1` times.
proof fn lemma_advance_n_shift(s: ADSR, n: nat)
    ensures
        spec_advance_n(spec_advance(s), n) == spec_advance_n(s, n + 1),
    decreases n,
{
    if n == 0 {
        assert(spec_advance_n(s, 1) == spec_advance(spec_advance_n(s, 0)));
    } else {
        lemma_advance_n_shift(s, (n - 1) as nat);
        assert(spec_advance_n(spec_advance(s), n) == spec_advance(
            spec_advance_n(spec_advance(s), (n - 1) as nat),
        ));
        assert(spec_advance_n(s, n + 1) == spec_advance(spec_advance_n(s, n)));
    }
}

/// A releasing envelope whose step makes progress reaches `Idle` within
/// one more advance than its level.
proof fn lemma_release_runs_out(s: ADSR)
    requires
        s.inv(),
        s.stage == EnvelopeStage::Release,
        s.curve == EnvelopeCurve::Linear ==> (s.step <= -1 || s.level == 0),
    ensures
        exists|n: nat|
            n <= s.level + 1 && spec_advance_n(s, n).stage == EnvelopeStage::Idle,
    decreases s.level,
{
    lemma_advance_preserves_inv(s);
    lemma_next_level_bounds(s, false);
    let s1 = spec_advance(s);
    if s1.stage == EnvelopeStage::Idle {
        assert(spec_advance_n(s, 1) == spec_advance(spec_advance_n(s, 0)));
        assert(spec_advance_n(s, 1).stage == EnvelopeStage::Idle);
    } else {
        assert(s1.stage == EnvelopeStage::Release);
        assert(s1.level < s.level);
        lemma_release_runs_out(s1);
        let n1 = choose|n: nat|
            n <= s1.level + 1 && spec_advance_n(s1, n).stage == EnvelopeStage::Idle;
        lemma_advance_n_shift(s, n1);
        assert(spec_advance_n(s, n1 + 1).stage == EnvelopeStage::Idle);
    }
}

/// Law: for any admitted parameters, after `note_off` the envelope
/// reaches `Idle` in finitely many advances — at most one more than the
/// level the release started from.
pub proof fn lemma_release_terminates(s: ADSR)
    requires
        s.inv(),
    ensures
        exists|n: nat|
            n <= spec_note_off(s).level + 1 && spec_advance_n(spec_note_off(s), n).stage
                == EnvelopeStage::Idle,
{
    let armed = ADSR { stage: EnvelopeStage::Release, ..s };
    lemma_calc_step_inv(armed, 0, s.release as int);
    let r = spec_note_off(s);
    let samples = spec_samples(s.release as int, s.sample_rate as int);
    if s.release <= 0 || samples <= 0 {
        assert(r.level == 0);
    } else {
        if s.curve == EnvelopeCurve::Linear && r.level > 0 {
            assert(r.step <= -1);
        }
    }
    lemma_release_runs_out(r);
}

/// The raw next level stays within one step of the current bounds, and
/// moves in the step's direction.
proof fn lemma_next_level_bounds(s: ADSR, toward_one: bool)
    requires
        s.inv(),
    ensures
        match s.curve {
            EnvelopeCurve::Linear => spec_next_level(s, toward_one) == s.level + s.step,
            EnvelopeCurve::Exponential => true,
        },
        toward_one && (s.curve == EnvelopeCurve::Exponential) ==> spec_next_level(s, toward_one)
            > s.level,
        !toward_one && (s.curve == EnvelopeCurve::Exponential) ==> spec_next_level(s, toward_one)
            < s.level,
{
    if s.curve == EnvelopeCurve::Exponential {
        crate::fixed::lemma_mul_div_bound(
            s.level as int,
            s.step as int,
            LEVEL_ONE as int,
            LEVEL_ONE as int,
        );
    }
}

} // verus!
