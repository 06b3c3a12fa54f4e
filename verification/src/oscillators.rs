//! Waveform generators: pure, stateless maps from phase to a sample.
//!
//! Phase runs over one cycle as an integer in `[0, PHASE_ONE)`. Every
//! generator returns a sample within `[-FP_ONE, FP_ONE]`.

use vstd::prelude::*;

use crate::fixed::{
    spec_sine, lemma_sine_bounds, sine_at, mul_div, tdiv, scale, FP_ONE, PHASE_HALF, PHASE_ONE,
};

verus! {

/// Largest admitted FM modulation index and ratio: one hundred, scaled.
pub const FM_PARAM_LIMIT: i64 = 100_000_000;

/// A pure sine wave.
#[derive(Clone, Copy, Debug, PartialEq, Eq, Structural)]
pub struct SineOscillator;

/// A square wave: full scale on the first half cycle, negative on the second.
#[derive(Clone, Copy, Debug, PartialEq, Eq, Structural)]
pub struct SquareOscillator;

/// A rising sawtooth from `-FP_ONE` to `FP_ONE` over one cycle.
#[derive(Clone, Copy, Debug, PartialEq, Eq, Structural)]
pub struct SawtoothOscillator;

/// Two-operator phase modulation with a fixed extra harmonic and a soft clip.
#[derive(Clone, Copy, Debug, PartialEq, Eq, Structural)]
pub struct FmOscillator {
    /// Modulation depth, in cycle fractions scaled by `FP_ONE`.
    pub mod_index: i64,
    /// Modulator/carrier frequency ratio, scaled by `FP_ONE`.
    pub mod_ratio: i64,
}

/// A drawbar organ voice: a fixed mix of harmonics of the fundamental.
#[derive(Clone, Copy, Debug, PartialEq, Eq, Structural)]
pub struct HammondOscillator;

pub open spec fn spec_square_sample(p: int) -> int {
    if p < PHASE_HALF {
        FP_ONE as int
    } else {
        -FP_ONE as int
    }
}

pub open spec fn spec_sawtooth_sample(p: int) -> int {
    2 * p - FP_ONE
}

/// Wrap an offset phase, known to lie within 100 cycles of zero, into one cycle.
pub open spec fn wrap_phase(p: int) -> int {
    (p + 100 * PHASE_ONE) % (PHASE_ONE as int)
}

/// Soft clipping: above 0.7 of full scale the remainder is scaled by 0.3.
pub open spec fn spec_soft_clip(out: int) -> int {
    if out > 700_000 {
        700_000 + (out - 700_000) * 3 / 10
    } else if out < -700_000 {
        -700_000 - ((-out - 700_000) * 3 / 10)
    } else {
        out
    }
}

/// The FM voice's modulated carrier phase: the raw phase offset by a
/// sine of the modulator phase, scaled by the modulation depth.
pub open spec fn spec_fm_carrier_phase(ix: int, ratio: int, p: int) -> int {
    let mp = wrap_phase(mul_div(p, ratio, FP_ONE as int));
    let modulation = mul_div(spec_sine(mp), ix, FP_ONE as int);
    wrap_phase(p + modulation)
}

/// Carrier plus second harmonic at 0.3 gain, before the soft clip.
pub open spec fn spec_fm_mix(mw: int) -> int {
    spec_sine(mw) + tdiv(spec_sine((2 * mw) % (PHASE_ONE as int)) * 3, 10)
}

/// The FM voice: carrier plus harmonic at the modulated phase, clipped.
pub open spec fn spec_fm_sample(ix: int, ratio: int, p: int) -> int {
    spec_soft_clip(spec_fm_mix(spec_fm_carrier_phase(ix, ratio, p)))
}

/// Soft clipping: above 0.7 of full scale the remainder is scaled by 0.3.
fn soft_clip(out: i64) -> (r: i64)
    requires
        -1_300_000 <= out <= 1_300_000,
    ensures
        r == spec_soft_clip(out as int),
        -FP_ONE <= r <= FP_ONE,
{
    if out > 700_000 {
        700_000 + (out - 700_000) * 3 / 10
    } else if out < -700_000 {
        -700_000 - ((-out - 700_000) * 3 / 10)
    } else {
        out
    }
}

/// One drawbar: the sine at a multiple of the phase, at a given gain.
pub open spec fn drawbar(p: int, mult: int, gain: int) -> int {
    mul_div(spec_sine((p * mult) % (PHASE_ONE as int)), gain, FP_ONE as int)
}

/// The organ voice: nine drawbars summed, scaled by 0.3 against saturation.
/// The sub-harmonic bar runs at half the fundamental's frequency.
pub open spec fn spec_hammond_sample(p: int) -> int {
    let sum = drawbar(p / 2, 1, 600_000) + drawbar(p, 3, 400_000) + drawbar(p, 1, 800_000)
        + drawbar(p, 2, 500_000) + drawbar(p, 6, 300_000) + drawbar(p, 4, 250_000)
        + drawbar(p, 5, 200_000) + drawbar(p, 8, 150_000) + drawbar(p, 8, 100_000);
    tdiv(sum * 3, 10)
}

impl SineOscillator {
    /// The sample at a phase: the sine itself.
    pub fn sample(&self, phase: i64) -> (r: i64)
        requires
            0 <= phase < PHASE_ONE,
        ensures
            r == spec_sine(phase as int),
            -FP_ONE <= r <= FP_ONE,
    {
        sine_at(phase)
    }

    /// The voice's display name.
    pub fn name(&self) -> &'static str {
        "Sine"
    }
}

impl SquareOscillator {
    /// The sample at a phase: full scale, with the sign of the half cycle.
    pub fn sample(&self, phase: i64) -> (r: i64)
        requires
            0 <= phase < PHASE_ONE,
        ensures
            r == spec_square_sample(phase as int),
            -FP_ONE <= r <= FP_ONE,
    {
        if phase < PHASE_HALF {
            FP_ONE
        } else {
            -FP_ONE
        }
    }

    /// The voice's display name.
    pub fn name(&self) -> &'static str {
        "Square"
    }
}

impl SawtoothOscillator {
    /// The sample at a phase: a line from `-FP_ONE` up to `FP_ONE`.
    pub fn sample(&self, phase: i64) -> (r: i64)
        requires
            0 <= phase < PHASE_ONE,
        ensures
            r == spec_sawtooth_sample(phase as int),
            -FP_ONE <= r <= FP_ONE,
    {
        2 * phase - FP_ONE
    }

    /// The voice's display name.
    pub fn name(&self) -> &'static str {
        "Sawtooth"
    }
}

/// Wrap an offset phase, known to lie within 100 cycles of zero, into one cycle.
fn wrap_phase_at(p: i64) -> (r: i64)
    requires
        -100 * PHASE_ONE <= p <= 101 * PHASE_ONE,
    ensures
        r == wrap_phase(p as int),
        0 <= r < PHASE_ONE,
{
    (p + 100 * PHASE_ONE) % PHASE_ONE
}

impl FmOscillator {
    /// A voice with the given modulation depth and frequency ratio,
    /// both clamped into `[0, FM_PARAM_LIMIT]`.
    pub fn new(mod_index: i64, mod_ratio: i64) -> (r: Self)
        ensures
            r.mod_index == crate::fixed::spec_clamp(mod_index as int, 0, FM_PARAM_LIMIT as int),
            r.mod_ratio == crate::fixed::spec_clamp(mod_ratio as int, 0, FM_PARAM_LIMIT as int),
    {
        FmOscillator {
            mod_index: crate::fixed::clamp_i64(mod_index, 0, FM_PARAM_LIMIT),
            mod_ratio: crate::fixed::clamp_i64(mod_ratio, 0, FM_PARAM_LIMIT),
        }
    }

    /// The voice's parameters stay within `[0, FM_PARAM_LIMIT]`.
    pub open spec fn wf(&self) -> bool {
        0 <= self.mod_index <= FM_PARAM_LIMIT && 0 <= self.mod_ratio <= FM_PARAM_LIMIT
    }

    pub fn set_mod_index(&mut self, mod_index: i64)
        ensures
            final(self).mod_index == crate::fixed::spec_clamp(
                mod_index as int,
                0,
                FM_PARAM_LIMIT as int,
            ),
            final(self).mod_ratio == old(self).mod_ratio,
    {
        self.mod_index = crate::fixed::clamp_i64(mod_index, 0, FM_PARAM_LIMIT);
    }

    pub fn set_mod_ratio(&mut self, mod_ratio: i64)
        ensures
            final(self).mod_ratio == crate::fixed::spec_clamp(
                mod_ratio as int,
                0,
                FM_PARAM_LIMIT as int,
            ),
            final(self).mod_index == old(self).mod_index,
    {
        self.mod_ratio = crate::fixed::clamp_i64(mod_ratio, 0, FM_PARAM_LIMIT);
    }

    pub fn get_mod_index(&self) -> (r: i64)
        ensures
            r == self.mod_index,
    {
        self.mod_index
    }

    pub fn get_mod_ratio(&self) -> (r: i64)
        ensures
            r == self.mod_ratio,
    {
        self.mod_ratio
    }

    /// The modulated carrier phase, per `spec_fm_carrier_phase`.
    pub(crate) fn carrier_phase(&self, phase: i64) -> (r: i64)
        requires
            self.wf(),
            0 <= phase < PHASE_ONE,
        ensures
            r == spec_fm_carrier_phase(self.mod_index as int, self.mod_ratio as int, phase as int),
            0 <= r < PHASE_ONE,
    {
        proof {
            assert(0 <= phase * self.mod_ratio <= 100_000_000_000_000) by (nonlinear_arith)
                requires
                    0 <= phase < PHASE_ONE,
                    0 <= self.mod_ratio <= FM_PARAM_LIMIT,
            ;
        }
        let scaled = scale(phase, self.mod_ratio, FP_ONE);
        let mp = wrap_phase_at(scaled);
        proof {
            lemma_sine_bounds(mp as int);
            crate::fixed::lemma_mul_div_bound(
                spec_sine(mp as int),
                self.mod_index as int,
                FP_ONE as int,
                FP_ONE as int,
            );
        }
        let modulation = scale(sine_at(mp), self.mod_index, FP_ONE);
        wrap_phase_at(phase + modulation)
    }

    /// Carrier plus second harmonic, per `spec_fm_mix`.
    fn mix(&self, mw: i64) -> (r: i64)
        requires
            0 <= mw < PHASE_ONE,
        ensures
            r == spec_fm_mix(mw as int),
            -1_300_000 <= r <= 1_300_000,
    {
        proof {
            lemma_sine_bounds(mw as int);
            lemma_sine_bounds((2 * mw) as int % (PHASE_ONE as int));
        }
        let carrier = sine_at(mw);
        let harmonic = scale(sine_at((2 * mw) % PHASE_ONE), 3, 10);
        carrier + harmonic
    }

    /// The sample at a phase, per `spec_fm_sample`.
    pub fn sample(&self, phase: i64) -> (r: i64)
        requires
            self.wf(),
            0 <= phase < PHASE_ONE,
        ensures
            r == spec_fm_sample(self.mod_index as int, self.mod_ratio as int, phase as int),
            -FP_ONE <= r <= FP_ONE,
    {
        let mw = self.carrier_phase(phase);
        soft_clip(self.mix(mw))
    }

    /// The voice's display name.
    pub fn name(&self) -> &'static str {
        "FM"
    }
}

impl HammondOscillator {
    /// One drawbar: the sine at a multiple of the phase, at a given gain.
    fn bar(&self, p: i64, mult: i64, gain: i64) -> (r: i64)
        requires
            0 <= p < PHASE_ONE,
            1 <= mult <= 8,
            0 <= gain <= FP_ONE,
        ensures
            r == drawbar(p as int, mult as int, gain as int),
            -gain <= r <= gain,
    {
        proof {
            assert(0 <= p * mult <= 8_000_000) by (nonlinear_arith)
                requires
                    0 <= p < PHASE_ONE,
                    1 <= mult <= 8,
            ;
        }
        let pm = (p * mult) % PHASE_ONE;
        proof {
            lemma_sine_bounds(pm as int);
            crate::fixed::lemma_mul_div_bound(
                spec_sine(pm as int),
                gain as int,
                FP_ONE as int,
                FP_ONE as int,
            );
        }
        scale(sine_at(pm), gain, FP_ONE)
    }

    /// The sample at a phase, per `spec_hammond_sample`.
    pub fn sample(&self, phase: i64) -> (r: i64)
        requires
            0 <= phase < PHASE_ONE,
        ensures
            r == spec_hammond_sample(phase as int),
            -FP_ONE <= r <= FP_ONE,
    {
        let sub = phase / 2;
        let mut sum: i64 = self.bar(sub, 1, 600_000);
        sum = sum + self.bar(phase, 3, 400_000);
        sum = sum + self.bar(phase, 1, 800_000);
        sum = sum + self.bar(phase, 2, 500_000);
        sum = sum + self.bar(phase, 6, 300_000);
        sum = sum + self.bar(phase, 4, 250_000);
        sum = sum + self.bar(phase, 5, 200_000);
        sum = sum + self.bar(phase, 8, 150_000);
        sum = sum + self.bar(phase, 8, 100_000);
        scale(sum, 3, 10)
    }

    /// The voice's display name.
    pub fn name(&self) -> &'static str {
        "Hammond"
    }
}

/// The closed set of waveform generators a synthesizer can own.
#[derive(Clone, Copy, Debug, PartialEq, Eq, Structural)]
pub enum Oscillator {
    Sine(SineOscillator),
    Square(SquareOscillator),
    Sawtooth(SawtoothOscillator),
    Fm(FmOscillator),
    Hammond(HammondOscillator),
}

/// The sample any generator produces at a phase.
pub open spec fn spec_osc_sample(o: Oscillator, p: int) -> int {
    match o {
        Oscillator::Sine(_) => spec_sine(p),
        Oscillator::Square(_) => spec_square_sample(p),
        Oscillator::Sawtooth(_) => spec_sawtooth_sample(p),
        Oscillator::Fm(f) => spec_fm_sample(f.mod_index as int, f.mod_ratio as int, p),
        Oscillator::Hammond(_) => spec_hammond_sample(p),
    }
}

impl Oscillator {
    /// FM parameters, when present, stay within their limits.
    pub open spec fn wf(&self) -> bool {
        match *self {
            Oscillator::Fm(f) => f.wf(),
            _ => true,
        }
    }

    /// The sample at a phase, per `spec_osc_sample`.
    pub fn sample(&self, phase: i64) -> (r: i64)
        requires
            self.wf(),
            0 <= phase < PHASE_ONE,
        ensures
            r == spec_osc_sample(*self, phase as int),
            -FP_ONE <= r <= FP_ONE,
    {
        match self {
            Oscillator::Sine(o) => o.sample(phase),
            Oscillator::Square(o) => o.sample(phase),
            Oscillator::Sawtooth(o) => o.sample(phase),
            Oscillator::Fm(o) => o.sample(phase),
            Oscillator::Hammond(o) => o.sample(phase),
        }
    }

    /// The voice's display name.
    pub fn name(&self) -> &'static str {
        match self {
            Oscillator::Sine(o) => o.name(),
            Oscillator::Square(o) => o.name(),
            Oscillator::Sawtooth(o) => o.name(),
            Oscillator::Fm(o) => o.name(),
            Oscillator::Hammond(o) => o.name(),
        }
    }
}

} // verus!
