//! Simple single-waveform synthesizers: each maps a phase directly to a
//! sample, with a handful of tone parameters and no processing chain.

use vstd::prelude::*;

use crate::fixed::{mul_div, scale, spec_clamp, spec_sine, sine_at, FP_ONE, PHASE_ONE};
use crate::oscillators::{spec_fm_carrier_phase, FmOscillator, FM_PARAM_LIMIT};

verus! {

/// A plain sine voice with an output amplitude.
#[derive(Clone, Copy, Debug, PartialEq, Eq, Structural)]
pub struct SineSynth {
    /// Output amplitude, within `[0, FP_ONE]`.
    pub amplitude: i64,
}

impl SineSynth {
    /// A sine voice at full amplitude.
    pub fn new() -> (r: Self)
        ensures
            r.amplitude == FP_ONE,
            r.wf(),
    {
        SineSynth { amplitude: FP_ONE }
    }

    pub open spec fn wf(&self) -> bool {
        0 <= self.amplitude <= FP_ONE
    }

    pub fn get_amplitude(&self) -> (r: i64)
        ensures
            r == self.amplitude,
    {
        self.amplitude
    }

    pub fn set_amplitude(&mut self, value: i64)
        ensures
            final(self).amplitude as int == spec_clamp(value as int, 0, FP_ONE as int),
            final(self).wf(),
    {
        self.amplitude = crate::fixed::clamp_i64(value, 0, FP_ONE);
    }

    /// The sine at the phase, scaled by the amplitude.
    pub fn generate_sample(&self, phase: i64, _frequency: u64) -> (r: i64)
        requires
            self.wf(),
            0 <= phase < PHASE_ONE,
        ensures
            r == mul_div(spec_sine(phase as int), self.amplitude as int, FP_ONE as int),
            -FP_ONE <= r <= FP_ONE,
    {
        proof {
            crate::fixed::lemma_sine_bounds(phase as int);
            crate::fixed::lemma_mul_div_bound(
                spec_sine(phase as int),
                self.amplitude as int,
                FP_ONE as int,
                FP_ONE as int,
            );
        }
        scale(sine_at(phase), self.amplitude, FP_ONE)
    }

    /// The voice's display name.
    pub fn name(&self) -> &'static str {
        "Sine"
    }
}

/// A square voice with an adjustable duty cycle.
#[derive(Clone, Copy, Debug, PartialEq, Eq, Structural)]
pub struct SquareSynth {
    /// Output amplitude, within `[0, FP_ONE]`.
    pub amplitude: i64,
    /// High fraction of the cycle, within `[0.1, 0.9]` scaled by `FP_ONE`.
    pub duty_cycle: i64,
}

impl SquareSynth {
    /// A square voice at full amplitude and the given duty cycle,
    /// clamped into `[0.1, 0.9]`.
    pub fn new(duty_cycle: i64) -> (r: Self)
        ensures
            r.amplitude == FP_ONE,
            r.duty_cycle as int == spec_clamp(duty_cycle as int, 100_000, 900_000),
            r.wf(),
    {
        SquareSynth {
            amplitude: FP_ONE,
            duty_cycle: crate::fixed::clamp_i64(duty_cycle, 100_000, 900_000),
        }
    }

    pub open spec fn wf(&self) -> bool {
        &&& 0 <= self.amplitude <= FP_ONE
        &&& 100_000 <= self.duty_cycle <= 900_000
    }

    pub fn get_amplitude(&self) -> (r: i64)
        ensures
            r == self.amplitude,
    {
        self.amplitude
    }

    pub fn set_amplitude(&mut self, value: i64)
        ensures
            final(self).amplitude as int == spec_clamp(value as int, 0, FP_ONE as int),
            final(self).duty_cycle == old(self).duty_cycle,
            old(self).wf() ==> final(self).wf(),
    {
        self.amplitude = crate::fixed::clamp_i64(value, 0, FP_ONE);
    }

    pub fn get_duty_cycle(&self) -> (r: i64)
        ensures
            r == self.duty_cycle,
    {
        self.duty_cycle
    }

    pub fn set_duty_cycle(&mut self, value: i64)
        ensures
            final(self).duty_cycle as int == spec_clamp(value as int, 100_000, 900_000),
            final(self).amplitude == old(self).amplitude,
            old(self).wf() ==> final(self).wf(),
    {
        self.duty_cycle = crate::fixed::clamp_i64(value, 100_000, 900_000);
    }

    /// Plus amplitude while the phase is below the duty cycle, minus
    /// amplitude after it.
    pub fn generate_sample(&self, phase: i64, _frequency: u64) -> (r: i64)
        requires
            self.wf(),
            0 <= phase < PHASE_ONE,
        ensures
            r == (if phase < self.duty_cycle {
                self.amplitude as int
            } else {
                -self.amplitude as int
            }),
            -FP_ONE <= r <= FP_ONE,
    {
        if phase < self.duty_cycle {
            self.amplitude
        } else {
            -self.amplitude
        }
    }

    /// The voice's display name.
    pub fn name(&self) -> &'static str {
        "Square"
    }
}

/// A sawtooth voice with amplitude and a smoothness factor.
#[derive(Clone, Copy, Debug, PartialEq, Eq, Structural)]
pub struct SawtoothSynth {
    /// Output amplitude, within `[0, FP_ONE]`.
    pub amplitude: i64,
    /// Extra linear factor, within `[0, FP_ONE]`.
    pub smoothness: i64,
}

impl SawtoothSynth {
    /// A sawtooth voice at full amplitude and smoothness.
    pub fn new() -> (r: Self)
        ensures
            r.amplitude == FP_ONE,
            r.smoothness == FP_ONE,
            r.wf(),
    {
        SawtoothSynth { amplitude: FP_ONE, smoothness: FP_ONE }
    }

    pub open spec fn wf(&self) -> bool {
        &&& 0 <= self.amplitude <= FP_ONE
        &&& 0 <= self.smoothness <= FP_ONE
    }

    pub fn get_amplitude(&self) -> (r: i64)
        ensures
            r == self.amplitude,
    {
        self.amplitude
    }

    pub fn set_amplitude(&mut self, value: i64)
        ensures
            final(self).amplitude as int == spec_clamp(value as int, 0, FP_ONE as int),
            final(self).smoothness == old(self).smoothness,
            old(self).wf() ==> final(self).wf(),
    {
        self.amplitude = crate::fixed::clamp_i64(value, 0, FP_ONE);
    }

    pub fn get_smoothness(&self) -> (r: i64)
        ensures
            r == self.smoothness,
    {
        self.smoothness
    }

    pub fn set_smoothness(&mut self, value: i64)
        ensures
            final(self).smoothness as int == spec_clamp(value as int, 0, FP_ONE as int),
            final(self).amplitude == old(self).amplitude,
            old(self).wf() ==> final(self).wf(),
    {
        self.smoothness = crate::fixed::clamp_i64(value, 0, FP_ONE);
    }

    /// The rising line over one cycle, scaled by amplitude and
    /// smoothness.
    pub fn generate_sample(&self, phase: i64, _frequency: u64) -> (r: i64)
        requires
            self.wf(),
            0 <= phase < PHASE_ONE,
        ensures
            r == mul_div(
                mul_div(2 * phase - FP_ONE, self.amplitude as int, FP_ONE as int),
                self.smoothness as int,
                FP_ONE as int,
            ),
            -FP_ONE <= r <= FP_ONE,
    {
        let saw = 2 * phase - FP_ONE;
        proof {
            crate::fixed::lemma_mul_div_bound(
                saw as int,
                self.amplitude as int,
                FP_ONE as int,
                FP_ONE as int,
            );
        }
        let scaled = scale(saw, self.amplitude, FP_ONE);
        proof {
            crate::fixed::lemma_mul_div_bound(
                scaled as int,
                self.smoothness as int,
                FP_ONE as int,
                FP_ONE as int,
            );
        }
        scale(scaled, self.smoothness, FP_ONE)
    }

    /// The voice's display name.
    pub fn name(&self) -> &'static str {
        "Sawtooth"
    }
}

/// A two-operator FM voice without the extra harmonic or soft clip: the
/// carrier sine at a phase offset by the scaled modulator sine.
#[derive(Clone, Copy, Debug, PartialEq, Eq, Structural)]
pub struct FMSynth {
    /// Carrier amplitude, within `[0, FP_ONE]`.
    pub carrier_amplitude: i64,
    /// Modulator/carrier frequency ratio, within `[0, FM_PARAM_LIMIT]`.
    pub modulator_frequency_ratio: i64,
    /// Modulation depth, within `[0, FM_PARAM_LIMIT]`.
    pub modulation_index: i64,
}

impl FMSynth {
    /// An FM voice at full carrier amplitude.
    pub fn new(mod_freq_ratio: i64, mod_index: i64) -> (r: Self)
        ensures
            r.carrier_amplitude == FP_ONE,
            r.modulator_frequency_ratio as int == spec_clamp(
                mod_freq_ratio as int,
                0,
                FM_PARAM_LIMIT as int,
            ),
            r.modulation_index as int == spec_clamp(mod_index as int, 0, FM_PARAM_LIMIT as int),
            r.wf(),
    {
        FMSynth {
            carrier_amplitude: FP_ONE,
            modulator_frequency_ratio: crate::fixed::clamp_i64(mod_freq_ratio, 0, FM_PARAM_LIMIT),
            modulation_index: crate::fixed::clamp_i64(mod_index, 0, FM_PARAM_LIMIT),
        }
    }

    pub open spec fn wf(&self) -> bool {
        &&& 0 <= self.carrier_amplitude <= FP_ONE
        &&& 0 <= self.modulator_frequency_ratio <= FM_PARAM_LIMIT
        &&& 0 <= self.modulation_index <= FM_PARAM_LIMIT
    }

    pub fn get_carrier_amplitude(&self) -> (r: i64)
        ensures
            r == self.carrier_amplitude,
    {
        self.carrier_amplitude
    }

    pub fn set_carrier_amplitude(&mut self, value: i64)
        ensures
            final(self).carrier_amplitude as int == spec_clamp(value as int, 0, FP_ONE as int),
            final(self).modulator_frequency_ratio == old(self).modulator_frequency_ratio,
            final(self).modulation_index == old(self).modulation_index,
            old(self).wf() ==> final(self).wf(),
    {
        self.carrier_amplitude = crate::fixed::clamp_i64(value, 0, FP_ONE);
    }

    pub fn get_modulator_frequency_ratio(&self) -> (r: i64)
        ensures
            r == self.modulator_frequency_ratio,
    {
        self.modulator_frequency_ratio
    }

    pub fn set_modulator_frequency_ratio(&mut self, value: i64)
        ensures
            final(self).modulator_frequency_ratio as int == spec_clamp(
                value as int,
                0,
                FM_PARAM_LIMIT as int,
            ),
            final(self).carrier_amplitude == old(self).carrier_amplitude,
            final(self).modulation_index == old(self).modulation_index,
            old(self).wf() ==> final(self).wf(),
    {
        self.modulator_frequency_ratio = crate::fixed::clamp_i64(value, 0, FM_PARAM_LIMIT);
    }

    pub fn get_modulation_index(&self) -> (r: i64)
        ensures
            r == self.modulation_index,
    {
        self.modulation_index
    }

    pub fn set_modulation_index(&mut self, value: i64)
        ensures
            final(self).modulation_index as int == spec_clamp(
                value as int,
                0,
                FM_PARAM_LIMIT as int,
            ),
            final(self).carrier_amplitude == old(self).carrier_amplitude,
            final(self).modulator_frequency_ratio == old(self).modulator_frequency_ratio,
            old(self).wf() ==> final(self).wf(),
    {
        self.modulation_index = crate::fixed::clamp_i64(value, 0, FM_PARAM_LIMIT);
    }

    /// The carrier sine at the modulated phase, scaled by the carrier
    /// amplitude.
    pub fn generate_sample(&self, phase: i64, _frequency: u64) -> (r: i64)
        requires
            self.wf(),
            0 <= phase < PHASE_ONE,
        ensures
            r == mul_div(
                spec_sine(
                    spec_fm_carrier_phase(
                        self.modulation_index as int,
                        self.modulator_frequency_ratio as int,
                        phase as int,
                    ),
                ),
                self.carrier_amplitude as int,
                FP_ONE as int,
            ),
            -FP_ONE <= r <= FP_ONE,
    {
        let osc = FmOscillator {
            mod_index: self.modulation_index,
            mod_ratio: self.modulator_frequency_ratio,
        };
        let mw = osc.carrier_phase(phase);
        proof {
            crate::fixed::lemma_sine_bounds(mw as int);
            crate::fixed::lemma_mul_div_bound(
                spec_sine(mw as int),
                self.carrier_amplitude as int,
                FP_ONE as int,
                FP_ONE as int,
            );
        }
        scale(sine_at(mw), self.carrier_amplitude, FP_ONE)
    }

    /// The voice's display name.
    pub fn name(&self) -> &'static str {
        "FM"
    }
}

/// A five-harmonic organ voice with one gain per harmonic.
#[derive(Clone, Copy, Debug, PartialEq, Eq, Structural)]
pub struct HammondSynth {
    /// Gain of the fundamental, within `[0, FP_ONE]`.
    pub fundamental: i64,
    /// Gain of the second harmonic, within `[0, FP_ONE]`.
    pub harmonic2: i64,
    /// Gain of the third harmonic, within `[0, FP_ONE]`.
    pub harmonic3: i64,
    /// Gain of the fourth harmonic, within `[0, FP_ONE]`.
    pub harmonic4: i64,
    /// Gain of the fifth harmonic, within `[0, FP_ONE]`.
    pub harmonic5: i64,
}

impl HammondSynth {
    /// The classic drawbar setting: full fundamental, harmonics fading.
    pub fn new() -> (r: Self)
        ensures
            r.fundamental == FP_ONE,
            r.harmonic2 == 500_000,
            r.harmonic3 == 300_000,
            r.harmonic4 == 200_000,
            r.harmonic5 == 100_000,
            r.wf(),
    {
        HammondSynth {
            fundamental: FP_ONE,
            harmonic2: 500_000,
            harmonic3: 300_000,
            harmonic4: 200_000,
            harmonic5: 100_000,
        }
    }

    pub open spec fn wf(&self) -> bool {
        &&& 0 <= self.fundamental <= FP_ONE
        &&& 0 <= self.harmonic2 <= FP_ONE
        &&& 0 <= self.harmonic3 <= FP_ONE
        &&& 0 <= self.harmonic4 <= FP_ONE
        &&& 0 <= self.harmonic5 <= FP_ONE
    }

    pub fn get_fundamental(&self) -> (r: i64)
        ensures
            r == self.fundamental,
    {
        self.fundamental
    }

    pub fn set_fundamental(&mut self, value: i64)
        ensures
            final(self).fundamental as int == spec_clamp(value as int, 0, FP_ONE as int),
            *final(self) == (HammondSynth { fundamental: final(self).fundamental, ..*old(self) }),
            old(self).wf() ==> final(self).wf(),
    {
        self.fundamental = crate::fixed::clamp_i64(value, 0, FP_ONE);
    }

    pub fn get_harmonic2(&self) -> (r: i64)
        ensures
            r == self.harmonic2,
    {
        self.harmonic2
    }

    pub fn set_harmonic2(&mut self, value: i64)
        ensures
            final(self).harmonic2 as int == spec_clamp(value as int, 0, FP_ONE as int),
            *final(self) == (HammondSynth { harmonic2: final(self).harmonic2, ..*old(self) }),
            old(self).wf() ==> final(self).wf(),
    {
        self.harmonic2 = crate::fixed::clamp_i64(value, 0, FP_ONE);
    }

    pub fn get_harmonic3(&self) -> (r: i64)
        ensures
            r == self.harmonic3,
    {
        self.harmonic3
    }

    pub fn set_harmonic3(&mut self, value: i64)
        ensures
            final(self).harmonic3 as int == spec_clamp(value as int, 0, FP_ONE as int),
            *final(self) == (HammondSynth { harmonic3: final(self).harmonic3, ..*old(self) }),
            old(self).wf() ==> final(self).wf(),
    {
        self.harmonic3 = crate::fixed::clamp_i64(value, 0, FP_ONE);
    }

    pub fn get_harmonic4(&self) -> (r: i64)
        ensures
            r == self.harmonic4,
    {
        self.harmonic4
    }

    pub fn set_harmonic4(&mut self, value: i64)
        ensures
            final(self).harmonic4 as int == spec_clamp(value as int, 0, FP_ONE as int),
            *final(self) == (HammondSynth { harmonic4: final(self).harmonic4, ..*old(self) }),
            old(self).wf() ==> final(self).wf(),
    {
        self.harmonic4 = crate::fixed::clamp_i64(value, 0, FP_ONE);
    }

    pub fn get_harmonic5(&self) -> (r: i64)
        ensures
            r == self.harmonic5,
    {
        self.harmonic5
    }

    pub fn set_harmonic5(&mut self, value: i64)
        ensures
            final(self).harmonic5 as int == spec_clamp(value as int, 0, FP_ONE as int),
            *final(self) == (HammondSynth { harmonic5: final(self).harmonic5, ..*old(self) }),
            old(self).wf() ==> final(self).wf(),
    {
        self.harmonic5 = crate::fixed::clamp_i64(value, 0, FP_ONE);
    }

    /// One sine per harmonic, at its gain, summed.
    pub fn generate_sample(&self, phase: i64, _frequency: u64) -> (r: i64)
        requires
            self.wf(),
            0 <= phase < PHASE_ONE,
        ensures
            r == crate::oscillators::drawbar(phase as int, 1, self.fundamental as int)
                + crate::oscillators::drawbar(phase as int, 2, self.harmonic2 as int)
                + crate::oscillators::drawbar(phase as int, 3, self.harmonic3 as int)
                + crate::oscillators::drawbar(phase as int, 4, self.harmonic4 as int)
                + crate::oscillators::drawbar(phase as int, 5, self.harmonic5 as int),
            -5 * FP_ONE <= r <= 5 * FP_ONE,
    {
        let mut sum: i64 = self.bar(phase, 1, self.fundamental);
        sum = sum + self.bar(phase, 2, self.harmonic2);
        sum = sum + self.bar(phase, 3, self.harmonic3);
        sum = sum + self.bar(phase, 4, self.harmonic4);
        sum = sum + self.bar(phase, 5, self.harmonic5);
        sum
    }

    /// One harmonic: the sine at a multiple of the phase, at its gain.
    fn bar(&self, p: i64, mult: i64, gain: i64) -> (r: i64)
        requires
            0 <= p < PHASE_ONE,
            1 <= mult <= 8,
            0 <= gain <= FP_ONE,
        ensures
            r == crate::oscillators::drawbar(p as int, mult as int, gain as int),
            -gain <= r <= gain,
    {
        proof {
            assert(0 <= p * mult <= 8_000_000) by (nonlinear_arith)
                requires
                    0 <= p < PHASE_ONE,
                    1 <= mult <= 8,
            ;
        }
        let pm = (p * mult) % PHASE_ONE;
        proof {
            crate::fixed::lemma_sine_bounds(pm as int);
            crate::fixed::lemma_mul_div_bound(
                spec_sine(pm as int),
                gain as int,
                FP_ONE as int,
                FP_ONE as int,
            );
        }
        scale(sine_at(pm), gain, FP_ONE)
    }

    /// The voice's display name.
    pub fn name(&self) -> &'static str {
        "Hammond"
    }
}

} // verus!
