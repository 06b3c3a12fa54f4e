//! The low-frequency oscillator: amplitude modulation of the signal.
//!
//! The LFO keeps its own phase in `[0, PHASE_ONE)` and advances it by
//! `freq / sample_rate` of a cycle each sample. Shapes are piecewise
//! linear except the sine, so the corners are exact.

use vstd::prelude::*;

use crate::fixed::{
    sat, saturate, scale, scale_signed, spec_clamp, spec_sine, tdiv, FP_ONE, MAX_SAMPLE_RATE,
    PHASE_HALF, PHASE_ONE, SAMPLE_LIMIT,
};

verus! {

/// The shapes an LFO can run.
#[derive(Clone, Copy, Debug, PartialEq, Eq, Structural)]
pub enum LfoWaveform {
    Sine,
    Triangle,
    Square,
    SawUp,
    SawDown,
}

/// Largest admitted LFO frequency: 1 MHz, in milli-Hz.
pub const MAX_LFO_FREQ_MILLIHZ: i64 = 1_000_000_000;

/// Largest admitted LFO amplitude and offset: one hundred, scaled.
pub const LFO_PARAM_LIMIT: i64 = 100_000_000;

#[derive(Clone, Copy, Debug, PartialEq, Eq, Structural)]
pub struct LFO {
    pub waveform: LfoWaveform,
    /// Rate in milli-Hz, within `[0, MAX_LFO_FREQ_MILLIHZ]`.
    pub freq: i64,
    /// Sample rate, Hz.
    pub sample_rate: u32,
    /// Phase within one cycle: `[0, PHASE_ONE)`.
    pub phase: i64,
    /// Output amplitude, scaled by `FP_ONE`, within `[-LFO_PARAM_LIMIT, LFO_PARAM_LIMIT]`.
    pub amplitude: i64,
    /// Output offset, scaled by `FP_ONE`, within `[-LFO_PARAM_LIMIT, LFO_PARAM_LIMIT]`.
    pub offset: i64,
    /// True for output in `[-1, 1]`, false for `[0, 1]`.
    pub bipolar: bool,
}

/// The waveform's value at a phase, in `[-FP_ONE, FP_ONE]`.
pub open spec fn spec_lfo_wave(w: LfoWaveform, p: int) -> int {
    match w {
        LfoWaveform::Sine => spec_sine(p),
        LfoWaveform::Triangle => {
            if p < 250_000 {
                4 * p
            } else if p < 750_000 {
                2_000_000 - 4 * p
            } else {
                4 * p - 4_000_000
            }
        },
        LfoWaveform::Square => {
            if p < PHASE_HALF {
                FP_ONE as int
            } else {
                -FP_ONE as int
            }
        },
        LfoWaveform::SawUp => 2 * p - FP_ONE,
        LfoWaveform::SawDown => FP_ONE - 2 * p,
    }
}

/// The modulation the LFO applies around unity: the waveform value,
/// rectified into `[0, FP_ONE]` when unipolar, scaled by the amplitude,
/// plus the offset.
pub open spec fn spec_lfo_out(l: LFO) -> int {
    let wave = spec_lfo_wave(l.waveform, l.phase as int);
    let signal = if l.bipolar {
        wave
    } else {
        (wave + FP_ONE) / 2
    };
    tdiv(signal * l.amplitude, FP_ONE as int) + l.offset
}

/// One sample's phase advance: `freq / sample_rate` of a cycle, wrapped.
pub open spec fn spec_lfo_step(l: LFO) -> LFO {
    LFO {
        phase: ((l.phase + tdiv(l.freq * 1000, l.sample_rate as int)) % (PHASE_ONE as int)) as i64,
        ..l
    }
}

impl LFO {
    pub open spec fn wf(&self) -> bool {
        &&& 0 <= self.freq <= MAX_LFO_FREQ_MILLIHZ
        &&& 1 <= self.sample_rate <= MAX_SAMPLE_RATE
        &&& 0 <= self.phase < PHASE_ONE
        &&& -LFO_PARAM_LIMIT <= self.amplitude <= LFO_PARAM_LIMIT
        &&& -LFO_PARAM_LIMIT <= self.offset <= LFO_PARAM_LIMIT
    }

    /// An LFO at phase zero with unit amplitude, no offset, bipolar output.
    pub fn new(waveform: LfoWaveform, freq: i64, sample_rate: u32) -> (r: Self)
        ensures
            r.wf(),
            r.waveform == waveform,
            r.freq as int == spec_clamp(freq as int, 0, MAX_LFO_FREQ_MILLIHZ as int),
            r.sample_rate as int == spec_clamp(sample_rate as int, 1, MAX_SAMPLE_RATE as int),
            r.phase == 0,
            r.amplitude == FP_ONE,
            r.offset == 0,
            r.bipolar,
    {
        let rate = if sample_rate < 1 {
            1
        } else if sample_rate > MAX_SAMPLE_RATE {
            MAX_SAMPLE_RATE
        } else {
            sample_rate
        };
        LFO {
            waveform,
            freq: crate::fixed::clamp_i64(freq, 0, MAX_LFO_FREQ_MILLIHZ),
            sample_rate: rate,
            phase: 0,
            amplitude: FP_ONE,
            offset: 0,
            bipolar: true,
        }
    }

    /// Modulate the sample by `1 + out` where `out` is the LFO's current
    /// output, then advance the phase one sample.
    pub fn process(&mut self, input: i64) -> (r: i64)
        requires
            old(self).wf(),
            -SAMPLE_LIMIT <= input <= SAMPLE_LIMIT,
        ensures
            *final(self) == spec_lfo_step(*old(self)),
            final(self).wf(),
            r == sat(tdiv(input as int * (FP_ONE + spec_lfo_out(*old(self))), FP_ONE as int)),
            -SAMPLE_LIMIT <= r <= SAMPLE_LIMIT,
    {
        let wave = self.wave_value();
        let signal = if self.bipolar {
            wave
        } else {
            (wave + FP_ONE) / 2
        };
        proof {
            assert(-LFO_PARAM_LIMIT <= tdiv(signal as int * self.amplitude as int, FP_ONE as int)
                <= LFO_PARAM_LIMIT) by (nonlinear_arith)
                requires
                    -FP_ONE <= signal <= FP_ONE,
                    -LFO_PARAM_LIMIT <= self.amplitude <= LFO_PARAM_LIMIT,
                    FP_ONE == 1_000_000,
                    LFO_PARAM_LIMIT == 100_000_000,
            ;
        }
        let scaled = scale_signed(signal, self.amplitude, FP_ONE);
        let out = scaled + self.offset;
        let factor = FP_ONE + out;
        proof {
            assert(-1_000_000_000_000_000_000 <= tdiv(
                input as int * factor as int,
                FP_ONE as int,
            ) <= 1_000_000_000_000_000_000) by (nonlinear_arith)
                requires
                    -SAMPLE_LIMIT <= input <= SAMPLE_LIMIT,
                    -201_000_000 <= factor <= 201_000_000,
                    FP_ONE == 1_000_000,
                    SAMPLE_LIMIT == 1_000_000_000,
            ;
        }
        let raw = scale_signed(input, factor, FP_ONE);
        let result = saturate(raw);
        proof {
            assert(0 <= self.freq * 1000 <= 1_000_000_000_000) by (nonlinear_arith)
                requires
                    0 <= self.freq <= MAX_LFO_FREQ_MILLIHZ,
            ;
        }
        let inc = scale(self.freq, 1000, self.sample_rate as i64);
        self.phase = (self.phase + inc) % PHASE_ONE;
        result
    }

    /// The waveform's value at the current phase.
    fn wave_value(&self) -> (r: i64)
        requires
            self.wf(),
        ensures
            r == spec_lfo_wave(self.waveform, self.phase as int),
            -FP_ONE <= r <= FP_ONE,
    {
        match self.waveform {
            LfoWaveform::Sine => crate::fixed::sine_at(self.phase),
            LfoWaveform::Triangle => {
                if self.phase < 250_000 {
                    4 * self.phase
                } else if self.phase < 750_000 {
                    2_000_000 - 4 * self.phase
                } else {
                    4 * self.phase - 4_000_000
                }
            },
            LfoWaveform::Square => {
                if self.phase < PHASE_HALF {
                    FP_ONE
                } else {
                    -FP_ONE
                }
            },
            LfoWaveform::SawUp => 2 * self.phase - FP_ONE,
            LfoWaveform::SawDown => FP_ONE - 2 * self.phase,
        }
    }

    pub fn set_waveform(&mut self, waveform: LfoWaveform)
        ensures
            *final(self) == (LFO { waveform, ..*old(self) }),
    {
        self.waveform = waveform;
    }

    pub fn set_freq(&mut self, freq: i64)
        ensures
            *final(self) == (LFO {
                freq: spec_clamp(freq as int, 0, MAX_LFO_FREQ_MILLIHZ as int) as i64,
                ..*old(self)
            }),
    {
        self.freq = crate::fixed::clamp_i64(freq, 0, MAX_LFO_FREQ_MILLIHZ);
    }

    pub fn set_sample_rate(&mut self, rate: u32)
        ensures
            *final(self) == (LFO {
                sample_rate: spec_clamp(rate as int, 1, MAX_SAMPLE_RATE as int) as u32,
                ..*old(self)
            }),
    {
        self.sample_rate = if rate < 1 {
            1
        } else if rate > MAX_SAMPLE_RATE {
            MAX_SAMPLE_RATE
        } else {
            rate
        };
    }

    pub fn set_amplitude(&mut self, amplitude: i64)
        ensures
            *final(self) == (LFO {
                amplitude: spec_clamp(
                    amplitude as int,
                    -LFO_PARAM_LIMIT as int,
                    LFO_PARAM_LIMIT as int,
                ) as i64,
                ..*old(self)
            }),
    {
        self.amplitude = crate::fixed::clamp_i64(amplitude, -LFO_PARAM_LIMIT, LFO_PARAM_LIMIT);
    }

    pub fn set_offset(&mut self, offset: i64)
        ensures
            *final(self) == (LFO {
                offset: spec_clamp(
                    offset as int,
                    -LFO_PARAM_LIMIT as int,
                    LFO_PARAM_LIMIT as int,
                ) as i64,
                ..*old(self)
            }),
    {
        self.offset = crate::fixed::clamp_i64(offset, -LFO_PARAM_LIMIT, LFO_PARAM_LIMIT);
    }

    pub fn set_bipolar(&mut self, bipolar: bool)
        ensures
            *final(self) == (LFO { bipolar, ..*old(self) }),
    {
        self.bipolar = bipolar;
    }

    pub fn get_waveform(&self) -> (r: LfoWaveform)
        ensures
            r == self.waveform,
    {
        self.waveform
    }

    pub fn get_freq(&self) -> (r: i64)
        ensures
            r == self.freq,
    {
        self.freq
    }

    pub fn get_sample_rate(&self) -> (r: u32)
        ensures
            r == self.sample_rate,
    {
        self.sample_rate
    }

    pub fn get_amplitude(&self) -> (r: i64)
        ensures
            r == self.amplitude,
    {
        self.amplitude
    }

    pub fn get_offset(&self) -> (r: i64)
        ensures
            r == self.offset,
    {
        self.offset
    }

    pub fn get_bipolar(&self) -> (r: bool)
        ensures
            r == self.bipolar,
    {
        self.bipolar
    }

    /// The stage's display name.
    pub fn name(&self) -> &'static str {
        "LFO"
    }
}

} // verus!
