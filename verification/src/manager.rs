//! The preset facade: a closed set of named synthesizers, each a
//! pre-wired modular chain, with uniform parameter access. Looking up a
//! stage that a preset does not carry is never an error: getters fall
//! back to the documented default and setters leave the chain unchanged.

use vstd::prelude::*;

use crate::compressor::Compressor;
use crate::filter::LowPassFilter;
use crate::fixed::{FP_ONE, PHASE_ONE, SAMPLE_LIMIT};
use crate::gain::Gain;
use crate::lfo::{LfoWaveform, LFO};
use crate::modular::{
    chain_stepped, first_idx, gain_set, kind_of, noise_set, remove_kind_seq, Module, ModuleKind,
    ModularSynth,
};
use crate::noise::Noise;
use crate::oscillators::{
    spec_osc_sample, FmOscillator, HammondOscillator, Oscillator, SawtoothOscillator,
    SineOscillator, SquareOscillator,
};
use crate::reverb::{Reverb, ReverbType};

verus! {

/// Default sample rate, Hz.
pub const DEFAULT_SAMPLE_RATE: u32 = 44_100;

/// Default gain: unity, in milli-dB.
pub const DEFAULT_GAIN_MDB: i64 = 0;

/// Default noise amount: none.
pub const DEFAULT_NOISE_AMOUNT: i64 = 0;

/// Default LFO rate: 725 Hz, in milli-Hz.
pub const DEFAULT_LFO_FREQ_MILLIHZ: i64 = 725_000;

/// Default filter cutoff: 8 kHz, in milli-Hz.
pub const DEFAULT_FILTER_CUTOFF_MILLIHZ: i64 = 8_000_000;

/// Default filter resonance: 1.2, scaled by `FP_ONE`.
pub const DEFAULT_FILTER_RESONANCE: i64 = 1_200_000;

/// Default compressor threshold: -10 dB, in milli-dB.
pub const DEFAULT_THRESHOLD_MDB: i64 = -10_000;

/// Default compression ratio: 4:1, scaled by `FP_ONE`.
pub const DEFAULT_RATIO: i64 = 4_000_000;

/// Default compressor attack: 1.01 s, in microseconds.
pub const DEFAULT_COMP_ATTACK_MICROS: i64 = 1_010_000;

/// Default compressor release: 0.2 s, in microseconds.
pub const DEFAULT_COMP_RELEASE_MICROS: i64 = 200_000;

/// Default make-up gain: none, in milli-dB.
pub const DEFAULT_MAKEUP_MDB: i64 = 0;

/// Default reverb preset.
pub const DEFAULT_REVERB_TYPE: ReverbType = ReverbType::Plate;

/// Default FM modulation index: 3.5, scaled by `FP_ONE`.
pub const DEFAULT_FM_INDEX: i64 = 3_500_000;

/// Default FM frequency ratio: 1.414, scaled by `FP_ONE`.
pub const DEFAULT_FM_RATIO: i64 = 1_414_000;

/// A named preset wrapping a modular chain.
#[derive(Clone, Debug)]
pub enum SynthType {
    Sine(ModularSynth),
    Square(ModularSynth),
    Sawtooth(ModularSynth),
    FM(ModularSynth),
    Hammond(ModularSynth),
}

/// The chain a preset wraps.
pub open spec fn chain_of(st: SynthType) -> ModularSynth {
    match st {
        SynthType::Sine(s) => s,
        SynthType::Square(s) => s,
        SynthType::Sawtooth(s) => s,
        SynthType::FM(s) => s,
        SynthType::Hammond(s) => s,
    }
}

/// Whether two preset values are the same variant.
pub open spec fn same_variant(a: SynthType, b: SynthType) -> bool {
    match (a, b) {
        (SynthType::Sine(_), SynthType::Sine(_)) => true,
        (SynthType::Square(_), SynthType::Square(_)) => true,
        (SynthType::Sawtooth(_), SynthType::Sawtooth(_)) => true,
        (SynthType::FM(_), SynthType::FM(_)) => true,
        (SynthType::Hammond(_), SynthType::Hammond(_)) => true,
        _ => false,
    }
}

/// The default chain behind every preset: noise, LFO, filter, gain,
/// compressor, reverb, in that order.
fn default_chain(oscillator: Oscillator) -> (r: ModularSynth)
    requires
        oscillator.wf(),
    ensures
        r.wf(),
        r.oscillator == oscillator,
        default_chain_shape(r),
{
    let mut synth = ModularSynth::new(oscillator);
    synth.add_module(Module::Noise(Noise::new(DEFAULT_NOISE_AMOUNT)));
    synth.add_module(
        Module::Lfo(LFO::new(LfoWaveform::Sine, DEFAULT_LFO_FREQ_MILLIHZ, DEFAULT_SAMPLE_RATE)),
    );
    synth.add_module(
        Module::Filter(
            LowPassFilter::new(
                DEFAULT_SAMPLE_RATE,
                DEFAULT_FILTER_CUTOFF_MILLIHZ,
                DEFAULT_FILTER_RESONANCE,
            ),
        ),
    );
    synth.add_module(Module::Gain(Gain::new(DEFAULT_GAIN_MDB)));
    synth.add_module(
        Module::Compressor(
            Compressor::new(
                DEFAULT_THRESHOLD_MDB,
                DEFAULT_RATIO,
                DEFAULT_COMP_ATTACK_MICROS,
                DEFAULT_COMP_RELEASE_MICROS,
                DEFAULT_MAKEUP_MDB,
                DEFAULT_SAMPLE_RATE,
            ),
        ),
    );
    synth.add_module(Module::Reverb(Reverb::new(DEFAULT_SAMPLE_RATE, DEFAULT_REVERB_TYPE)));
    synth
}

/// The wiring every preset starts from: full oscillator level, and a
/// six-stage chain in signal order — noise, LFO, low-pass filter, gain,
/// compressor, reverb — each at its documented default parameters.
pub open spec fn default_chain_shape(s: ModularSynth) -> bool {
    &&& s.amplitude == FP_ONE
    &&& s.modules@.len() == 6
    &&& (s.modules@[0] matches Module::Noise(n) && n.amount == DEFAULT_NOISE_AMOUNT)
    &&& (s.modules@[1] matches Module::Lfo(l) && l.freq == DEFAULT_LFO_FREQ_MILLIHZ && l.waveform
        == LfoWaveform::Sine && l.sample_rate == DEFAULT_SAMPLE_RATE && l.phase == 0)
    &&& (s.modules@[2] matches Module::Filter(f) && f.cutoff_freq == DEFAULT_FILTER_CUTOFF_MILLIHZ
        && f.resonance == DEFAULT_FILTER_RESONANCE && f.sample_rate == DEFAULT_SAMPLE_RATE && f.x1
        == 0 && f.x2 == 0 && f.y1 == 0 && f.y2 == 0)
    &&& (s.modules@[3] matches Module::Gain(g) && g.gain_db == DEFAULT_GAIN_MDB)
    &&& (s.modules@[4] matches Module::Compressor(c) && c.threshold_db == DEFAULT_THRESHOLD_MDB
        && c.ratio == DEFAULT_RATIO && c.makeup_gain_db == DEFAULT_MAKEUP_MDB && c.knee_db == 0
        && c.envelope_db == 0 && c.sample_rate == DEFAULT_SAMPLE_RATE)
    &&& (s.modules@[5] matches Module::Reverb(v) && v.reverb_type == DEFAULT_REVERB_TYPE
        && v.sample_rate == DEFAULT_SAMPLE_RATE && v.ir@.len() == 0)
}

/// What an activation toggle does to a chain: a missing stage is
/// appended when switched on (unless the chain is full), every stage of
/// the kind is removed when switched off, and a toggle matching the
/// current state changes nothing.
pub open spec fn activation_set(
    ms0: Seq<Module>,
    ms1: Seq<Module>,
    k: ModuleKind,
    active: bool,
) -> bool {
    let had = first_idx(ms0, k, 0) >= 0;
    if active && !had {
        if ms0.len() < 64 {
            ms1.len() == ms0.len() + 1 && (forall|i: int| 0 <= i < ms0.len() ==> ms1[i] == #[trigger] ms0[i])
                && kind_of(ms1.last()) == k
        } else {
            ms1 == ms0
        }
    } else if !active && had {
        ms1 == remove_kind_seq(ms0, k)
    } else {
        ms1 == ms0
    }
}

/// How a preset relates to itself after `note_on`: every envelope stage
/// in its chain armed, everything else untouched.
pub open spec fn notes_armed(a: SynthType, b: SynthType) -> bool {
    &&& same_variant(a, b)
    &&& chain_of(b).modules@.len() == chain_of(a).modules@.len()
    &&& forall|i: int|
        0 <= i < chain_of(a).modules@.len() ==> #[trigger] chain_of(b).modules@[i] == (
        match chain_of(a).modules@[i] {
            Module::Adsr(ad) => Module::Adsr(crate::adsr::spec_note_on(ad)),
            m => m,
        })
}

/// How a preset relates to itself after `note_off`: every envelope stage
/// in its chain released, everything else untouched.
pub open spec fn notes_released(a: SynthType, b: SynthType) -> bool {
    &&& same_variant(a, b)
    &&& chain_of(b).modules@.len() == chain_of(a).modules@.len()
    &&& forall|i: int|
        0 <= i < chain_of(a).modules@.len() ==> #[trigger] chain_of(b).modules@[i] == (
        match chain_of(a).modules@[i] {
            Module::Adsr(ad) => Module::Adsr(crate::adsr::spec_note_off(ad)),
            m => m,
        })
}

impl SynthType {
    /// Every preset's chain is well formed.
    pub open spec fn wf(&self) -> bool {
        chain_of(*self).wf()
    }

    /// The sine preset over the default chain.
    pub fn n_sine() -> (r: Self)
        ensures
            r.wf(),
            r matches SynthType::Sine(s) && s.oscillator == Oscillator::Sine(SineOscillator)
                && default_chain_shape(s),
    {
        SynthType::Sine(default_chain(Oscillator::Sine(SineOscillator)))
    }

    /// The square preset over the default chain.
    pub fn n_square() -> (r: Self)
        ensures
            r.wf(),
            r matches SynthType::Square(s) && s.oscillator == Oscillator::Square(SquareOscillator)
                && default_chain_shape(s),
    {
        SynthType::Square(default_chain(Oscillator::Square(SquareOscillator)))
    }

    /// The sawtooth preset over the default chain.
    pub fn n_sawtooth() -> (r: Self)
        ensures
            r.wf(),
            r matches SynthType::Sawtooth(s) && s.oscillator == Oscillator::Sawtooth(
                SawtoothOscillator,
            ) && default_chain_shape(s),
    {
        SynthType::Sawtooth(default_chain(Oscillator::Sawtooth(SawtoothOscillator)))
    }

    /// The FM preset over the default chain.
    pub fn n_fm() -> (r: Self)
        ensures
            r.wf(),
            r matches SynthType::FM(s) && default_chain_shape(s) && (s.oscillator matches
                Oscillator::Fm(f) && f.mod_index == DEFAULT_FM_INDEX && f.mod_ratio
                == DEFAULT_FM_RATIO),
    {
        SynthType::FM(default_chain(Oscillator::Fm(FmOscillator::new(
            DEFAULT_FM_INDEX,
            DEFAULT_FM_RATIO,
        ))))
    }

    /// The organ preset over the default chain.
    pub fn n_hammond() -> (r: Self)
        ensures
            r.wf(),
            r matches SynthType::Hammond(s) && s.oscillator == Oscillator::Hammond(
                HammondOscillator,
            ) && default_chain_shape(s),
    {
        SynthType::Hammond(default_chain(Oscillator::Hammond(HammondOscillator)))
    }

    /// One sample from the active preset's chain at the given phase.
    pub fn generate_sample(&mut self, phase: i64) -> (r: i64)
        requires
            old(self).wf(),
            0 <= phase < PHASE_ONE,
        ensures
            final(self).wf(),
            same_variant(*old(self), *final(self)),
            chain_of(*final(self)).oscillator == chain_of(*old(self)).oscillator,
            chain_of(*final(self)).amplitude == chain_of(*old(self)).amplitude,
            chain_stepped(
                chain_of(*old(self)).modules@,
                chain_of(*final(self)).modules@,
                crate::fixed::mul_div(
                    spec_osc_sample(chain_of(*old(self)).oscillator, phase as int),
                    chain_of(*old(self)).amplitude as int,
                    FP_ONE as int,
                ),
                r as int,
            ),
            -SAMPLE_LIMIT <= r <= SAMPLE_LIMIT,
    {
        match self {
            SynthType::Sine(s) => s.generate_sample(phase),
            SynthType::Square(s) => s.generate_sample(phase),
            SynthType::Sawtooth(s) => s.generate_sample(phase),
            SynthType::FM(s) => s.generate_sample(phase),
            SynthType::Hammond(s) => s.generate_sample(phase),
        }
    }

    /// Start every envelope in the chain.
    pub fn note_on(&mut self)
        requires
            old(self).wf(),
        ensures
            final(self).wf(),
            notes_armed(*old(self), *final(self)),
    {
        match self {
            SynthType::Sine(s) => s.note_on(),
            SynthType::Square(s) => s.note_on(),
            SynthType::Sawtooth(s) => s.note_on(),
            SynthType::FM(s) => s.note_on(),
            SynthType::Hammond(s) => s.note_on(),
        }
    }

    /// Release every envelope in the chain.
    pub fn note_off(&mut self)
        requires
            old(self).wf(),
        ensures
            final(self).wf(),
            notes_released(*old(self), *final(self)),
    {
        match self {
            SynthType::Sine(s) => s.note_off(),
            SynthType::Square(s) => s.note_off(),
            SynthType::Sawtooth(s) => s.note_off(),
            SynthType::FM(s) => s.note_off(),
            SynthType::Hammond(s) => s.note_off(),
        }
    }

    /// The preset's display name.
    pub fn name(&self) -> &'static str {
        match self {
            SynthType::Sine(_) => "Modular Sine",
            SynthType::Square(_) => "Modular Square",
            SynthType::Sawtooth(_) => "Modular Sawtooth",
            SynthType::FM(_) => "Modular FM",
            SynthType::Hammond(_) => "Modular Hammond",
        }
    }

    /// The chain's gain in milli-dB, or the default without a gain stage.
    pub fn get_current_gain(&self) -> (r: i64)
        ensures
            ({
                let ms = chain_of(*self).modules@;
                let idx = first_idx(ms, ModuleKind::Gain, 0);
                if idx == -1 {
                    r == DEFAULT_GAIN_MDB
                } else {
                    ms[idx] matches Module::Gain(g) && r == g.gain_db
                }
            }),
    {
        match self {
            SynthType::Sine(s) => s.gain_db_or(DEFAULT_GAIN_MDB),
            SynthType::Square(s) => s.gain_db_or(DEFAULT_GAIN_MDB),
            SynthType::Sawtooth(s) => s.gain_db_or(DEFAULT_GAIN_MDB),
            SynthType::FM(s) => s.gain_db_or(DEFAULT_GAIN_MDB),
            SynthType::Hammond(s) => s.gain_db_or(DEFAULT_GAIN_MDB),
        }
    }

    /// The chain's noise amount, or the default without a noise stage.
    pub fn get_current_noise(&self) -> (r: i64)
        ensures
            ({
                let ms = chain_of(*self).modules@;
                let idx = first_idx(ms, ModuleKind::Noise, 0);
                if idx == -1 {
                    r == DEFAULT_NOISE_AMOUNT
                } else {
                    ms[idx] matches Module::Noise(n) && r == n.amount
                }
            }),
    {
        match self {
            SynthType::Sine(s) => s.noise_amount_or(DEFAULT_NOISE_AMOUNT),
            SynthType::Square(s) => s.noise_amount_or(DEFAULT_NOISE_AMOUNT),
            SynthType::Sawtooth(s) => s.noise_amount_or(DEFAULT_NOISE_AMOUNT),
            SynthType::FM(s) => s.noise_amount_or(DEFAULT_NOISE_AMOUNT),
            SynthType::Hammond(s) => s.noise_amount_or(DEFAULT_NOISE_AMOUNT),
        }
    }

    /// Set the chain's gain (clamped); without a gain stage, no change.
    pub fn set_current_gain(&mut self, v: i64)
        requires
            old(self).wf(),
        ensures
            final(self).wf(),
            same_variant(*old(self), *final(self)),
            gain_set(chain_of(*old(self)).modules@, chain_of(*final(self)).modules@, v as int),
    {
        match self {
            SynthType::Sine(s) => s.set_gain_db(v),
            SynthType::Square(s) => s.set_gain_db(v),
            SynthType::Sawtooth(s) => s.set_gain_db(v),
            SynthType::FM(s) => s.set_gain_db(v),
            SynthType::Hammond(s) => s.set_gain_db(v),
        }
    }

    /// Set the chain's noise amount (clamped); without a noise stage,
    /// no change.
    pub fn set_current_noise(&mut self, v: i64)
        requires
            old(self).wf(),
        ensures
            final(self).wf(),
            same_variant(*old(self), *final(self)),
            noise_set(chain_of(*old(self)).modules@, chain_of(*final(self)).modules@, v as int),
    {
        match self {
            SynthType::Sine(s) => s.set_noise_amount(v),
            SynthType::Square(s) => s.set_noise_amount(v),
            SynthType::Sawtooth(s) => s.set_noise_amount(v),
            SynthType::FM(s) => s.set_noise_amount(v),
            SynthType::Hammond(s) => s.set_noise_amount(v),
        }
    }

    /// Set the filter's cutoff; without a filter stage, no change.
    pub fn set_current_cutoff(&mut self, v: i64)
        requires
            old(self).wf(),
        ensures
            final(self).wf(),
            same_variant(*old(self), *final(self)),
            ({
                let ms = chain_of(*old(self)).modules@;
                let idx = first_idx(ms, ModuleKind::Filter, 0);
                if idx == -1 {
                    chain_of(*final(self)).modules@ == ms
                } else {
                    ms[idx] matches Module::Filter(f0) && chain_of(*final(self)).modules@
                        == ms.update(
                        idx,
                        Module::Filter(
                            crate::filter::spec_calc_coefficients(
                                LowPassFilter {
                                    cutoff_freq: crate::fixed::spec_clamp(
                                        v as int,
                                        1,
                                        500 * f0.sample_rate as int - 1,
                                    ) as i64,
                                    ..f0
                                },
                            ),
                        ),
                    )
                }
            }),
    {
        match self {
            SynthType::Sine(s) => s.set_cutoff(v),
            SynthType::Square(s) => s.set_cutoff(v),
            SynthType::Sawtooth(s) => s.set_cutoff(v),
            SynthType::FM(s) => s.set_cutoff(v),
            SynthType::Hammond(s) => s.set_cutoff(v),
        }
    }

    /// Set the filter's resonance; without a filter stage, no change.
    pub fn set_current_resonance(&mut self, v: i64)
        requires
            old(self).wf(),
        ensures
            final(self).wf(),
            same_variant(*old(self), *final(self)),
            ({
                let ms = chain_of(*old(self)).modules@;
                let idx = first_idx(ms, ModuleKind::Filter, 0);
                if idx == -1 {
                    chain_of(*final(self)).modules@ == ms
                } else {
                    ms[idx] matches Module::Filter(f0) && chain_of(*final(self)).modules@
                        == ms.update(
                        idx,
                        Module::Filter(
                            crate::filter::spec_calc_coefficients(
                                LowPassFilter {
                                    resonance: crate::fixed::spec_clamp(
                                        v as int,
                                        crate::filter::MIN_RESONANCE as int,
                                        crate::filter::MAX_RESONANCE as int,
                                    ) as i64,
                                    ..f0
                                },
                            ),
                        ),
                    )
                }
            }),
    {
        match self {
            SynthType::Sine(s) => s.set_resonance(v),
            SynthType::Square(s) => s.set_resonance(v),
            SynthType::Sawtooth(s) => s.set_resonance(v),
            SynthType::FM(s) => s.set_resonance(v),
            SynthType::Hammond(s) => s.set_resonance(v),
        }
    }

    /// The filter's cutoff, or the default without a filter stage.
    pub fn get_current_cutoff(&self) -> (r: i64)
        ensures
            ({
                let ms = chain_of(*self).modules@;
                let idx = first_idx(ms, ModuleKind::Filter, 0);
                if idx == -1 {
                    r == DEFAULT_FILTER_CUTOFF_MILLIHZ
                } else {
                    ms[idx] matches Module::Filter(f) && r == f.cutoff_freq
                }
            }),
    {
        match self {
            SynthType::Sine(s) => s.cutoff_or(DEFAULT_FILTER_CUTOFF_MILLIHZ),
            SynthType::Square(s) => s.cutoff_or(DEFAULT_FILTER_CUTOFF_MILLIHZ),
            SynthType::Sawtooth(s) => s.cutoff_or(DEFAULT_FILTER_CUTOFF_MILLIHZ),
            SynthType::FM(s) => s.cutoff_or(DEFAULT_FILTER_CUTOFF_MILLIHZ),
            SynthType::Hammond(s) => s.cutoff_or(DEFAULT_FILTER_CUTOFF_MILLIHZ),
        }
    }

    /// The filter's resonance, or the default without a filter stage.
    pub fn get_current_resonance(&self) -> (r: i64)
        ensures
            ({
                let ms = chain_of(*self).modules@;
                let idx = first_idx(ms, ModuleKind::Filter, 0);
                if idx == -1 {
                    r == DEFAULT_FILTER_RESONANCE
                } else {
                    ms[idx] matches Module::Filter(f) && r == f.resonance
                }
            }),
    {
        match self {
            SynthType::Sine(s) => s.resonance_or(DEFAULT_FILTER_RESONANCE),
            SynthType::Square(s) => s.resonance_or(DEFAULT_FILTER_RESONANCE),
            SynthType::Sawtooth(s) => s.resonance_or(DEFAULT_FILTER_RESONANCE),
            SynthType::FM(s) => s.resonance_or(DEFAULT_FILTER_RESONANCE),
            SynthType::Hammond(s) => s.resonance_or(DEFAULT_FILTER_RESONANCE),
        }
    }

    /// Set the LFO's rate (clamped); without an LFO stage, no change.
    pub fn set_current_lfo_frequency(&mut self, v: i64)
        requires
            old(self).wf(),
        ensures
            final(self).wf(),
            same_variant(*old(self), *final(self)),
            ({
                let ms = chain_of(*old(self)).modules@;
                let idx = first_idx(ms, ModuleKind::Lfo, 0);
                if idx == -1 {
                    chain_of(*final(self)).modules@ == ms
                } else {
                    ms[idx] matches Module::Lfo(l0) && chain_of(*final(self)).modules@ == ms.update(
                        idx,
                        Module::Lfo(
                            LFO {
                                freq: crate::fixed::spec_clamp(
                                    v as int,
                                    0,
                                    crate::lfo::MAX_LFO_FREQ_MILLIHZ as int,
                                ) as i64,
                                ..l0
                            },
                        ),
                    )
                }
            }),
    {
        match self {
            SynthType::Sine(s) => s.set_lfo_freq(v),
            SynthType::Square(s) => s.set_lfo_freq(v),
            SynthType::Sawtooth(s) => s.set_lfo_freq(v),
            SynthType::FM(s) => s.set_lfo_freq(v),
            SynthType::Hammond(s) => s.set_lfo_freq(v),
        }
    }

    /// Set the LFO's waveform; without an LFO stage, no change.
    pub fn set_current_lfo_waveform(&mut self, w: LfoWaveform)
        requires
            old(self).wf(),
        ensures
            final(self).wf(),
            same_variant(*old(self), *final(self)),
            ({
                let ms = chain_of(*old(self)).modules@;
                let idx = first_idx(ms, ModuleKind::Lfo, 0);
                if idx == -1 {
                    chain_of(*final(self)).modules@ == ms
                } else {
                    ms[idx] matches Module::Lfo(l0) && chain_of(*final(self)).modules@ == ms.update(
                        idx,
                        Module::Lfo(LFO { waveform: w, ..l0 }),
                    )
                }
            }),
    {
        match self {
            SynthType::Sine(s) => s.set_lfo_waveform(w),
            SynthType::Square(s) => s.set_lfo_waveform(w),
            SynthType::Sawtooth(s) => s.set_lfo_waveform(w),
            SynthType::FM(s) => s.set_lfo_waveform(w),
            SynthType::Hammond(s) => s.set_lfo_waveform(w),
        }
    }

    /// The LFO's rate, or the default without an LFO stage.
    pub fn get_current_lfo_frequency(&self) -> (r: i64)
        ensures
            ({
                let ms = chain_of(*self).modules@;
                let idx = first_idx(ms, ModuleKind::Lfo, 0);
                if idx == -1 {
                    r == DEFAULT_LFO_FREQ_MILLIHZ
                } else {
                    ms[idx] matches Module::Lfo(l) && r == l.freq
                }
            }),
    {
        match self {
            SynthType::Sine(s) => s.lfo_freq_or(DEFAULT_LFO_FREQ_MILLIHZ),
            SynthType::Square(s) => s.lfo_freq_or(DEFAULT_LFO_FREQ_MILLIHZ),
            SynthType::Sawtooth(s) => s.lfo_freq_or(DEFAULT_LFO_FREQ_MILLIHZ),
            SynthType::FM(s) => s.lfo_freq_or(DEFAULT_LFO_FREQ_MILLIHZ),
            SynthType::Hammond(s) => s.lfo_freq_or(DEFAULT_LFO_FREQ_MILLIHZ),
        }
    }

    /// The LFO's waveform, or the default without an LFO stage.
    pub fn get_current_lfo_waveform(&self) -> (r: LfoWaveform)
        ensures
            ({
                let ms = chain_of(*self).modules@;
                let idx = first_idx(ms, ModuleKind::Lfo, 0);
                if idx == -1 {
                    r == LfoWaveform::Sine
                } else {
                    ms[idx] matches Module::Lfo(l) && r == l.waveform
                }
            }),
    {
        match self {
            SynthType::Sine(s) => s.lfo_waveform_or(LfoWaveform::Sine),
            SynthType::Square(s) => s.lfo_waveform_or(LfoWaveform::Sine),
            SynthType::Sawtooth(s) => s.lfo_waveform_or(LfoWaveform::Sine),
            SynthType::FM(s) => s.lfo_waveform_or(LfoWaveform::Sine),
            SynthType::Hammond(s) => s.lfo_waveform_or(LfoWaveform::Sine),
        }
    }

    /// Whether a stage of the given kind is active in the chain.
    fn is_kind_active(&self, k: ModuleKind) -> (r: bool)
        ensures
            r == (first_idx(chain_of(*self).modules@, k, 0) >= 0),
    {
        match self {
            SynthType::Sine(s) => s.has_kind(k),
            SynthType::Square(s) => s.has_kind(k),
            SynthType::Sawtooth(s) => s.has_kind(k),
            SynthType::FM(s) => s.has_kind(k),
            SynthType::Hammond(s) => s.has_kind(k),
        }
    }

    pub fn is_gain_active(&self) -> (r: bool)
        ensures
            r == (first_idx(chain_of(*self).modules@, ModuleKind::Gain, 0) >= 0),
    {
        self.is_kind_active(ModuleKind::Gain)
    }

    pub fn is_noise_active(&self) -> (r: bool)
        ensures
            r == (first_idx(chain_of(*self).modules@, ModuleKind::Noise, 0) >= 0),
    {
        self.is_kind_active(ModuleKind::Noise)
    }

    pub fn is_lfo_active(&self) -> (r: bool)
        ensures
            r == (first_idx(chain_of(*self).modules@, ModuleKind::Lfo, 0) >= 0),
    {
        self.is_kind_active(ModuleKind::Lfo)
    }

    pub fn is_filter_active(&self) -> (r: bool)
        ensures
            r == (first_idx(chain_of(*self).modules@, ModuleKind::Filter, 0) >= 0),
    {
        self.is_kind_active(ModuleKind::Filter)
    }

    /// Remove every stage of the given kind from the chain.
    fn deactivate_kind(&mut self, k: ModuleKind)
        requires
            old(self).wf(),
        ensures
            final(self).wf(),
            same_variant(*old(self), *final(self)),
            chain_of(*final(self)).modules@ == remove_kind_seq(chain_of(*old(self)).modules@, k),
    {
        match self {
            SynthType::Sine(s) => s.remove_kind(k),
            SynthType::Square(s) => s.remove_kind(k),
            SynthType::Sawtooth(s) => s.remove_kind(k),
            SynthType::FM(s) => s.remove_kind(k),
            SynthType::Hammond(s) => s.remove_kind(k),
        }
    }

    /// Append a stage to the chain.
    fn activate_module(&mut self, m: Module)
        requires
            old(self).wf(),
            m.wf(),
        ensures
            final(self).wf(),
            same_variant(*old(self), *final(self)),
            chain_of(*old(self)).modules@.len() < 64 ==> chain_of(*final(self)).modules@
                == chain_of(*old(self)).modules@.push(m),
            chain_of(*old(self)).modules@.len() >= 64 ==> *final(self) == *old(self),
    {
        match self {
            SynthType::Sine(s) => s.add_module(m),
            SynthType::Square(s) => s.add_module(m),
            SynthType::Sawtooth(s) => s.add_module(m),
            SynthType::FM(s) => s.add_module(m),
            SynthType::Hammond(s) => s.add_module(m),
        }
    }

    /// Insert a gain stage at the default gain, or remove every gain
    /// stage; a toggle that matches the current state changes nothing.
    pub fn set_gain_activation(&mut self, active: bool)
        requires
            old(self).wf(),
        ensures
            final(self).wf(),
            same_variant(*old(self), *final(self)),
            activation_set(
                chain_of(*old(self)).modules@,
                chain_of(*final(self)).modules@,
                ModuleKind::Gain,
                active,
            ),
            active && first_idx(chain_of(*old(self)).modules@, ModuleKind::Gain, 0) == -1
                && chain_of(*old(self)).modules@.len() < 64 ==> (chain_of(
                *final(self),
            ).modules@.last() matches Module::Gain(g) && g.gain_db == DEFAULT_GAIN_MDB),
    {
        let present = self.is_kind_active(ModuleKind::Gain);
        if active && !present {
            self.activate_module(Module::Gain(Gain::new(DEFAULT_GAIN_MDB)));
        } else if !active && present {
            self.deactivate_kind(ModuleKind::Gain);
        }
    }

    /// Insert a noise stage at the default amount, or remove every
    /// noise stage.
    pub fn set_noise_activation(&mut self, active: bool)
        requires
            old(self).wf(),
        ensures
            final(self).wf(),
            same_variant(*old(self), *final(self)),
            activation_set(
                chain_of(*old(self)).modules@,
                chain_of(*final(self)).modules@,
                ModuleKind::Noise,
                active,
            ),
            active && first_idx(chain_of(*old(self)).modules@, ModuleKind::Noise, 0) == -1
                && chain_of(*old(self)).modules@.len() < 64 ==> (chain_of(
                *final(self),
            ).modules@.last() matches Module::Noise(n) && n.amount == DEFAULT_NOISE_AMOUNT),
    {
        let present = self.is_kind_active(ModuleKind::Noise);
        if active && !present {
            self.activate_module(Module::Noise(Noise::new(DEFAULT_NOISE_AMOUNT)));
        } else if !active && present {
            self.deactivate_kind(ModuleKind::Noise);
        }
    }

    /// Insert an LFO stage at the default rate, or remove every LFO
    /// stage.
    pub fn set_lfo_activation(&mut self, active: bool)
        requires
            old(self).wf(),
        ensures
            final(self).wf(),
            same_variant(*old(self), *final(self)),
            activation_set(
                chain_of(*old(self)).modules@,
                chain_of(*final(self)).modules@,
                ModuleKind::Lfo,
                active,
            ),
            active && first_idx(chain_of(*old(self)).modules@, ModuleKind::Lfo, 0) == -1
                && chain_of(*old(self)).modules@.len() < 64 ==> (chain_of(
                *final(self),
            ).modules@.last() matches Module::Lfo(l) && l.freq == DEFAULT_LFO_FREQ_MILLIHZ),
    {
        let present = self.is_kind_active(ModuleKind::Lfo);
        if active && !present {
            self.activate_module(
                Module::Lfo(
                    LFO::new(LfoWaveform::Sine, DEFAULT_LFO_FREQ_MILLIHZ, DEFAULT_SAMPLE_RATE),
                ),
            );
        } else if !active && present {
            self.deactivate_kind(ModuleKind::Lfo);
        }
    }

    /// Insert a filter stage at the default cutoff and resonance, or
    /// remove every filter stage.
    pub fn set_filter_activation(&mut self, active: bool)
        requires
            old(self).wf(),
        ensures
            final(self).wf(),
            same_variant(*old(self), *final(self)),
            activation_set(
                chain_of(*old(self)).modules@,
                chain_of(*final(self)).modules@,
                ModuleKind::Filter,
                active,
            ),
            active && first_idx(chain_of(*old(self)).modules@, ModuleKind::Filter, 0) == -1
                && chain_of(*old(self)).modules@.len() < 64 ==> (chain_of(
                *final(self),
            ).modules@.last() matches Module::Filter(f) && f.cutoff_freq
                == DEFAULT_FILTER_CUTOFF_MILLIHZ && f.resonance == DEFAULT_FILTER_RESONANCE),
    {
        let present = self.is_kind_active(ModuleKind::Filter);
        if active && !present {
            self.activate_module(
                Module::Filter(
                    LowPassFilter::new(
                        DEFAULT_SAMPLE_RATE,
                        DEFAULT_FILTER_CUTOFF_MILLIHZ,
                        DEFAULT_FILTER_RESONANCE,
                    ),
                ),
            );
        } else if !active && present {
            self.deactivate_kind(ModuleKind::Filter);
        }
    }

    /// Insert a compressor stage at the default settings, or remove
    /// every compressor stage.
    pub fn set_compressor_activation(&mut self, active: bool)
        requires
            old(self).wf(),
        ensures
            final(self).wf(),
            same_variant(*old(self), *final(self)),
            activation_set(
                chain_of(*old(self)).modules@,
                chain_of(*final(self)).modules@,
                ModuleKind::Compressor,
                active,
            ),
            active && first_idx(chain_of(*old(self)).modules@, ModuleKind::Compressor, 0) == -1
                && chain_of(*old(self)).modules@.len() < 64 ==> (chain_of(
                *final(self),
            ).modules@.last() matches Module::Compressor(c) && c.threshold_db
                == DEFAULT_THRESHOLD_MDB && c.ratio == DEFAULT_RATIO),
    {
        let present = self.is_kind_active(ModuleKind::Compressor);
        if active && !present {
            self.activate_module(
                Module::Compressor(
                    Compressor::new(
                        DEFAULT_THRESHOLD_MDB,
                        DEFAULT_RATIO,
                        DEFAULT_COMP_ATTACK_MICROS,
                        DEFAULT_COMP_RELEASE_MICROS,
                        DEFAULT_MAKEUP_MDB,
                        DEFAULT_SAMPLE_RATE,
                    ),
                ),
            );
        } else if !active && present {
            self.deactivate_kind(ModuleKind::Compressor);
        }
    }

    /// Insert a reverb stage at the default preset, or remove every
    /// reverb stage.
    pub fn set_reverb_activation(&mut self, active: bool)
        requires
            old(self).wf(),
        ensures
            final(self).wf(),
            same_variant(*old(self), *final(self)),
            activation_set(
                chain_of(*old(self)).modules@,
                chain_of(*final(self)).modules@,
                ModuleKind::Reverb,
                active,
            ),
            active && first_idx(chain_of(*old(self)).modules@, ModuleKind::Reverb, 0) == -1
                && chain_of(*old(self)).modules@.len() < 64 ==> (chain_of(
                *final(self),
            ).modules@.last() matches Module::Reverb(v) && v.reverb_type
                == DEFAULT_REVERB_TYPE),
    {
        let present = self.is_kind_active(ModuleKind::Reverb);
        if active && !present {
            self.activate_module(
                Module::Reverb(Reverb::new(DEFAULT_SAMPLE_RATE, DEFAULT_REVERB_TYPE)),
            );
        } else if !active && present {
            self.deactivate_kind(ModuleKind::Reverb);
        }
    }
}

} // verus!
