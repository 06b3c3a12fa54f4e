//! The frequency-set trigger layer: edge-triggered note events against
//! the preset's own envelopes.

use synthesizer_emulation::adsr::EnvelopeStage;
use synthesizer_emulation::freqs::{
    add_frequency_realtime, remove_frequency_realtime, stop_all_frequencies_realtime, FrequencySet,
};
use synthesizer_emulation::manager::SynthType;
use synthesizer_emulation::modular::{Module, ModuleKind, ModularSynth};
use synthesizer_emulation::oscillators::{Oscillator, SineOscillator};

fn synth_with_envelope() -> SynthType {
    let mut chain = ModularSynth::new(Oscillator::Sine(SineOscillator));
    chain.add_module(Module::Adsr(synthesizer_emulation::adsr::ADSR::new(44_100)));
    SynthType::Sine(chain)
}

fn envelope_stage(synth: &SynthType) -> EnvelopeStage {
    let chain = match synth {
        SynthType::Sine(s) => s,
        _ => panic!("not the sine preset"),
    };
    let ix = chain.first_of_kind(ModuleKind::Adsr).expect("no envelope stage");
    match &chain.modules[ix] {
        Module::Adsr(a) => a.get_stage(),
        _ => panic!("not an envelope"),
    }
}

#[test]
fn first_held_pitch_arms_the_envelopes() {
    let mut freqs = FrequencySet::new();
    let mut synth = synth_with_envelope();
    assert_eq!(envelope_stage(&synth), EnvelopeStage::Idle);
    add_frequency_realtime(&mut freqs, &mut synth, 440_000);
    assert_eq!(freqs.held_count(), 1);
    assert_eq!(envelope_stage(&synth), EnvelopeStage::Attack);
}

#[test]
fn further_pitches_do_not_retrigger() {
    let mut freqs = FrequencySet::new();
    let mut synth = synth_with_envelope();
    add_frequency_realtime(&mut freqs, &mut synth, 440_000);
    add_frequency_realtime(&mut freqs, &mut synth, 550_000);
    add_frequency_realtime(&mut freqs, &mut synth, 440_000); // already held
    assert_eq!(freqs.held_count(), 2);
    assert_eq!(envelope_stage(&synth), EnvelopeStage::Attack);
}

#[test]
fn last_pitch_leaving_releases_the_envelopes() {
    let mut freqs = FrequencySet::new();
    let mut synth = synth_with_envelope();
    add_frequency_realtime(&mut freqs, &mut synth, 440_000);
    add_frequency_realtime(&mut freqs, &mut synth, 550_000);
    remove_frequency_realtime(&mut freqs, &mut synth, 440_000);
    assert_eq!(freqs.held_count(), 1);
    assert_eq!(envelope_stage(&synth), EnvelopeStage::Attack); // one still held
    remove_frequency_realtime(&mut freqs, &mut synth, 550_000);
    assert_eq!(freqs.held_count(), 0);
    assert_eq!(envelope_stage(&synth), EnvelopeStage::Release);
}

#[test]
fn removing_an_unheld_pitch_changes_nothing() {
    let mut freqs = FrequencySet::new();
    let mut synth = synth_with_envelope();
    add_frequency_realtime(&mut freqs, &mut synth, 440_000);
    remove_frequency_realtime(&mut freqs, &mut synth, 999_000);
    assert_eq!(freqs.held_count(), 1);
    assert_eq!(envelope_stage(&synth), EnvelopeStage::Attack);
}

#[test]
fn stop_all_clears_the_set_and_releases_once() {
    let mut freqs = FrequencySet::new();
    let mut synth = synth_with_envelope();
    add_frequency_realtime(&mut freqs, &mut synth, 440_000);
    add_frequency_realtime(&mut freqs, &mut synth, 550_000);
    stop_all_frequencies_realtime(&mut freqs, &mut synth);
    assert_eq!(freqs.held_count(), 0);
    assert_eq!(envelope_stage(&synth), EnvelopeStage::Release);
    // a second sweep over an empty set leaves the synth alone
    let stage_before = envelope_stage(&synth);
    stop_all_frequencies_realtime(&mut freqs, &mut synth);
    assert_eq!(envelope_stage(&synth), stage_before);
}
