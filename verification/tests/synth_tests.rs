//! The preset facade and the polyphonic renderer: preset wiring,
//! parameter access with defaults, activation toggles, and block
//! rendering.

use synthesizer_emulation::adsr::{ADSR, EnvelopeStage};
use synthesizer_emulation::fixed::{FP_ONE, PHASE_ONE};
use synthesizer_emulation::lfo::LfoWaveform;
use synthesizer_emulation::manager::SynthType;
use synthesizer_emulation::modular::{Module, ModularSynth, ModuleKind};
use synthesizer_emulation::noise::Noise;
use synthesizer_emulation::notes::NoteManager;
use synthesizer_emulation::oscillators::{Oscillator, SineOscillator};
use synthesizer_emulation::render::{PhaseTable, render_block};

#[test]
fn presets_carry_the_full_default_chain() {
    for synth in [
        SynthType::n_sine(),
        SynthType::n_square(),
        SynthType::n_sawtooth(),
        SynthType::n_fm(),
        SynthType::n_hammond(),
    ] {
        assert!(synth.is_gain_active());
        assert!(synth.is_noise_active());
        assert!(synth.is_lfo_active());
        assert!(synth.is_filter_active());
    }
    assert_eq!(SynthType::n_sine().name(), "Modular Sine");
    assert_eq!(SynthType::n_hammond().name(), "Modular Hammond");
}

#[test]
fn parameter_facade_reads_and_writes_the_chain() {
    let mut synth = SynthType::n_sine();
    assert_eq!(synth.get_current_gain(), 0);
    synth.set_current_gain(6_000);
    assert_eq!(synth.get_current_gain(), 6_000);
    synth.set_current_noise(250_000);
    assert_eq!(synth.get_current_noise(), 250_000);
    synth.set_current_cutoff(2_000_000);
    assert_eq!(synth.get_current_cutoff(), 2_000_000);
    synth.set_current_resonance(900_000);
    assert_eq!(synth.get_current_resonance(), 900_000);
    synth.set_current_lfo_frequency(5_000);
    assert_eq!(synth.get_current_lfo_frequency(), 5_000);
    synth.set_current_lfo_waveform(LfoWaveform::SawDown);
    assert_eq!(synth.get_current_lfo_waveform(), LfoWaveform::SawDown);
}

#[test]
fn missing_stages_fall_back_to_the_documented_defaults() {
    let mut synth = SynthType::n_square();
    synth.set_gain_activation(false);
    assert!(!synth.is_gain_active());
    assert_eq!(synth.get_current_gain(), 0); // the default, not an error
    synth.set_current_gain(9_000); // setter on a missing stage: no-op
    assert!(!synth.is_gain_active());
    synth.set_gain_activation(true);
    assert!(synth.is_gain_active());
    assert_eq!(synth.get_current_gain(), 0); // re-added at the default
}

#[test]
fn activation_toggles_insert_and_remove_stages() {
    let mut synth = SynthType::n_fm();
    synth.set_filter_activation(false);
    assert!(!synth.is_filter_active());
    synth.set_noise_activation(false);
    assert!(!synth.is_noise_active());
    synth.set_lfo_activation(false);
    assert!(!synth.is_lfo_active());
    // toggling an absent stage off again changes nothing
    synth.set_filter_activation(false);
    assert!(!synth.is_filter_active());
    synth.set_filter_activation(true);
    assert!(synth.is_filter_active());
}

#[test]
fn generated_samples_stay_within_the_chain_bound() {
    let mut synth = SynthType::n_sawtooth();
    let mut phase: i64 = 0;
    for _ in 0..5_000 {
        let s = synth.generate_sample(phase);
        assert!(s.abs() <= 1_000_000_000);
        phase = (phase + 9_977) % PHASE_ONE;
    }
}

#[test]
fn a_bare_chain_is_just_its_oscillator() {
    let mut chain = ModularSynth::new(Oscillator::Sine(SineOscillator));
    assert_eq!(chain.generate_sample(250_000), FP_ONE);
    assert_eq!(chain.generate_sample(750_000), -FP_ONE);
}

#[test]
fn chain_order_is_kept_and_stages_are_found_by_kind() {
    let mut chain = ModularSynth::new(Oscillator::Sine(SineOscillator));
    chain.add_module(Module::Noise(Noise::new(0)));
    chain.add_module(Module::Gain(synthesizer_emulation::gain::Gain::new(0)));
    assert_eq!(chain.first_of_kind(ModuleKind::Noise), Some(0));
    assert_eq!(chain.first_of_kind(ModuleKind::Gain), Some(1));
    assert_eq!(chain.first_of_kind(ModuleKind::Reverb), None);
    chain.remove_kind(ModuleKind::Noise);
    assert_eq!(chain.first_of_kind(ModuleKind::Gain), Some(0));
}

#[test]
fn envelope_stages_in_a_chain_follow_note_events() {
    let mut chain = ModularSynth::new(Oscillator::Sine(SineOscillator));
    chain.add_module(Module::Adsr(ADSR::new(44_100)));
    chain.note_on();
    match &chain.modules[0] {
        Module::Adsr(a) => assert_eq!(a.get_stage(), EnvelopeStage::Attack),
        _ => panic!("the envelope stage went missing"),
    }
    chain.note_off();
    match &chain.modules[0] {
        Module::Adsr(a) => assert_eq!(a.get_stage(), EnvelopeStage::Release),
        _ => panic!("the envelope stage went missing"),
    }
}

#[test]
fn rendering_with_no_voices_writes_silence() {
    let mut notes = NoteManager::new();
    let mut synth = SynthType::n_sine();
    let mut phases = PhaseTable::new();
    let mut out = vec![77i64; 128];
    render_block(&mut notes, &mut synth, &mut phases, 2, 44_100, &mut out);
    assert_eq!(out.len(), 128);
    assert!(out.iter().all(|s| *s == 0));
}

#[test]
fn rendering_one_voice_fills_every_channel_alike_within_range() {
    let mut notes = NoteManager::new();
    notes.add_note(440_000, 44_100);
    let mut synth = SynthType::n_sine();
    let mut phases = PhaseTable::new();
    let mut out = vec![0i64; 256];
    render_block(&mut notes, &mut synth, &mut phases, 2, 44_100, &mut out);
    for f in 0..128 {
        assert_eq!(out[2 * f], out[2 * f + 1], "channels diverged at frame {}", f);
        assert!(out[2 * f].abs() <= FP_ONE);
    }
    // the voice's envelope advanced one sample per frame
    let ix = notes.find_note(440_000).unwrap();
    let expected_level = 128 * (1_000_000_000 / 4_410);
    assert_eq!(notes.notes[ix].adsr.level, expected_level);
}

#[test]
fn phase_table_stores_and_prunes_voices() {
    let mut phases = PhaseTable::new();
    assert_eq!(phases.phase_of(440_000), 0);
    phases.set_phase(440_000, 123);
    phases.set_phase(660_000, 456);
    assert_eq!(phases.phase_of(440_000), 123);
    phases.set_phase(440_000, 999);
    assert_eq!(phases.phase_of(440_000), 999);
    assert_eq!(phases.entries.len(), 2);

    // fade one voice out completely and prune
    let mut notes = NoteManager::new();
    notes.add_note(440_000, 44_100);
    notes.add_note(660_000, 44_100);
    let ix = notes.find_note(440_000).unwrap();
    notes.notes[ix].set_current_release(0);
    notes.notes[ix].note_off();
    while !notes.notes[ix].is_finished() {
        notes.notes[ix].get_amplitude();
    }
    phases.prune_finished(&notes);
    assert_eq!(phases.entries.len(), 1);
    assert_eq!(phases.phase_of(660_000), 456);
    assert_eq!(phases.phase_of(440_000), 0);
}
