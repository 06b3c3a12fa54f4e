//! Envelope behaviour: staging, monotonicity, termination, and the
//! end-to-end amplitude figures for a one-second attack and a half
//! second release.

use synthesizer_emulation::adsr::{ADSR, EnvelopeCurve, EnvelopeStage};
use synthesizer_emulation::fixed::LEVEL_ONE;

#[test]
fn new_envelope_is_idle_at_zero() {
    let adsr = ADSR::new(44_100);
    assert_eq!(adsr.get_stage(), EnvelopeStage::Idle);
    assert_eq!(adsr.get_level(), 0);
    assert_eq!(adsr.get_curve(), EnvelopeCurve::Linear);
    assert_eq!(adsr.get_sample_rate(), 44_100);
}

#[test]
fn note_on_enters_attack_and_computes_step() {
    let mut adsr = ADSR::new(44_100);
    adsr.set_attack(1_000_000); // one second
    adsr.note_on();
    assert_eq!(adsr.get_stage(), EnvelopeStage::Attack);
    // one second at 44100 Hz: the level must cross LEVEL_ONE in 44100 steps
    assert_eq!(adsr.get_step(), LEVEL_ONE / 44_100);
}

#[test]
fn attack_is_monotone_and_level_stays_in_range() {
    let mut adsr = ADSR::new(44_100);
    adsr.set_attack(50_000); // 50 ms
    adsr.note_on();
    let mut prev = adsr.get_level();
    for _ in 0..3000 {
        if adsr.get_stage() != EnvelopeStage::Attack {
            break;
        }
        let level = adsr.get_amplitude();
        assert!(level >= prev, "attack level fell");
        assert!(0 <= level && level <= LEVEL_ONE);
        prev = level;
    }
}

#[test]
fn decay_falls_to_sustain_and_holds() {
    let mut adsr = ADSR::new(44_100);
    adsr.set_attack(0);
    adsr.set_decay(10_000); // 10 ms
    adsr.set_sustain(600_000_000);
    adsr.note_on(); // zero attack jumps straight to full level
    let mut prev = adsr.get_amplitude();
    for _ in 0..2000 {
        let level = adsr.get_amplitude();
        match adsr.get_stage() {
            EnvelopeStage::Decay => assert!(level <= prev, "decay level rose"),
            EnvelopeStage::Sustain => {
                assert_eq!(level, 600_000_000);
            }
            other => panic!("unexpected stage {:?}", other),
        }
        prev = level;
    }
    assert_eq!(adsr.get_stage(), EnvelopeStage::Sustain);
}

#[test]
fn release_reaches_idle_in_finitely_many_steps() {
    let mut adsr = ADSR::new(44_100);
    adsr.set_attack(0);
    adsr.set_release(20_000); // 20 ms
    adsr.note_on();
    adsr.note_off();
    assert_eq!(adsr.get_stage(), EnvelopeStage::Release);
    let mut steps: u64 = 0;
    let mut prev = adsr.get_level();
    while adsr.get_stage() != EnvelopeStage::Idle {
        let level = adsr.get_amplitude();
        assert!(level <= prev, "release level rose");
        steps += 1;
        assert!(steps <= LEVEL_ONE as u64 + 1, "release never finished");
        prev = level;
    }
    assert_eq!(adsr.get_level(), 0);
}

#[test]
fn exponential_release_also_terminates() {
    let mut adsr = ADSR::new(44_100);
    adsr.set_curve(EnvelopeCurve::Exponential);
    adsr.set_attack(0);
    adsr.set_release(50_000);
    adsr.note_on();
    adsr.note_off();
    let mut steps: u64 = 0;
    while adsr.get_stage() != EnvelopeStage::Idle {
        adsr.get_amplitude();
        steps += 1;
        assert!(steps <= LEVEL_ONE as u64 + 1, "exponential release never finished");
    }
}

#[test]
fn one_second_attack_reaches_full_level_within_one_percent() {
    let mut adsr = ADSR::new(44_100);
    adsr.set_attack(1_000_000); // 1.0 s
    adsr.note_on();
    let mut level = 0;
    for _ in 0..44_100 {
        level = adsr.get_amplitude();
    }
    // amplitude at the last sample of the attack second: within 1% of one
    assert!(level >= LEVEL_ONE - LEVEL_ONE / 100, "attack fell short: {}", level);
    assert!(level <= LEVEL_ONE);
}

#[test]
fn half_second_release_fades_out_within_five_percent_margin() {
    let mut adsr = ADSR::new(44_100);
    adsr.set_attack(1_000_000);
    adsr.set_release(500_000); // 0.5 s
    adsr.note_on();
    for _ in 0..44_100 {
        adsr.get_amplitude();
    }
    adsr.note_off();
    let budget = 22_050 + 22_050 / 20; // 44100 * 0.5, plus 5%
    let mut finished_at = None;
    for n in 0..budget {
        adsr.get_amplitude();
        if adsr.is_finished() {
            finished_at = Some(n);
            break;
        }
    }
    let at = finished_at.expect("release did not finish within the budget");
    // not idle absurdly early either: at least 80% of the nominal time
    assert!(at >= 22_050 * 8 / 10, "release finished too early: {}", at);
    assert_eq!(adsr.get_level(), 0);
}

#[test]
fn note_on_mid_release_restarts_from_current_level() {
    let mut adsr = ADSR::new(44_100);
    adsr.set_attack(100_000);
    adsr.set_release(1_000_000);
    adsr.note_on();
    for _ in 0..4_410 {
        adsr.get_amplitude();
    }
    adsr.note_off();
    for _ in 0..5_000 {
        adsr.get_amplitude();
    }
    let mid = adsr.get_level();
    assert!(mid > 0);
    adsr.note_on();
    // the restart keeps the reached level: no jump to zero or to one
    assert_eq!(adsr.get_level(), mid);
    assert_eq!(adsr.get_stage(), EnvelopeStage::Attack);
}

#[test]
fn setters_clamp_out_of_range_values() {
    let mut adsr = ADSR::new(44_100);
    adsr.set_attack(-5);
    assert_eq!(adsr.get_attack(), 0);
    adsr.set_sustain(2 * LEVEL_ONE);
    assert_eq!(adsr.get_sustain(), LEVEL_ONE);
    adsr.set_sustain(-1);
    assert_eq!(adsr.get_sustain(), 0);
    adsr.set_release(LEVEL_ONE);
    assert_eq!(adsr.get_release(), 600_000_000);
    adsr.set_decay(7);
    assert_eq!(adsr.get_decay(), 7);
}

#[test]
fn zero_attack_jumps_straight_to_full_level() {
    let mut adsr = ADSR::new(44_100);
    adsr.set_attack(0);
    adsr.note_on();
    assert_eq!(adsr.get_level(), LEVEL_ONE);
    assert_eq!(adsr.get_stage(), EnvelopeStage::Attack);
}
