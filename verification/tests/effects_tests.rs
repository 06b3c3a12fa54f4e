//! Behaviour of the stateful effects: filter boundedness and decay,
//! compressor transparency below threshold and its reduction above it,
//! and the reverb's dry/wet laws on real signals.

use synthesizer_emulation::compressor::Compressor;
use synthesizer_emulation::filter::LowPassFilter;
use synthesizer_emulation::fixed::FP_ONE;
use synthesizer_emulation::reverb::{Reverb, ReverbType};

#[test]
fn filter_impulse_response_is_bounded_and_decays() {
    // 1 kHz cutoff, Q of 0.707, at 44100 Hz
    let mut f = LowPassFilter::new(44_100, 1_000_000, 707_000);
    let mut peak: i64 = 0;
    let mut y: i64 = f.process(FP_ONE); // unit impulse
    for n in 0..5_000 {
        if y.abs() > peak {
            peak = y.abs();
        }
        y = f.process(0);
        if n > 4_000 {
            // long after the impulse the ringing has died away
            assert!(y.abs() < 1_000, "response still ringing: {}", y);
        }
    }
    assert!(peak > 0, "the impulse never came through");
    assert!(peak <= 2 * FP_ONE, "response blew up: {}", peak);
}

#[test]
fn filter_passes_a_low_frequency_ramp_without_blowing_up() {
    let mut f = LowPassFilter::new(44_100, 8_000_000, 1_200_000);
    for n in 0..20_000i64 {
        let x = (n % 2_000) * 1_000 - FP_ONE; // a slow sawtooth
        let y = f.process(x);
        assert!(y.abs() <= 4 * FP_ONE, "output left the audible range: {}", y);
    }
}

#[test]
fn filter_setters_retune_immediately_and_clamp() {
    let mut f = LowPassFilter::new(44_100, 8_000_000, 1_200_000);
    let a0_wide = f.a0;
    f.set_cutoff_freq(500_000); // much darker
    assert_eq!(f.get_cutoff_freq(), 500_000);
    assert!(f.a0 != a0_wide, "coefficients were not recomputed");
    f.set_cutoff_freq(99_000_000_000); // clamped below Nyquist
    assert_eq!(f.get_cutoff_freq(), 500 * 44_100 - 1);
    f.set_resonance(-5);
    assert_eq!(f.get_resonance(), 10_000);
    f.set_sample_rate(22_050);
    assert_eq!(f.get_sample_rate(), 22_050);
}

#[test]
fn compressor_below_threshold_applies_exactly_the_makeup_gain() {
    // -10 dB threshold, 4:1, no make-up: quiet samples pass unchanged
    let mut c = Compressor::new(-10_000, 4_000_000, 1_010_000, 200_000, 0, 44_100);
    for _ in 0..2_000 {
        let out = c.process(100);
        assert_eq!(out, 100);
    }
}

#[test]
fn compressor_reduces_loud_signals() {
    let mut c = Compressor::new(-10_000, 4_000_000, 100_000, 200_000, 0, 44_100);
    let loud = 500_000_000; // 54 dB over full scale
    let mut out = loud;
    for _ in 0..50_000 {
        out = c.process(loud);
    }
    assert!(out < loud / 2, "no audible reduction: {}", out);
    assert!(out > 0, "the signal's sign was not preserved");
}

#[test]
fn compressor_knee_and_threshold_setters_clamp() {
    let mut c = Compressor::new(-10_000, 4_000_000, 100_000, 200_000, 0, 44_100);
    assert_eq!(c.get_threshold(), -10_000);
    c.set_threshold(-999_000_000);
    assert_eq!(c.get_threshold(), -120_000);
    c.set_knee(100_000);
    assert_eq!(c.get_knee(), 24_000);
    c.set_knee(-1);
    assert_eq!(c.get_knee(), 0);
}

#[test]
fn fully_dry_reverb_returns_the_input_exactly() {
    let mut rv = Reverb::new(44_100, ReverbType::Hall);
    rv.set_dry_wet(0);
    for x in [0i64, 1, -1, 123_456, -999_999, FP_ONE] {
        assert_eq!(rv.process(x), x);
    }
}

#[test]
fn fully_wet_reverb_without_impulse_response_is_tail_only() {
    let mut rv = Reverb::new(44_100, ReverbType::Plate);
    rv.set_dry_wet(FP_ONE);
    // before anything has entered the delay lines the tail is silent,
    // whatever the input sample
    assert_eq!(rv.process(FP_ONE), 0);
    // feed a sustained signal: the tail must come alive
    let mut heard: i64 = 0;
    for _ in 0..40_000 {
        let y = rv.process(FP_ONE);
        if y.abs() > heard {
            heard = y.abs();
        }
    }
    assert!(heard > 0, "a sustained input never produced a tail");
    // feed silence long enough: the tail must die back down
    let mut late: i64 = 0;
    for n in 0..400_000 {
        let y = rv.process(0);
        if n > 350_000 && y.abs() > late {
            late = y.abs();
        }
    }
    assert!(late < heard / 100 + 10, "the tail never decayed: {}", late);
}

#[test]
fn reverb_preset_change_reconfigures_the_mix() {
    let mut rv = Reverb::new(44_100, ReverbType::Room);
    assert_eq!(rv.dry_wet, 200_000);
    assert_eq!(rv.pre_delay_ms, 8);
    rv.set_type(ReverbType::Shimmer);
    assert_eq!(rv.reverb_type(), ReverbType::Shimmer);
    assert_eq!(rv.dry_wet, 350_000);
    assert_eq!(rv.pre_delay_ms, 25);
    assert_eq!(rv.tail_gain, FP_ONE);
}

#[test]
fn reverb_impulse_response_drives_early_reflections() {
    let mut rv = Reverb::new(44_100, ReverbType::Room);
    rv.set_dry_wet(FP_ONE);
    rv.set_ir(vec![FP_ONE]); // a one-tap identity response
    // the early path now echoes the pre-delayed input; after the
    // pre-delay has filled, a sustained input must be heard
    let mut heard = false;
    for _ in 0..2_000 {
        if rv.process(FP_ONE) != 0 {
            heard = true;
            break;
        }
    }
    assert!(heard, "a loaded impulse response produced nothing");
}

#[test]
fn reverb_ir_is_clamped_and_truncated() {
    let mut rv = Reverb::new(44_100, ReverbType::Room);
    rv.set_ir(vec![5_000_000, -5_000_000, 3]);
    assert_eq!(rv.ir.len(), 3);
    assert_eq!(rv.ir[0], FP_ONE);
    assert_eq!(rv.ir[1], -FP_ONE);
    assert_eq!(rv.ir[2], 3);
}
