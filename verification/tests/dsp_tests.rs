//! Exact values of the fixed-point DSP primitives: the sine table, the
//! oscillators, the dB conversions, the gain, LFO and noise stages.

use synthesizer_emulation::db::{db_to_linear, linear_to_db, MIN_DB_MILLI};
use synthesizer_emulation::fixed::{isqrt, sine_at, FP_ONE};
use synthesizer_emulation::gain::Gain;
use synthesizer_emulation::lfo::{LfoWaveform, LFO};
use synthesizer_emulation::noise::Noise;
use synthesizer_emulation::oscillators::{
    FmOscillator, HammondOscillator, Oscillator, SawtoothOscillator, SineOscillator,
    SquareOscillator,
};
use synthesizer_emulation::waves::{FMSynth, HammondSynth, SawtoothSynth, SineSynth, SquareSynth};

#[test]
fn sine_hits_its_corners_exactly() {
    assert_eq!(sine_at(0), 0);
    assert_eq!(sine_at(250_000), FP_ONE); // quarter cycle: one
    assert_eq!(sine_at(750_000), -FP_ONE); // three quarters: minus one
    assert_eq!(sine_at(100_000), 640_000); // 100000 * 400000 / 62500
    assert_eq!(sine_at(500_000 + 100_000), -640_000);
}

#[test]
fn oscillators_produce_their_waveforms() {
    let sine = SineOscillator;
    assert_eq!(sine.sample(250_000), FP_ONE);
    let square = SquareOscillator;
    assert_eq!(square.sample(0), FP_ONE);
    assert_eq!(square.sample(499_999), FP_ONE);
    assert_eq!(square.sample(500_000), -FP_ONE);
    let saw = SawtoothOscillator;
    assert_eq!(saw.sample(0), -FP_ONE);
    assert_eq!(saw.sample(750_000), 500_000);
    let hammond = HammondOscillator;
    for p in [0i64, 125_000, 333_333, 700_000, 999_999] {
        let s = hammond.sample(p);
        assert!(-FP_ONE <= s && s <= FP_ONE);
    }
}

#[test]
fn fm_oscillator_with_zero_depth_is_a_soft_clipped_sine_mix() {
    // no modulation: the carrier phase is the raw phase
    let fm = FmOscillator::new(0, FP_ONE);
    for p in [0i64, 100_000, 250_000, 600_000, 900_000] {
        let s = fm.sample(p);
        assert!(-FP_ONE <= s && s <= FP_ONE);
    }
    // at a quarter cycle: carrier one, second harmonic sin(half cycle) = 0,
    // so the mix is exactly one, soft-clipped to 0.79
    assert_eq!(fm.sample(250_000), 700_000 + 300_000 * 3 / 10);
    let osc = Oscillator::Fm(fm);
    assert_eq!(osc.sample(250_000), 790_000);
}

#[test]
fn db_conversion_round_figures() {
    assert_eq!(db_to_linear(0), 1_000_000); // 0 dB is exactly unity
    assert_eq!(db_to_linear(20_000), 9_999_999); // +20 dB: a factor of ten
    assert_eq!(db_to_linear(-20_000), 100_000); // -20 dB: a tenth
    assert_eq!(db_to_linear(6_020), 1_999_861); // +6.02 dB: near two
    assert_eq!(db_to_linear(120_000), 999_999_675_281);
    assert_eq!(db_to_linear(-120_000), 1);
    assert_eq!(db_to_linear(200_000), db_to_linear(120_000)); // clamped
}

#[test]
fn linear_to_db_round_figures() {
    assert_eq!(linear_to_db(1_000_000), 0); // unity is exactly 0 dB
    assert_eq!(linear_to_db(2_000_000), 6_020); // a factor of two
    assert_eq!(linear_to_db(0), MIN_DB_MILLI); // silence floor
    assert_eq!(linear_to_db(-5), MIN_DB_MILLI);
    let half = linear_to_db(500_000);
    assert!((-6_120..=-5_920).contains(&half), "half was {} milli-dB", half);
}

#[test]
fn integer_square_root_is_exact() {
    assert_eq!(isqrt(0), 0);
    assert_eq!(isqrt(1), 1);
    assert_eq!(isqrt(3), 1);
    assert_eq!(isqrt(4), 2);
    assert_eq!(isqrt(1_000_000_000_000), 1_000_000);
    assert_eq!(isqrt(999_999_999_999), 999_999);
}

#[test]
fn unity_gain_passes_samples_through_unchanged() {
    let g = Gain::new(0);
    assert_eq!(g.process(12_345), 12_345);
    assert_eq!(g.process(-987_654), -987_654);
}

#[test]
fn twenty_db_gain_scales_by_ten() {
    let g = Gain::new(20_000);
    // 1000 * 9_999_999 / 1_000_000, truncated
    assert_eq!(g.process(1_000), 9_999);
    let cut = Gain::new(-20_000);
    assert_eq!(cut.process(1_000_000), 100_000);
}

#[test]
fn gain_setter_clamps_and_reports() {
    let mut g = Gain::new(0);
    g.set_gain(999_000_000);
    assert_eq!(g.get_gain(), 120_000);
    g.set_gain(-999_000_000);
    assert_eq!(g.get_gain(), -120_000);
}

#[test]
fn lfo_at_zero_output_is_transparent() {
    // a triangle at phase zero outputs zero, so the factor is unity
    let mut lfo = LFO::new(LfoWaveform::Triangle, 0, 44_100);
    assert_eq!(lfo.process(123_456), 123_456);
}

#[test]
fn lfo_square_at_full_amplitude_doubles_the_sample() {
    // a square at phase zero outputs one: factor two
    let mut lfo = LFO::new(LfoWaveform::Square, 0, 44_100);
    assert_eq!(lfo.process(250_000), 500_000);
}

#[test]
fn lfo_phase_advances_by_freq_over_rate() {
    let mut lfo = LFO::new(LfoWaveform::Sine, 441_000_000, 44_100); // 441 kHz
    lfo.process(0);
    // 441000000 mHz * 1000 / 44100 Hz = 10_000_000 steps, wrapped into one cycle
    assert_eq!(lfo.get_freq(), 441_000_000);
    assert_eq!(lfo.phase, 0); // exactly ten cycles wrap back to zero
    let mut slow = LFO::new(LfoWaveform::Sine, 44_100_000, 44_100); // 44.1 kHz
    slow.process(0);
    assert_eq!(slow.phase, 0); // one full cycle
    let mut odd = LFO::new(LfoWaveform::Sine, 22_050_000, 44_100);
    odd.process(0);
    assert_eq!(odd.phase, 500_000); // half a cycle
}

#[test]
fn noise_with_zero_amount_only_clamps() {
    let n = Noise::new(0);
    assert_eq!(n.process(123), 123);
    assert_eq!(n.process(2_000_000), FP_ONE); // clamped to one unit
    assert_eq!(n.process(-2_000_000), -FP_ONE);
}

#[test]
fn noise_draws_actually_vary() {
    // at full amount the disturbance is a fresh random value per sample;
    // a constant would mean the random source was never consulted
    let n = Noise::new(FP_ONE);
    let first = n.process(0);
    let mut saw_different = false;
    for _ in 0..200 {
        if n.process(0) != first {
            saw_different = true;
            break;
        }
    }
    assert!(saw_different, "two hundred draws all came out identical");
}

#[test]
fn noise_amount_is_clamped() {
    let mut n = Noise::new(5_000_000);
    assert_eq!(n.get_amount(), FP_ONE);
    n.set_amount(-3);
    assert_eq!(n.get_amount(), 0);
}

#[test]
fn simple_synth_voices_follow_their_shapes() {
    let sine = SineSynth::new();
    assert_eq!(sine.generate_sample(250_000, 440_000), FP_ONE);
    let mut soft = SineSynth::new();
    soft.set_amplitude(500_000);
    assert_eq!(soft.generate_sample(250_000, 440_000), 500_000);

    let square = SquareSynth::new(300_000);
    assert_eq!(square.generate_sample(299_999, 440_000), FP_ONE);
    assert_eq!(square.generate_sample(300_000, 440_000), -FP_ONE);

    let saw = SawtoothSynth::new();
    assert_eq!(saw.generate_sample(0, 440_000), -FP_ONE);
    assert_eq!(saw.generate_sample(750_000, 440_000), 500_000);

    let fm = FMSynth::new(FP_ONE, 0);
    // zero modulation index: a plain sine
    assert_eq!(fm.generate_sample(250_000, 440_000), FP_ONE);

    let organ = HammondSynth::new();
    let s = organ.generate_sample(125_000, 440_000);
    assert!(-5 * FP_ONE <= s && s <= 5 * FP_ONE);
}

#[test]
fn square_synth_duty_cycle_is_clamped() {
    let narrow = SquareSynth::new(1);
    assert_eq!(narrow.get_duty_cycle(), 100_000);
    let wide = SquareSynth::new(FP_ONE);
    assert_eq!(wide.get_duty_cycle(), 900_000);
}
