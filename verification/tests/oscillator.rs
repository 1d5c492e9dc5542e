//! Tests of the oscillator bank: gate behaviour at the edges and the
//! end-to-end coefficient scenario.

use choreo::fixed::SCALE;
use choreo::oscillator::{
    coefficient_angle, coefficient_output, compute_amplitudes, oscillator_angles, Coefficient,
    OscillatorParams, NUM_COEFFICIENTS,
};

const S: i64 = SCALE;

fn to_fixed(x: f64) -> i64 {
    (x * 1_000_000.0).round() as i64
}

fn to_float(x: i64) -> f64 {
    x as f64 / 1_000_000.0
}

fn test_coefficient() -> Coefficient {
    Coefficient { amplitude: 2 * S, frequency: S, phase: 0, start: 2 * S, bias: 100_000 }
}

fn test_bank() -> OscillatorParams {
    let mut coefficients = Vec::new();
    for i in 0..NUM_COEFFICIENTS as i64 {
        coefficients.push(Coefficient {
            amplitude: S + i * 100_000,
            frequency: S / 2 + i * 250_000,
            phase: i * 300_000,
            start: i * S,
            bias: -200_000 + i * 50_000,
        });
    }
    OscillatorParams { coefficients }
}

#[test]
fn output_is_exactly_zero_before_start() {
    let c = test_coefficient();
    let spinup = 3 * S;
    for sine in [-S, -123_456, 0, 987_654, S] {
        assert_eq!(coefficient_output(&c, spinup, 0, sine), 0);
        assert_eq!(coefficient_output(&c, spinup, 2 * S - 1, sine), 0);
        assert_eq!(coefficient_output(&c, spinup, 2 * S, sine), 0);
    }
}

#[test]
fn output_is_exactly_the_wave_after_spinup() {
    let c = test_coefficient();
    let spinup = 3 * S;
    // With amplitude 2.0, sine 0.5 and bias 0.1 the wave is 1.1 exactly.
    let sine = S / 2;
    let wave = 1_100_000;
    assert_eq!(coefficient_output(&c, spinup, 5 * S, sine), wave);
    assert_eq!(coefficient_output(&c, spinup, 100 * S, sine), wave);
    // Negative sine as well: 2.0 * -1.0 + 0.1 = -1.9.
    assert_eq!(coefficient_output(&c, spinup, 5 * S, -S), -1_900_000);
}

#[test]
fn angle_follows_speed_frequency_and_phase() {
    let c = Coefficient { amplitude: S, frequency: 3 * S, phase: 400_000, start: 0, bias: 0 };
    // speed 2.0, frequency 3.0, t 1.5 gives angle 9.0 plus phase 0.4.
    assert_eq!(coefficient_angle(&c, 2 * S, 3 * S / 2), 9 * S + 400_000);
    // Negative time turns the angle around.
    assert_eq!(coefficient_angle(&c, 2 * S, -3 * S / 2), -9 * S + 400_000);
}

#[test]
fn coefficient_scenario_mid_spinup_and_saturated() {
    // start 2, spinup 3, amplitude 1, frequency 1, phase 0, bias 0, speed 1.
    let c = Coefficient { amplitude: S, frequency: S, phase: 0, start: 2 * S, bias: 0 };
    let spinup = 3 * S;
    let speed = S;

    // At t = 2 its gate has not opened and the coefficient stays at 0.
    assert_eq!(coefficient_output(&c, spinup, 2 * S, to_fixed((2.0f64).sin())), 0);

    // At t = 3.5 its gate stands exactly half open: 0.5 * sin(3.5).
    let t = 3_500_000;
    let angle = coefficient_angle(&c, speed, t);
    assert_eq!(angle, t);
    let sine = to_fixed(to_float(angle).sin());
    let out = coefficient_output(&c, spinup, t, sine);
    let expected = 0.5 * (3.5f64).sin();
    assert!((to_float(out) - expected).abs() < 1e-3, "{out} vs {expected}");

    // At t = 6 its gate stands fully open: sin(6) itself.
    let t = 6 * S;
    let angle = coefficient_angle(&c, speed, t);
    assert_eq!(angle, t);
    let sine = to_fixed(to_float(angle).sin());
    let out = coefficient_output(&c, spinup, t, sine);
    assert_eq!(out, sine);
    assert!((to_float(out) - (6.0f64).sin()).abs() < 1e-3);
}

#[test]
fn bank_angles_match_each_coefficient() {
    let bank = test_bank();
    let speed = 3 * S / 2;
    let t = 7 * S;
    let angles = oscillator_angles(&bank, speed, t);
    assert_eq!(angles.len(), NUM_COEFFICIENTS);
    for (i, c) in bank.coefficients.iter().enumerate() {
        assert_eq!(angles[i], coefficient_angle(c, speed, t));
    }
}

#[test]
fn bank_amplitudes_match_each_coefficient() {
    let bank = test_bank();
    let spinup = 2 * S;
    let t = 4 * S;
    let sines: Vec<i64> = (0..NUM_COEFFICIENTS as i64).map(|i| -S + i * 200_000).collect();
    let out = compute_amplitudes(&bank, spinup, t, &sines);
    assert_eq!(out.len(), NUM_COEFFICIENTS);
    for (i, c) in bank.coefficients.iter().enumerate() {
        assert_eq!(out[i], coefficient_output(c, spinup, t, sines[i]));
    }
    // Coefficients whose start lies at or past t are silent.
    for (i, c) in bank.coefficients.iter().enumerate() {
        if c.start >= t {
            assert_eq!(out[i], 0);
        }
    }
}
