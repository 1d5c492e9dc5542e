//! Tests of configuration validation: the checks a loader boundary runs
//! before handing records to the engine.

use choreo::fixed::{MAX_PARAM, SCALE};
use choreo::oscillator::{Coefficient, OscillatorParams, NUM_COEFFICIENTS};
use choreo::settings::SceneSettings;

const S: i64 = SCALE;

fn good_coefficient() -> Coefficient {
    Coefficient { amplitude: S, frequency: S, phase: 0, start: S, bias: 0 }
}

fn good_bank() -> OscillatorParams {
    OscillatorParams { coefficients: vec![good_coefficient(); NUM_COEFFICIENTS] }
}

fn good_settings() -> SceneSettings {
    SceneSettings {
        subdivisions: 4,
        speed: S,
        camera_speed: S,
        camera_rotation_speed: S,
        initial_camera_distance: 3 * S,
        camera_spin_time: S,
        camera_spin_falloff: S,
        harmonic_spinup_time: 2 * S,
        thought_speed: S,
        thought_appear_time: S,
        thought_initial_height: S,
        f_stops: 2 * S,
        slowdown_rate: 2 * S,
        shadow_bias: 0,
        ambient_light: [0, 0, 0, S],
        ambient_brightness: S,
        end_time: 30 * S,
        frozen_time: None,
    }
}

#[test]
fn a_good_bank_passes_validation() {
    assert!(good_bank().is_well_formed());
}

#[test]
fn a_bank_of_the_wrong_size_is_rejected() {
    let mut bank = good_bank();
    bank.coefficients.pop();
    assert!(!bank.is_well_formed());
    bank.coefficients.push(good_coefficient());
    bank.coefficients.push(good_coefficient());
    assert!(!bank.is_well_formed());
}

#[test]
fn a_coefficient_out_of_range_is_rejected() {
    let mut bank = good_bank();
    bank.coefficients[4].amplitude = MAX_PARAM + 1;
    assert!(!bank.is_well_formed());
    let mut bank = good_bank();
    bank.coefficients[0].start = -MAX_PARAM - 1;
    assert!(!bank.is_well_formed());
}

#[test]
fn good_settings_pass_validation() {
    assert!(good_settings().is_well_formed());
    let mut s = good_settings();
    s.frozen_time = Some(5 * S);
    assert!(s.is_well_formed());
}

#[test]
fn settings_out_of_range_are_rejected() {
    let mut s = good_settings();
    s.camera_spin_falloff = 0;
    assert!(!s.is_well_formed());

    let mut s = good_settings();
    s.harmonic_spinup_time = 0;
    assert!(!s.is_well_formed());

    let mut s = good_settings();
    s.slowdown_rate = -S;
    assert!(!s.is_well_formed());

    let mut s = good_settings();
    s.end_time = -1;
    assert!(!s.is_well_formed());

    let mut s = good_settings();
    s.frozen_time = Some(-1);
    assert!(!s.is_well_formed());

    let mut s = good_settings();
    s.speed = MAX_PARAM + 1;
    assert!(!s.is_well_formed());
}
