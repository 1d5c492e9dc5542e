//! Tests of the camera choreographer: the focus law, the height easing
//! and the orbit geometry.

use choreo::camera::{camera_angle, camera_pose, object_height};
use choreo::fixed::SCALE;
use choreo::settings::SceneSettings;

const S: i64 = SCALE;

fn to_fixed(x: f64) -> i64 {
    (x * 1_000_000.0).round() as i64
}

fn to_float(x: i64) -> f64 {
    x as f64 / 1_000_000.0
}

fn test_settings() -> SceneSettings {
    SceneSettings {
        subdivisions: 5,
        speed: S,
        camera_speed: 3 * S,
        camera_rotation_speed: 2 * S,
        initial_camera_distance: 4 * S,
        camera_spin_time: S,
        camera_spin_falloff: S,
        harmonic_spinup_time: 3 * S,
        thought_speed: S / 2,
        thought_appear_time: 2 * S,
        thought_initial_height: 2 * S,
        f_stops: 2 * S,
        slowdown_rate: 4 * S,
        shadow_bias: S / 100,
        ambient_light: [S / 10, S / 10, S / 5, S],
        ambient_brightness: 40 * S,
        end_time: 60 * S,
        frozen_time: None,
    }
}

#[test]
fn object_height_is_never_negative() {
    let s = test_settings();
    let mut t = 0;
    while t <= 100 * S {
        assert!(object_height(t, &s) >= 0);
        t += S / 2;
    }
}

#[test]
fn object_height_at_appear_time_comes_from_initial_height() {
    let s = test_settings();
    // At the appear time the pre-slowdown height is the initial height
    // 2.0, and the slowdown maps it to 4 * 2 / (4 + 2) = 1.333333....
    assert_eq!(object_height(s.thought_appear_time, &s), 1_333_333);
}

#[test]
fn object_height_stays_below_the_rate_ceiling() {
    let s = test_settings();
    let mut t = 0;
    let mut prev = -1;
    while t <= 500 * S {
        let h = object_height(t, &s);
        assert!(h < s.slowdown_rate);
        assert!(h >= prev, "height decreased at t = {t}");
        prev = h;
        t += S;
    }
}

#[test]
fn focus_distance_always_equals_orbit_radius() {
    let s = test_settings();
    let mut t = 0;
    while t <= 100 * S {
        let h = object_height(t, &s);
        let radius = s.initial_camera_distance + S + h;
        let angle = camera_angle(t, &s);
        let pose = camera_pose(t, &s, to_fixed(to_float(angle).sin()), to_fixed(to_float(angle).cos()));
        assert_eq!(pose.focus_distance, radius);
        t += 7 * S / 10;
    }
}

#[test]
fn camera_position_follows_the_orbit() {
    let s = test_settings();
    let t = 10 * S;
    let h = object_height(t, &s);
    let radius = s.initial_camera_distance + S + h;
    // With sine 0 and cosine 1 the camera stands on the z axis.
    let pose = camera_pose(t, &s, 0, S);
    assert_eq!(pose.position.x, 0);
    assert_eq!(pose.position.z, radius);
    // With sine 1 and cosine 0 it stands on the x axis.
    let pose = camera_pose(t, &s, S, 0);
    assert_eq!(pose.position.x, radius);
    assert_eq!(pose.position.z, 0);
}

#[test]
fn camera_vertical_drift_eases_toward_its_ceiling() {
    let s = test_settings();
    // y = slowdown(t, rate) * camera_speed - initial_camera_distance,
    // so it is bounded by rate * camera_speed - initial distance.
    let ceiling = 4 * 3 * S - 4 * S;
    let mut t = 0;
    let mut prev = i64::MIN;
    while t <= 500 * S {
        let pose = camera_pose(t, &s, 0, S);
        assert!(pose.position.y < ceiling);
        assert!(pose.position.y >= prev);
        prev = pose.position.y;
        t += S;
    }
}

#[test]
fn look_target_frames_a_point_below_the_object() {
    let s = test_settings();
    let t = 12 * S;
    let h = object_height(t, &s);
    let pose = camera_pose(t, &s, 123_456, 654_321);
    assert_eq!(pose.look_target.x, 0);
    assert_eq!(pose.look_target.z, 0);
    assert_eq!(pose.look_target.y, h * 600_000 / S);
}

#[test]
fn camera_angle_accrues_through_the_spin_remap() {
    let s = test_settings();
    // At t = 3 the spin time 1 leaves 2 units of spin; with falloff 1 the
    // remap gives exactly 1.0, and rotation speed 2.0 doubles it.
    assert_eq!(camera_angle(3 * S, &s), 2 * S);
    // Before the spin start nothing has accrued.
    assert_eq!(camera_angle(0, &s), 0);
    assert_eq!(camera_angle(S, &s), 0);
}

#[test]
fn camera_angle_matches_float_formula() {
    let s = test_settings();
    for i in 0..40 {
        let t = 0.5 * i as f64;
        let rot = (((t - 1.0).max(0.0) * 1.0 + 0.25).sqrt() - 0.5) / 1.0;
        let expected = 2.0 * rot;
        let got = to_float(camera_angle(to_fixed(t), &s));
        assert!((got - expected).abs() < 1e-3, "t={t}: {got} vs {expected}");
    }
}
