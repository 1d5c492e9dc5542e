//! The camera choreographer: closed-form pose, look target and focus for
//! any time, recomputed from scratch each tick.
//!
//! The object rises and eases toward a ceiling; the orbit radius grows with
//! the object's height so it stays framed; the orbit angle accrues through
//! the decelerating spin remap; and the focus distance always equals the
//! orbit radius. The collaborator supplies the sine and cosine of the orbit
//! angle the engine computes.

use vstd::prelude::*;

verus! {

use crate::curves::{
    lemma_slowdown_bounded,
    slowdown,
    slowdown_s,
    spin_ease,
    spin_ease_s,
    SPIN_EASE_MAX,
};
use crate::fixed::{
    lemma_tdiv_le,
    lemma_tdiv_zero,
    mul_div,
    tdiv,
    MAX_PARAM,
    SCALE,
};
use crate::settings::SceneSettings;

/// A point or direction in the scene, in fixed-point world units.
#[derive(Clone, Copy, PartialEq, Eq, Structural, Debug)]
pub struct Point3 {
    pub x: i64,
    pub y: i64,
    pub z: i64,
}

/// The camera's pose and optics for one tick.
#[derive(Clone, Copy, PartialEq, Eq, Structural, Debug)]
pub struct CameraPose {
    /// Where the camera stands.
    pub position: Point3,
    /// The point the camera frames.
    pub look_target: Point3,
    /// Lens focus distance; always the orbit radius.
    pub focus_distance: i64,
}

/// The object's height before lifting and easing: linear rise from the
/// initial height starting at the appear time.
pub open spec fn raw_height_s(t: int, s: SceneSettings) -> int {
    tdiv((t - s.thought_appear_time) * s.thought_speed, SCALE as int) + s.thought_initial_height
}

/// The raw height lifted to be non-negative.
pub open spec fn lifted_height_s(t: int, s: SceneSettings) -> int {
    if raw_height_s(t, s) < 0 {
        0
    } else {
        raw_height_s(t, s)
    }
}

/// The object's final height: the lifted height eased through the
/// slowdown curve, so it approaches a ceiling instead of rising forever.
pub open spec fn object_height_s(t: int, s: SceneSettings) -> int {
    slowdown_s(lifted_height_s(t, s), s.slowdown_rate as int)
}

/// The camera's distance from the origin: base distance plus one unit
/// plus the object's height, so the object stays framed.
pub open spec fn orbit_radius_s(t: int, s: SceneSettings) -> int {
    s.initial_camera_distance + SCALE + object_height_s(t, s)
}

/// The remapped rotation time: spin accrues from the spin start time,
/// ever more slowly.
pub open spec fn rotation_time_s(t: int, s: SceneSettings) -> int {
    spin_ease_s(t - s.camera_spin_time, s.camera_spin_falloff as int)
}

/// The orbit angle at time `t`, in fixed-point radians.
pub open spec fn camera_angle_s(t: int, s: SceneSettings) -> int {
    tdiv(s.camera_rotation_speed * rotation_time_s(t, s), SCALE as int)
}

/// The camera's vertical position: a slowed drift scaled by the camera
/// speed, measured from minus the initial distance.
pub open spec fn camera_height_s(t: int, s: SceneSettings) -> int {
    tdiv(slowdown_s(t, s.slowdown_rate as int) * s.camera_speed, SCALE as int)
        - s.initial_camera_distance
}

/// The object's eased height is non-negative at every time.
pub proof fn lemma_object_height_nonneg(t: int, s: SceneSettings)
    requires
        1 <= s.slowdown_rate,
    ensures
        0 <= object_height_s(t, s) < s.slowdown_rate,
{
    lemma_slowdown_bounded(lifted_height_s(t, s), s.slowdown_rate as int);
}

/// At the moment the object appears, its pre-slowdown height is exactly
/// the configured initial height (the easing anchor). Stated for a
/// non-negative initial height, which the lift then leaves untouched.
pub proof fn lemma_height_anchor(s: SceneSettings)
    requires
        0 <= s.thought_initial_height,
    ensures
        lifted_height_s(s.thought_appear_time as int, s) == s.thought_initial_height,
{
    let a = s.thought_appear_time as int;
    assert((a - a) * s.thought_speed == 0) by (nonlinear_arith);
    lemma_tdiv_zero(SCALE as int);
}

/// The object's eased height at time `t`.
pub fn object_height(t: i64, s: &SceneSettings) -> (r: i64)
    requires
        s.wf(),
        0 <= t <= MAX_PARAM,
    ensures
        r == object_height_s(t as int, *s),
        0 <= r < s.slowdown_rate,
{
    proof {
        assert(-(2_000_000_000_000 * 1_000_000) <= ((t as int) - s.thought_appear_time)
            * s.thought_speed <= 2_000_000_000_000 * 1_000_000) by (nonlinear_arith)
            requires
                -2_000_000_000 <= (t as int) - s.thought_appear_time <= 2_000_000_000,
                -1_000_000_000 <= s.thought_speed as int <= 1_000_000_000,
        ;
        lemma_tdiv_le(
            ((t as int) - s.thought_appear_time) * s.thought_speed,
            SCALE as int,
            2_000_000_000_000,
        );
    }
    let raw: i64 = mul_div(t - s.thought_appear_time, s.thought_speed, SCALE)
        + s.thought_initial_height;
    let lifted: i64 = if raw < 0 {
        0
    } else {
        raw
    };
    slowdown(lifted, s.slowdown_rate)
}

/// The orbit angle whose sine and cosine the rendering collaborator must
/// supply for time `t`.
pub fn camera_angle(t: i64, s: &SceneSettings) -> (r: i64)
    requires
        s.wf(),
        0 <= t <= MAX_PARAM,
    ensures
        r == camera_angle_s(t as int, *s),
{
    let rot: i64 = spin_ease(t - s.camera_spin_time, s.camera_spin_falloff);
    proof {
        assert(-(1_500_000_000_000_000_000 * 1_000_000) <= (s.camera_rotation_speed as int) * (
        rot as int) <= 1_500_000_000_000_000_000 * 1_000_000) by (nonlinear_arith)
            requires
                -1_000_000_000 <= s.camera_rotation_speed as int <= 1_000_000_000,
                0 <= rot as int <= SPIN_EASE_MAX as int,
        ;
        lemma_tdiv_le(
            (s.camera_rotation_speed as int) * (rot as int),
            SCALE as int,
            1_500_000_000_000_000_000,
        );
    }
    mul_div(s.camera_rotation_speed, rot, SCALE)
}

/// The camera pose and focus for time `t`, given the sine and cosine of
/// the orbit angle `camera_angle` returned, as fixed-point scalars in
/// `[-1, 1]`.
pub fn camera_pose(t: i64, s: &SceneSettings, sin_angle: i64, cos_angle: i64) -> (pose: CameraPose)
    requires
        s.wf(),
        0 <= t <= MAX_PARAM,
        -SCALE <= sin_angle <= SCALE,
        -SCALE <= cos_angle <= SCALE,
    ensures
        pose.focus_distance == orbit_radius_s(t as int, *s),
        pose.position.x == tdiv(orbit_radius_s(t as int, *s) * (sin_angle as int), SCALE as int),
        pose.position.y == camera_height_s(t as int, *s),
        pose.position.z == tdiv(orbit_radius_s(t as int, *s) * (cos_angle as int), SCALE as int),
        pose.look_target.x == 0,
        pose.look_target.y == tdiv(object_height_s(t as int, *s) * 600_000, SCALE as int),
        pose.look_target.z == 0,
{
    let h: i64 = object_height(t, s);
    let radius: i64 = s.initial_camera_distance + SCALE + h;
    proof {
        assert(-(3_000_000_000 * 1_000_000) <= (radius as int) * (sin_angle as int)
            <= 3_000_000_000 * 1_000_000 && -(3_000_000_000 * 1_000_000) <= (radius as int) * (
        cos_angle as int) <= 3_000_000_000 * 1_000_000) by (nonlinear_arith)
            requires
                -3_000_000_000 <= radius as int <= 3_000_000_000,
                -1_000_000 <= sin_angle as int <= 1_000_000,
                -1_000_000 <= cos_angle as int <= 1_000_000,
        ;
        lemma_tdiv_le((radius as int) * (sin_angle as int), SCALE as int, 3_000_000_000);
        lemma_tdiv_le((radius as int) * (cos_angle as int), SCALE as int, 3_000_000_000);
    }
    let x: i64 = mul_div(radius, sin_angle, SCALE);
    let z: i64 = mul_div(radius, cos_angle, SCALE);
    let vertical: i64 = slowdown(t, s.slowdown_rate);
    proof {
        assert(-(1_000_000_000_000 * 1_000_000) <= (vertical as int) * (s.camera_speed as int)
            <= 1_000_000_000_000 * 1_000_000) by (nonlinear_arith)
            requires
                0 <= vertical as int <= 1_000_000_000,
                -1_000_000_000 <= s.camera_speed as int <= 1_000_000_000,
        ;
        lemma_tdiv_le(
            (vertical as int) * (s.camera_speed as int),
            SCALE as int,
            1_000_000_000_000,
        );
        assert(0 <= (h as int) * 600_000 <= 1_000_000_000 * 1_000_000) by (nonlinear_arith)
            requires
                0 <= h as int <= 1_000_000_000,
        ;
        lemma_tdiv_le((h as int) * 600_000, SCALE as int, 1_000_000_000);
    }
    let y: i64 = mul_div(vertical, s.camera_speed, SCALE) - s.initial_camera_distance;
    let target_y: i64 = mul_div(h, 600_000, SCALE);
    CameraPose {
        position: Point3 { x, y, z },
        look_target: Point3 { x: 0, y: target_y, z: 0 },
        focus_distance: radius,
    }
}

} // verus!
