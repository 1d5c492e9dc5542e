//! The scene settings record: the flat, immutable configuration snapshot
//! the external loader produces once and the engine then reads every tick.

use vstd::prelude::*;

verus! {

use crate::fixed::MAX_PARAM;

/// The loaded scene configuration. All scalar fields are fixed-point
/// (millionths of a unit); display-only fields (optics, light color) are
/// handed through to the rendering collaborator untouched.
#[derive(Clone, Copy, PartialEq, Eq, Debug)]
pub struct SceneSettings {
    /// Icosphere subdivision level for the generated mesh.
    pub subdivisions: u32,
    /// Global animation speed multiplier for the oscillator bank.
    pub speed: i64,
    /// Vertical camera drift speed.
    pub camera_speed: i64,
    /// Angular speed of the camera orbit.
    pub camera_rotation_speed: i64,
    /// Camera distance from the origin at the start of the show.
    pub initial_camera_distance: i64,
    /// Time from which the camera's spin remap accrues.
    pub camera_spin_time: i64,
    /// Falloff of the spin remap; positive.
    pub camera_spin_falloff: i64,
    /// Duration over which each oscillator gate rises from 0 to 1.
    pub harmonic_spinup_time: i64,
    /// Rise speed of the floating object.
    pub thought_speed: i64,
    /// Time at which the object starts rising.
    pub thought_appear_time: i64,
    /// Height of the object at the moment it appears.
    pub thought_initial_height: i64,
    /// Aperture f-stops for the depth-of-field lens.
    pub f_stops: i64,
    /// Shared ceiling rate for the vertical drifts of object and camera.
    pub slowdown_rate: i64,
    /// Shadow depth bias for the directional light.
    pub shadow_bias: i64,
    /// Ambient light color, RGBA components.
    pub ambient_light: [i64; 4],
    /// Ambient light brightness.
    pub ambient_brightness: i64,
    /// Time at which the show ends and the process terminates.
    pub end_time: i64,
    /// When set, the time source reports this value on every tick, for
    /// reproducible single-frame captures.
    pub frozen_time: Option<i64>,
}

impl SceneSettings {
    /// Every field the engine's arithmetic reads lies within the engine's
    /// fixed-point range, and the strictly positive rates are so.
    pub open spec fn wf(self) -> bool {
        &&& -MAX_PARAM <= self.speed <= MAX_PARAM
        &&& -MAX_PARAM <= self.camera_speed <= MAX_PARAM
        &&& -MAX_PARAM <= self.camera_rotation_speed <= MAX_PARAM
        &&& -MAX_PARAM <= self.initial_camera_distance <= MAX_PARAM
        &&& -MAX_PARAM <= self.camera_spin_time <= MAX_PARAM
        &&& 1 <= self.camera_spin_falloff <= MAX_PARAM
        &&& 1 <= self.harmonic_spinup_time <= MAX_PARAM
        &&& -MAX_PARAM <= self.thought_speed <= MAX_PARAM
        &&& -MAX_PARAM <= self.thought_appear_time <= MAX_PARAM
        &&& -MAX_PARAM <= self.thought_initial_height <= MAX_PARAM
        &&& 1 <= self.slowdown_rate <= MAX_PARAM
        &&& 0 <= self.end_time <= MAX_PARAM
        &&& self.frozen_time matches Some(ft) ==> 0 <= ft <= MAX_PARAM
    }

    /// Decide `wf` at run time: a loaded record with a field out of range
    /// is a fatal configuration error the caller reports at startup.
    pub fn is_well_formed(&self) -> (b: bool)
        ensures
            b == self.wf(),
    {
        let frozen_ok: bool = match self.frozen_time {
            Some(ft) => 0 <= ft && ft <= MAX_PARAM,
            None => true,
        };
        -MAX_PARAM <= self.speed && self.speed <= MAX_PARAM && -MAX_PARAM <= self.camera_speed
            && self.camera_speed <= MAX_PARAM && -MAX_PARAM <= self.camera_rotation_speed
            && self.camera_rotation_speed <= MAX_PARAM && -MAX_PARAM
            <= self.initial_camera_distance && self.initial_camera_distance <= MAX_PARAM
            && -MAX_PARAM <= self.camera_spin_time && self.camera_spin_time <= MAX_PARAM && 1
            <= self.camera_spin_falloff && self.camera_spin_falloff <= MAX_PARAM && 1
            <= self.harmonic_spinup_time && self.harmonic_spinup_time <= MAX_PARAM && -MAX_PARAM
            <= self.thought_speed && self.thought_speed <= MAX_PARAM && -MAX_PARAM
            <= self.thought_appear_time && self.thought_appear_time <= MAX_PARAM && -MAX_PARAM
            <= self.thought_initial_height && self.thought_initial_height <= MAX_PARAM && 1
            <= self.slowdown_rate && self.slowdown_rate <= MAX_PARAM && 0 <= self.end_time
            && self.end_time <= MAX_PARAM && frozen_ok
    }
}

} // verus!
