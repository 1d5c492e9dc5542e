//! The animation driver: the orchestrator that ties clock, configuration,
//! lifecycle and the two choreographies together, one tick at a time.
//!
//! Each tick the driver advances its clock, steps the lifecycle machine
//! with the current data-availability signal, and — once both configuration
//! records are loaded — evaluates the frame: the amplitude vector for the
//! surface, the object height, and the camera pose. The frame is recomputed
//! from scratch every tick; nothing accumulates, so a run is replayable
//! from the tick times alone.

use vstd::prelude::*;

verus! {

use crate::camera::{
    camera_angle,
    camera_angle_s,
    camera_height_s,
    camera_pose,
    object_height,
    object_height_s,
    orbit_radius_s,
    CameraPose,
};
use crate::fixed::{tdiv, MAX_PARAM, SCALE};
use crate::lifecycle::{
    build_fires_s,
    fade_fires_s,
    rank_s,
    step_s,
    terminate_fires_s,
    Lifecycle,
    LifecycleState,
    TickEffects,
};
use crate::oscillator::{
    angle_s,
    compute_amplitudes,
    oscillator_angles,
    output_s,
    OscillatorParams,
};
use crate::settings::SceneSettings;

/// The engine's clock: accumulated elapsed time, with an optional frozen
/// override so a single frame can be captured reproducibly.
pub struct TimeSource {
    /// Accumulated elapsed show time.
    pub elapsed: i64,
    /// When set, the effective time is this value on every tick.
    pub frozen: Option<i64>,
}

impl TimeSource {
    /// The clock stays within the engine's time range.
    pub open spec fn wf(self) -> bool {
        &&& 0 <= self.elapsed <= MAX_PARAM
        &&& self.frozen matches Some(f) ==> 0 <= f <= MAX_PARAM
    }

    /// The time the engine animates at.
    pub open spec fn effective_s(self) -> int {
        match self.frozen {
            Some(f) => f as int,
            None => self.elapsed as int,
        }
    }
}

/// One tick's computed frame, handed by value to the render boundary and
/// recreated from scratch on the next tick.
pub struct AnimationFrame {
    /// The amplitude vector for the surface shader, one value per
    /// oscillator coefficient.
    pub amplitudes: Vec<i64>,
    /// The floating object's eased height.
    pub object_height: i64,
    /// The camera's pose, look target and focus distance.
    pub camera: CameraPose,
}

/// The end time the lifecycle machine checks against: the configured one
/// once the settings are loaded, irrelevant (and taken as 0) before.
pub open spec fn end_time_s(settings: Option<SceneSettings>) -> int {
    match settings {
        Some(s) => s.end_time as int,
        None => 0,
    }
}

/// The driver: owns the configuration snapshots once the loader hands
/// them over, the lifecycle machine and the clock.
pub struct Driver {
    /// The oscillator bank configuration, once loaded.
    pub oscillators: Option<OscillatorParams>,
    /// The scene settings, once loaded.
    pub settings: Option<SceneSettings>,
    /// The lifecycle machine.
    pub lifecycle: Lifecycle,
    /// The clock.
    pub time: TimeSource,
}

impl Driver {
    /// Both configuration records have been loaded.
    pub open spec fn ready(self) -> bool {
        self.oscillators is Some && self.settings is Some
    }

    /// The driver's invariant: the clock is in range, loaded records are
    /// well-formed, and a machine past Building always has its records.
    pub open spec fn wf(self) -> bool {
        &&& self.time.wf()
        &&& self.oscillators matches Some(o) ==> o.wf()
        &&& self.settings matches Some(s) ==> s.wf()
        &&& self.lifecycle.state != LifecycleState::Building ==> self.ready()
    }

    /// A fresh driver: clock at zero, nothing loaded, machine Building.
    pub fn new() -> (d: Driver)
        ensures
            d.wf(),
            d.lifecycle.state == LifecycleState::Building,
            !d.ready(),
            d.time.elapsed == 0,
            d.time.frozen is None,
    {
        Driver {
            oscillators: None,
            settings: None,
            lifecycle: Lifecycle::new(),
            time: TimeSource { elapsed: 0, frozen: None },
        }
    }

    /// Take the loaded oscillator record from the external loader.
    pub fn load_oscillators(&mut self, o: OscillatorParams)
        requires
            old(self).wf(),
            o.wf(),
        ensures
            final(self).wf(),
            final(self).oscillators matches Some(p) && p == o,
            final(self).settings == old(self).settings,
            final(self).lifecycle == old(self).lifecycle,
            final(self).time == old(self).time,
    {
        self.oscillators = Some(o);
    }

    /// Take the loaded settings record from the external loader. The
    /// settings' frozen-time override, when present, freezes the clock.
    pub fn load_settings(&mut self, s: SceneSettings)
        requires
            old(self).wf(),
            s.wf(),
        ensures
            final(self).wf(),
            final(self).settings matches Some(p) && p == s,
            final(self).oscillators == old(self).oscillators,
            final(self).lifecycle == old(self).lifecycle,
            final(self).time.elapsed == old(self).time.elapsed,
            final(self).time.frozen == s.frozen_time,
    {
        self.time.frozen = s.frozen_time;
        self.settings = Some(s);
    }

    /// Advance the clock by `dt` and step the lifecycle machine once at
    /// the resulting effective time. Returns that time and the tick's
    /// one-shot effects; the lifecycle state only ever moves forward.
    pub fn tick(&mut self, dt: i64) -> (r: (i64, TickEffects))
        requires
            old(self).wf(),
            0 <= dt,
            old(self).time.elapsed + dt <= MAX_PARAM,
        ensures
            final(self).wf(),
            final(self).oscillators == old(self).oscillators,
            final(self).settings == old(self).settings,
            final(self).time.elapsed == old(self).time.elapsed + dt,
            final(self).time.frozen == old(self).time.frozen,
            r.0 as int == final(self).time.effective_s(),
            final(self).lifecycle.state == step_s(
                old(self).lifecycle.state,
                r.0 as int,
                old(self).ready(),
                end_time_s(old(self).settings),
            ),
            r.1.build_scene == build_fires_s(old(self).lifecycle.state, old(self).ready()),
            r.1.start_fade == fade_fires_s(
                old(self).lifecycle.state,
                r.0 as int,
                old(self).ready(),
                end_time_s(old(self).settings),
            ),
            r.1.terminate == terminate_fires_s(
                old(self).lifecycle.state,
                r.0 as int,
                old(self).ready(),
                end_time_s(old(self).settings),
            ),
            rank_s(old(self).lifecycle.state) <= rank_s(final(self).lifecycle.state),
    {
        self.time.elapsed = self.time.elapsed + dt;
        let t: i64 = match self.time.frozen {
            Some(f) => f,
            None => self.time.elapsed,
        };
        let ready: bool = self.oscillators.is_some() && self.settings.is_some();
        let end: i64 = match &self.settings {
            Some(s) => s.end_time,
            None => 0,
        };
        let fx = self.lifecycle.tick(t, ready, end);
        (t, fx)
    }

    /// The angles of the current frame — each oscillator's phase angle and
    /// the camera's orbit angle — for the collaborator to take sines and
    /// cosines of.
    pub fn frame_angles(&self, t: i64) -> (r: (Vec<i64>, i64))
        requires
            self.wf(),
            self.ready(),
            0 <= t <= MAX_PARAM,
        ensures
            r.0@.len() == self.oscillators->Some_0.coefficients@.len(),
            forall|i: int|
                0 <= i < r.0@.len() ==> #[trigger] r.0@[i] == angle_s(
                    self.oscillators->Some_0.coefficients@[i],
                    self.settings->Some_0.speed as int,
                    t as int,
                ),
            r.1 == camera_angle_s(t as int, self.settings->Some_0),
    {
        let osc = self.oscillators.as_ref().unwrap();
        let s = self.settings.as_ref().unwrap();
        (oscillator_angles(osc, s.speed, t), camera_angle(t, s))
    }

    /// Evaluate the frame at time `t`, given the sines of the oscillator
    /// angles and the sine and cosine of the camera angle, all fixed-point
    /// scalars in `[-1, 1]`. The focus distance always equals the orbit
    /// radius.
    pub fn frame(&self, t: i64, sines: &Vec<i64>, sin_cam: i64, cos_cam: i64) -> (f:
        AnimationFrame)
        requires
            self.wf(),
            self.ready(),
            0 <= t <= MAX_PARAM,
            sines@.len() == self.oscillators->Some_0.coefficients@.len(),
            forall|i: int| 0 <= i < sines@.len() ==> -SCALE <= #[trigger] sines@[i] <= SCALE,
            -SCALE <= sin_cam <= SCALE,
            -SCALE <= cos_cam <= SCALE,
        ensures
            f.amplitudes@.len() == self.oscillators->Some_0.coefficients@.len(),
            forall|i: int|
                0 <= i < f.amplitudes@.len() ==> #[trigger] f.amplitudes@[i] == output_s(
                    self.oscillators->Some_0.coefficients@[i],
                    self.settings->Some_0.harmonic_spinup_time as int,
                    t as int,
                    sines@[i] as int,
                ),
            f.object_height == object_height_s(t as int, self.settings->Some_0),
            f.camera.focus_distance == orbit_radius_s(t as int, self.settings->Some_0),
            f.camera.position.x == tdiv(
                orbit_radius_s(t as int, self.settings->Some_0) * (sin_cam as int),
                SCALE as int,
            ),
            f.camera.position.y == camera_height_s(t as int, self.settings->Some_0),
            f.camera.position.z == tdiv(
                orbit_radius_s(t as int, self.settings->Some_0) * (cos_cam as int),
                SCALE as int,
            ),
            f.camera.look_target.x == 0,
            f.camera.look_target.y == tdiv(
                object_height_s(t as int, self.settings->Some_0) * 600_000,
                SCALE as int,
            ),
            f.camera.look_target.z == 0,
    {
        let osc = self.oscillators.as_ref().unwrap();
        let s = self.settings.as_ref().unwrap();
        let amplitudes = compute_amplitudes(osc, s.harmonic_spinup_time, t, sines);
        let height = object_height(t, s);
        let camera = camera_pose(t, s, sin_cam, cos_cam);
        AnimationFrame { amplitudes, object_height: height, camera }
    }
}

} // verus!
