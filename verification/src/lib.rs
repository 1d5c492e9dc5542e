//! A deterministic choreography engine for a generative audio-visual show.
//!
//! Every quantity is a fixed-point number: an `i64` counting millionths of a
//! unit (seconds, world units, radians), so that each tick is an exact,
//! replayable function of elapsed time. The engine gates a bank of oscillating
//! surface coefficients, steers an orbiting camera with its focus distance,
//! and runs the scene lifecycle (one-shot construction, a timed audio
//! fade-out, termination). Rendering, audio playback and configuration
//! loading are outside collaborators: they hand in plain values (including
//! the sines and cosines of angles the engine computes) and take plain
//! values back.

pub mod camera;
pub mod curves;
pub mod driver;
pub mod fixed;
pub mod lifecycle;
pub mod oscillator;
pub mod settings;
