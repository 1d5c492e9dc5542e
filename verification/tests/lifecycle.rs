//! Tests of the lifecycle machine: one-shot construction, the fade and
//! terminate crossings, their ordering, and the absorbing end state.

use choreo::fixed::SCALE;
use choreo::lifecycle::{Lifecycle, LifecycleState, FADE_LEAD};

const S: i64 = SCALE;
const END: i64 = 10 * S;

#[test]
fn fade_lead_is_five_seconds() {
    assert_eq!(FADE_LEAD, 5 * S);
}

#[test]
fn stays_building_until_the_records_arrive() {
    let mut m = Lifecycle::new();
    assert_eq!(m.state, LifecycleState::Building);
    for t in [0, S, 2 * S] {
        let fx = m.tick(t, false, END);
        assert!(!fx.build_scene && !fx.start_fade && !fx.terminate);
        assert_eq!(m.state, LifecycleState::Building);
    }
    let fx = m.tick(3 * S, true, END);
    assert!(fx.build_scene);
    assert!(!fx.start_fade && !fx.terminate);
    assert_eq!(m.state, LifecycleState::Running);
}

#[test]
fn construction_happens_exactly_once() {
    let mut m = Lifecycle::new();
    let fx = m.tick(0, true, END);
    assert!(fx.build_scene);
    for t in [S, 2 * S, 3 * S] {
        let fx = m.tick(t, true, END);
        assert!(!fx.build_scene);
    }
}

#[test]
fn full_show_scenario() {
    // end_time 10, fade lead 5: Running at 4.9, fade once at 5.1,
    // terminate once at 10.1, and nothing more at 10.2.
    let mut m = Lifecycle::new();
    let fx = m.tick(S, true, END);
    assert!(fx.build_scene);

    let fx = m.tick(4_900_000, true, END);
    assert!(!fx.start_fade && !fx.terminate);
    assert_eq!(m.state, LifecycleState::Running);

    let fx = m.tick(5_100_000, true, END);
    assert!(fx.start_fade);
    assert!(!fx.terminate);
    assert_eq!(m.state, LifecycleState::Quitting);

    let fx = m.tick(7 * S, true, END);
    assert!(!fx.start_fade && !fx.terminate);

    let fx = m.tick(10_100_000, true, END);
    assert!(!fx.start_fade);
    assert!(fx.terminate);
    assert_eq!(m.state, LifecycleState::Terminated);

    let fx = m.tick(10_200_000, true, END);
    assert!(!fx.build_scene && !fx.start_fade && !fx.terminate);
    assert_eq!(m.state, LifecycleState::Terminated);
}

#[test]
fn fade_fires_on_the_first_crossing_tick() {
    let mut m = Lifecycle::new();
    m.tick(0, true, END);
    // Exactly at end - lead nothing fires; just past it the fade does.
    let fx = m.tick(END - FADE_LEAD, true, END);
    assert!(!fx.start_fade);
    assert_eq!(m.state, LifecycleState::Running);
    let fx = m.tick(END - FADE_LEAD + 1, true, END);
    assert!(fx.start_fade);
    assert_eq!(m.state, LifecycleState::Quitting);
}

#[test]
fn terminate_fires_just_past_the_end_time() {
    let mut m = Lifecycle::new();
    m.tick(0, true, END);
    m.tick(6 * S, true, END);
    let fx = m.tick(END, true, END);
    assert!(!fx.terminate);
    assert_eq!(m.state, LifecycleState::Quitting);
    let fx = m.tick(END + 1, true, END);
    assert!(fx.terminate);
    assert_eq!(m.state, LifecycleState::Terminated);
}

#[test]
fn fade_and_terminate_can_coincide_but_fade_never_follows() {
    // A tick far past the end while still Running: both one-shots fire on
    // that same tick, fade first by construction.
    let mut m = Lifecycle::new();
    m.tick(0, true, END);
    assert_eq!(m.state, LifecycleState::Running);
    let fx = m.tick(12 * S, true, END);
    assert!(fx.start_fade);
    assert!(fx.terminate);
    assert_eq!(m.state, LifecycleState::Terminated);
    // Afterwards neither fires again.
    let fx = m.tick(13 * S, true, END);
    assert!(!fx.start_fade && !fx.terminate);
}

#[test]
fn short_show_fires_everything_in_one_tick() {
    // With end_time not exceeding the fade lead, one tick can construct,
    // fade and terminate, in that order.
    let mut m = Lifecycle::new();
    let fx = m.tick(4 * S, true, 3 * S);
    assert!(fx.build_scene);
    assert!(fx.start_fade);
    assert!(fx.terminate);
    assert_eq!(m.state, LifecycleState::Terminated);
}
