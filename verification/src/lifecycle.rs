//! The scene lifecycle state machine.
//!
//! The show moves one way through Building, Running, Quitting and
//! Terminated. On the tick the configuration becomes available the machine
//! emits the one-shot scene construction; once the time crosses
//! `end_time - FADE_LEAD` it emits the audio fade-out exactly once; once
//! the time crosses `end_time` it emits the terminate signal exactly once,
//! never before the fade. Within one tick the construction check precedes
//! the fade check, which precedes the terminate check, so on a short show
//! the three may fire on the same tick, in that order.

use vstd::prelude::*;

verus! {

use crate::fixed::MAX_PARAM;

/// How long before `end_time` the audio fade-out starts (five seconds),
/// and the duration of the fade itself.
pub const FADE_LEAD: i64 = 5_000_000;

/// The discrete phase of the show.
#[derive(Clone, Copy, PartialEq, Eq, Structural, Debug)]
pub enum LifecycleState {
    /// Waiting for the configuration records; nothing animates yet.
    Building,
    /// The scene is built and animating.
    Running,
    /// The audio fade-out has been triggered; still animating.
    Quitting,
    /// The terminate signal has been issued; absorbing.
    Terminated,
}

/// The one-shot effects a tick can emit toward the outside collaborators.
#[derive(Clone, Copy, PartialEq, Eq, Structural, Debug)]
pub struct TickEffects {
    /// Construct the scene now: mesh, lights, model, camera, start audio.
    pub build_scene: bool,
    /// Start the audio fade-out now, over `FADE_LEAD`.
    pub start_fade: bool,
    /// Terminate the process now.
    pub terminate: bool,
}

/// Position of a state along the one-way lifecycle.
pub open spec fn rank_s(s: LifecycleState) -> int {
    match s {
        LifecycleState::Building => 0,
        LifecycleState::Running => 1,
        LifecycleState::Quitting => 2,
        LifecycleState::Terminated => 3,
    }
}

/// The state after the construction check: Building leaves for Running on
/// the tick the configuration becomes available.
pub open spec fn after_build_s(s: LifecycleState, ready: bool) -> LifecycleState {
    if s == LifecycleState::Building && ready {
        LifecycleState::Running
    } else {
        s
    }
}

/// Whether the construction effect fires on this tick.
pub open spec fn build_fires_s(s: LifecycleState, ready: bool) -> bool {
    s == LifecycleState::Building && ready
}

/// The state after the fade check, which runs after the construction
/// check of the same tick.
pub open spec fn after_fade_s(s: LifecycleState, t: int, ready: bool, end: int) -> LifecycleState {
    let s1 = after_build_s(s, ready);
    if s1 == LifecycleState::Running && t > end - FADE_LEAD {
        LifecycleState::Quitting
    } else {
        s1
    }
}

/// Whether the fade-out effect fires on this tick.
pub open spec fn fade_fires_s(s: LifecycleState, t: int, ready: bool, end: int) -> bool {
    after_build_s(s, ready) == LifecycleState::Running && t > end - FADE_LEAD
}

/// The state after a whole tick: construction, fade, then terminate check.
pub open spec fn step_s(s: LifecycleState, t: int, ready: bool, end: int) -> LifecycleState {
    let s2 = after_fade_s(s, t, ready, end);
    if s2 == LifecycleState::Quitting && t > end {
        LifecycleState::Terminated
    } else {
        s2
    }
}

/// Whether the terminate effect fires on this tick.
pub open spec fn terminate_fires_s(s: LifecycleState, t: int, ready: bool, end: int) -> bool {
    after_fade_s(s, t, ready, end) == LifecycleState::Quitting && t > end
}

/// The lifecycle machine: holds the current phase; the timing inputs come
/// from the settings record each tick.
pub struct Lifecycle {
    pub state: LifecycleState,
}

impl Lifecycle {
    /// A fresh machine, waiting to build.
    pub fn new() -> (m: Lifecycle)
        ensures
            m.state == LifecycleState::Building,
    {
        Lifecycle { state: LifecycleState::Building }
    }

    /// Advance one tick at time `t`. `ready` says whether the
    /// configuration records have finished loading; `end_time` is the
    /// configured end of the show. Returns the one-shot effects of this
    /// tick; the state only ever moves forward.
    pub fn tick(&mut self, t: i64, ready: bool, end_time: i64) -> (fx: TickEffects)
        requires
            0 <= t <= MAX_PARAM,
            0 <= end_time <= MAX_PARAM,
        ensures
            final(self).state == step_s(old(self).state, t as int, ready, end_time as int),
            fx.build_scene == build_fires_s(old(self).state, ready),
            fx.start_fade == fade_fires_s(old(self).state, t as int, ready, end_time as int),
            fx.terminate == terminate_fires_s(old(self).state, t as int, ready, end_time as int),
            rank_s(old(self).state) <= rank_s(final(self).state),
    {
        let mut fx = TickEffects { build_scene: false, start_fade: false, terminate: false };
        if self.state == LifecycleState::Building && ready {
            fx.build_scene = true;
            self.state = LifecycleState::Running;
        }
        if self.state == LifecycleState::Running && t > end_time - FADE_LEAD {
            fx.start_fade = true;
            self.state = LifecycleState::Quitting;
        }
        if self.state == LifecycleState::Quitting && t > end_time {
            fx.terminate = true;
            self.state = LifecycleState::Terminated;
        }
        fx
    }
}

/// The machine's state after feeding it the given tick times in order,
/// starting from `s`, with the configuration available throughout.
pub open spec fn state_after_s(s: LifecycleState, times: Seq<int>, end: int) -> LifecycleState
    decreases times.len(),
{
    if times.len() == 0 {
        s
    } else {
        state_after_s(step_s(s, times[0], true, end), times.drop_first(), end)
    }
}

/// Whether the fade-out fires on tick `i` of a run that starts Running.
pub open spec fn fade_fires_at_s(times: Seq<int>, end: int, i: int) -> bool {
    fade_fires_s(
        state_after_s(LifecycleState::Running, times.take(i), end),
        times[i],
        true,
        end,
    )
}

/// Whether the terminate signal fires on tick `i` of a run that starts
/// Running.
pub open spec fn terminate_fires_at_s(times: Seq<int>, end: int, i: int) -> bool {
    terminate_fires_s(
        state_after_s(LifecycleState::Running, times.take(i), end),
        times[i],
        true,
        end,
    )
}

/// Peeling one tick off the end of a run.
proof fn lemma_state_after_snoc(s: LifecycleState, times: Seq<int>, end: int, i: int)
    requires
        0 <= i < times.len(),
    ensures
        state_after_s(s, times.take(i + 1), end) == step_s(
            state_after_s(s, times.take(i), end),
            times[i],
            true,
            end,
        ),
    decreases i,
{
    let s0 = step_s(s, times[0], true, end);
    if i == 0 {
        assert(times.take(1).len() == 1);
        assert(times.take(1)[0] == times[0]);
        assert(times.take(1).drop_first() =~= times.take(0));
        assert(times.take(0).len() == 0);
        assert(state_after_s(s, times.take(0), end) == s);
        assert(state_after_s(s, times.take(1), end) == state_after_s(
            s0,
            times.take(1).drop_first(),
            end,
        ));
        assert(state_after_s(s0, times.take(0), end) == s0);
    } else {
        let rest = times.drop_first();
        assert(times.take(i + 1).len() == i + 1);
        assert(times.take(i + 1)[0] == times[0]);
        assert(times.take(i + 1).drop_first() =~= rest.take(i));
        assert(times.take(i).len() == i);
        assert(times.take(i)[0] == times[0]);
        assert(times.take(i).drop_first() =~= rest.take(i - 1));
        lemma_state_after_snoc(s0, rest, end, i - 1);
        assert(state_after_s(s0, rest.take(i), end) == step_s(
            state_after_s(s0, rest.take(i - 1), end),
            rest[i - 1],
            true,
            end,
        ));
        assert(rest[i - 1] == times[i]);
        assert(state_after_s(s, times.take(i + 1), end) == state_after_s(s0, rest.take(i), end));
        assert(state_after_s(s, times.take(i), end) == state_after_s(s0, rest.take(i - 1), end));
    }
}

/// In a run from Running, the state stays exactly Running as long as no
/// tick time has crossed the fade threshold, and never returns to
/// Building.
proof fn lemma_running_until_crossing(times: Seq<int>, end: int, i: int)
    requires
        0 <= i <= times.len(),
    ensures
        (state_after_s(LifecycleState::Running, times.take(i), end) == LifecycleState::Running)
            <==> (forall|j: int| 0 <= j < i ==> times[j] <= end - FADE_LEAD),
        rank_s(state_after_s(LifecycleState::Running, times.take(i), end)) >= 1,
    decreases i,
{
    if i == 0 {
        assert(times.take(0).len() == 0);
    } else {
        lemma_running_until_crossing(times, end, i - 1);
        lemma_state_after_snoc(LifecycleState::Running, times, end, i - 1);
    }
}

/// In a run from Running, the state reaches Terminated exactly when some
/// tick time has crossed the end time.
proof fn lemma_alive_until_end(times: Seq<int>, end: int, i: int)
    requires
        0 <= i <= times.len(),
    ensures
        (state_after_s(LifecycleState::Running, times.take(i), end) != LifecycleState::Terminated)
            <==> (forall|j: int| 0 <= j < i ==> times[j] <= end),
    decreases i,
{
    if i == 0 {
        assert(times.take(0).len() == 0);
    } else {
        lemma_alive_until_end(times, end, i - 1);
        lemma_running_until_crossing(times, end, i - 1);
        lemma_state_after_snoc(LifecycleState::Running, times, end, i - 1);
        if (forall|j: int| 0 <= j < i - 1 ==> times[j] <= end) && times[i - 1] > end {
            assert(times[i - 1] > end - FADE_LEAD);
        }
    }
}

/// In any run that starts Running with the configuration available, the
/// audio fade-out fires on tick `i` exactly when `i` is the first tick
/// whose time crosses `end - FADE_LEAD`. In particular it fires exactly
/// once as soon as some tick crosses, and never again.
pub proof fn lemma_fade_fires_at_first_crossing(times: Seq<int>, end: int, i: int)
    requires
        0 <= i < times.len(),
    ensures
        fade_fires_at_s(times, end, i) <==> (times[i] > end - FADE_LEAD && forall|j: int|
            0 <= j < i ==> times[j] <= end - FADE_LEAD),
{
    lemma_running_until_crossing(times, end, i);
}

/// In any run that starts Running with the configuration available, the
/// terminate signal fires on tick `i` exactly when `i` is the first tick
/// whose time crosses `end`. In particular it fires exactly once as soon
/// as some tick crosses, and never again.
pub proof fn lemma_terminate_fires_at_first_crossing(times: Seq<int>, end: int, i: int)
    requires
        0 <= i < times.len(),
    ensures
        terminate_fires_at_s(times, end, i) <==> (times[i] > end && forall|j: int|
            0 <= j < i ==> times[j] <= end),
{
    lemma_alive_until_end(times, end, i);
    lemma_running_until_crossing(times, end, i);
    let st = state_after_s(LifecycleState::Running, times.take(i), end);
    if times[i] > end && (forall|j: int| 0 <= j < i ==> times[j] <= end) {
        assert(st != LifecycleState::Terminated);
        assert(times[i] > end - FADE_LEAD);
    }
}

/// The fade never fires on more than one tick of a run.
pub proof fn lemma_fade_at_most_once(times: Seq<int>, end: int, i: int, j: int)
    requires
        0 <= i < times.len(),
        0 <= j < times.len(),
        fade_fires_at_s(times, end, i),
        fade_fires_at_s(times, end, j),
    ensures
        i == j,
{
    lemma_fade_fires_at_first_crossing(times, end, i);
    lemma_fade_fires_at_first_crossing(times, end, j);
}

/// The terminate signal never fires on more than one tick of a run.
pub proof fn lemma_terminate_at_most_once(times: Seq<int>, end: int, i: int, j: int)
    requires
        0 <= i < times.len(),
        0 <= j < times.len(),
        terminate_fires_at_s(times, end, i),
        terminate_fires_at_s(times, end, j),
    ensures
        i == j,
{
    lemma_terminate_fires_at_first_crossing(times, end, i);
    lemma_terminate_fires_at_first_crossing(times, end, j);
}

/// The fade precedes or coincides with the terminate signal, never
/// follows it.
pub proof fn lemma_fade_not_after_terminate(times: Seq<int>, end: int, i: int, j: int)
    requires
        0 <= i < times.len(),
        0 <= j < times.len(),
        terminate_fires_at_s(times, end, i),
        fade_fires_at_s(times, end, j),
    ensures
        j <= i,
{
    lemma_fade_fires_at_first_crossing(times, end, j);
    lemma_terminate_fires_at_first_crossing(times, end, i);
    if i < j {
        assert(times[i] <= end - FADE_LEAD);
        assert(times[i] > end);
    }
}

} // verus!
