//! The oscillator bank: the gated, biased sinusoids that paint the
//! deformable surface.
//!
//! Each coefficient is silent before its start time, fades in over the
//! spin-up duration through the smoothstep gate, and then oscillates
//! indefinitely. The engine computes each coefficient's phase angle; the
//! rendering collaborator supplies the sine of that angle as a fixed-point
//! scalar, and the bank combines it exactly.

use vstd::prelude::*;

verus! {

use crate::curves::{
    lemma_smoothstep_one,
    lemma_smoothstep_zero,
    smoothstep,
    smoothstep_s,
};
use crate::fixed::{
    lemma_tdiv_exact,
    lemma_tdiv_le,
    lemma_tdiv_zero,
    mul_div,
    tdiv,
    MAX_PARAM,
    SCALE,
};

/// Number of surface coefficients the bank drives; fixed at build time.
pub const NUM_COEFFICIENTS: usize = 9;

/// One oscillator: a biased sinusoid with its own fade-in gate.
#[derive(Clone, Copy, PartialEq, Eq, Structural, Debug)]
pub struct Coefficient {
    /// Peak swing of the sinusoid.
    pub amplitude: i64,
    /// Angular frequency multiplier.
    pub frequency: i64,
    /// Phase offset of the sinusoid, in radians.
    pub phase: i64,
    /// Time at which the coefficient starts fading in.
    pub start: i64,
    /// Constant offset added to the sinusoid.
    pub bias: i64,
}

impl Coefficient {
    /// Every parameter lies within the engine's fixed-point range.
    pub open spec fn wf(self) -> bool {
        &&& -MAX_PARAM <= self.amplitude <= MAX_PARAM
        &&& -MAX_PARAM <= self.frequency <= MAX_PARAM
        &&& -MAX_PARAM <= self.phase <= MAX_PARAM
        &&& -MAX_PARAM <= self.start <= MAX_PARAM
        &&& -MAX_PARAM <= self.bias <= MAX_PARAM
    }

    /// Decide `wf` at run time, for validating loaded configuration.
    pub fn is_well_formed(&self) -> (b: bool)
        ensures
            b == self.wf(),
    {
        -MAX_PARAM <= self.amplitude && self.amplitude <= MAX_PARAM && -MAX_PARAM
            <= self.frequency && self.frequency <= MAX_PARAM && -MAX_PARAM <= self.phase
            && self.phase <= MAX_PARAM && -MAX_PARAM <= self.start && self.start <= MAX_PARAM
            && -MAX_PARAM <= self.bias && self.bias <= MAX_PARAM
    }
}

/// The loaded oscillator configuration: a bank of exactly
/// `NUM_COEFFICIENTS` coefficients, immutable once loaded.
pub struct OscillatorParams {
    pub coefficients: Vec<Coefficient>,
}

impl OscillatorParams {
    /// The bank has its fixed size and every coefficient is in range.
    pub open spec fn wf(self) -> bool {
        &&& self.coefficients@.len() == NUM_COEFFICIENTS
        &&& forall|i: int|
            0 <= i < self.coefficients@.len() ==> (#[trigger] self.coefficients@[i]).wf()
    }

    /// Decide `wf` at run time: a loaded bank of the wrong size, or with a
    /// coefficient out of range, is a fatal configuration error the caller
    /// reports at startup.
    pub fn is_well_formed(&self) -> (b: bool)
        ensures
            b == self.wf(),
    {
        if self.coefficients.len() != NUM_COEFFICIENTS {
            return false;
        }
        let mut i: usize = 0;
        while i < self.coefficients.len()
            invariant
                0 <= i <= self.coefficients@.len(),
                forall|j: int| 0 <= j < i ==> (#[trigger] self.coefficients@[j]).wf(),
            decreases self.coefficients@.len() - i,
        {
            if !self.coefficients[i].is_well_formed() {
                return false;
            }
            i = i + 1;
        }
        true
    }
}

/// The fade-in gate of a coefficient: 0 before `start`, 1 from
/// `start + spinup` on, easing in between.
pub open spec fn gate_s(c: Coefficient, spinup: int, t: int) -> int {
    smoothstep_s(c.start as int, c.start + spinup, t)
}

/// The phase angle of a coefficient's sinusoid at time `t` under the
/// global animation speed.
pub open spec fn angle_s(c: Coefficient, speed: int, t: int) -> int {
    tdiv(speed * c.frequency * t, (SCALE as int) * (SCALE as int)) + c.phase
}

/// The ungated waveform: the biased sinusoid, given the sine of the
/// coefficient's phase angle.
pub open spec fn wave_s(c: Coefficient, sine: int) -> int {
    tdiv(c.amplitude * sine, SCALE as int) + c.bias
}

/// The gated output of a coefficient.
pub open spec fn output_s(c: Coefficient, spinup: int, t: int, sine: int) -> int {
    tdiv(gate_s(c, spinup, t) * wave_s(c, sine), SCALE as int)
}

/// Before its start time a coefficient is exactly silent, whatever sine
/// value the collaborator supplies.
pub proof fn lemma_output_silent_before_start(c: Coefficient, spinup: int, t: int, sine: int)
    requires
        1 <= spinup,
        t <= c.start,
    ensures
        output_s(c, spinup, t, sine) == 0,
{
    lemma_smoothstep_zero(c.start as int, c.start + spinup, t);
    assert(0 * wave_s(c, sine) == 0) by (nonlinear_arith);
    lemma_tdiv_zero(SCALE as int);
}

/// Once its gate has saturated, the coefficient yields exactly the biased
/// sinusoid.
pub proof fn lemma_output_saturated(c: Coefficient, spinup: int, t: int, sine: int)
    requires
        1 <= spinup,
        t >= c.start + spinup,
    ensures
        output_s(c, spinup, t, sine) == wave_s(c, sine),
{
    lemma_smoothstep_one(c.start as int, c.start + spinup, t);
    let w = wave_s(c, sine);
    assert((SCALE as int) * w == w * (SCALE as int)) by (nonlinear_arith);
    lemma_tdiv_exact(w, SCALE as int);
}

/// The phase angle whose sine the rendering collaborator must supply for
/// coefficient `c` at time `t`.
pub fn coefficient_angle(c: &Coefficient, speed: i64, t: i64) -> (r: i64)
    requires
        c.wf(),
        -MAX_PARAM <= speed <= MAX_PARAM,
        -2 * MAX_PARAM <= t <= 2 * MAX_PARAM,
    ensures
        r == angle_s(*c, speed as int, t as int),
{
    proof {
        assert(-1_000_000_000_000_000_000 <= (speed as int) * (c.frequency as int)
            <= 1_000_000_000_000_000_000) by (nonlinear_arith)
            requires
                -1_000_000_000 <= speed as int <= 1_000_000_000,
                -1_000_000_000 <= c.frequency as int <= 1_000_000_000,
        ;
    }
    let sf: i64 = speed * c.frequency;
    proof {
        assert(-(2_000_000_000_000_000 * 1_000_000_000_000) <= (sf as int) * (t as int)
            <= 2_000_000_000_000_000 * 1_000_000_000_000) by (nonlinear_arith)
            requires
                -1_000_000_000_000_000_000 <= sf as int <= 1_000_000_000_000_000_000,
                -2_000_000_000 <= t as int <= 2_000_000_000,
        ;
        lemma_tdiv_le((sf as int) * (t as int), 1_000_000_000_000, 2_000_000_000_000_000);
    }
    let base: i64 = mul_div(sf, t, SCALE * SCALE);
    base + c.phase
}

/// The gated output of coefficient `c` at time `t`, given the sine of its
/// phase angle as a fixed-point scalar in `[-1, 1]`.
pub fn coefficient_output(c: &Coefficient, spinup: i64, t: i64, sine: i64) -> (r: i64)
    requires
        c.wf(),
        1 <= spinup <= MAX_PARAM,
        -2 * MAX_PARAM <= t <= 2 * MAX_PARAM,
        -SCALE <= sine <= SCALE,
    ensures
        r == output_s(*c, spinup as int, t as int, sine as int),
        -2 * MAX_PARAM <= r <= 2 * MAX_PARAM,
{
    let gate: i64 = smoothstep(c.start, c.start + spinup, t);
    proof {
        assert(-(1_000_000_000 * 1_000_000) <= (c.amplitude as int) * (sine as int)
            <= 1_000_000_000 * 1_000_000) by (nonlinear_arith)
            requires
                -1_000_000_000 <= c.amplitude as int <= 1_000_000_000,
                -1_000_000 <= sine as int <= 1_000_000,
        ;
        lemma_tdiv_le((c.amplitude as int) * (sine as int), SCALE as int, MAX_PARAM as int);
    }
    let w: i64 = mul_div(c.amplitude, sine, SCALE) + c.bias;
    proof {
        assert(-(2_000_000_000 * 1_000_000) <= (gate as int) * (w as int)
            <= 2_000_000_000 * 1_000_000) by (nonlinear_arith)
            requires
                0 <= gate as int <= 1_000_000,
                -2_000_000_000 <= w as int <= 2_000_000_000,
        ;
        lemma_tdiv_le((gate as int) * (w as int), SCALE as int, 2 * MAX_PARAM as int);
    }
    mul_div(gate, w, SCALE)
}

/// The phase angles of the whole bank at time `t`: one angle per
/// coefficient, for the collaborator to take sines of.
pub fn oscillator_angles(params: &OscillatorParams, speed: i64, t: i64) -> (out: Vec<i64>)
    requires
        params.wf(),
        -MAX_PARAM <= speed <= MAX_PARAM,
        -2 * MAX_PARAM <= t <= 2 * MAX_PARAM,
    ensures
        out@.len() == params.coefficients@.len(),
        forall|i: int|
            0 <= i < out@.len() ==> #[trigger] out@[i] == angle_s(
                params.coefficients@[i],
                speed as int,
                t as int,
            ),
{
    let mut out: Vec<i64> = Vec::new();
    let n: usize = params.coefficients.len();
    let mut i: usize = 0;
    while i < n
        invariant
            n == params.coefficients@.len(),
            0 <= i <= n,
            params.wf(),
            -MAX_PARAM <= speed <= MAX_PARAM,
            -2 * MAX_PARAM <= t <= 2 * MAX_PARAM,
            out@.len() == i,
            forall|j: int|
                0 <= j < i ==> #[trigger] out@[j] == angle_s(
                    params.coefficients@[j],
                    speed as int,
                    t as int,
                ),
        decreases n - i,
    {
        let a: i64 = coefficient_angle(&params.coefficients[i], speed, t);
        out.push(a);
        i = i + 1;
    }
    out
}

/// The amplitude vector of the whole bank at time `t`: each coefficient's
/// gated output, given the sines of the angles `oscillator_angles` returned.
pub fn compute_amplitudes(params: &OscillatorParams, spinup: i64, t: i64, sines: &Vec<i64>) -> (out:
    Vec<i64>)
    requires
        params.wf(),
        1 <= spinup <= MAX_PARAM,
        -2 * MAX_PARAM <= t <= 2 * MAX_PARAM,
        sines@.len() == params.coefficients@.len(),
        forall|i: int| 0 <= i < sines@.len() ==> -SCALE <= #[trigger] sines@[i] <= SCALE,
    ensures
        out@.len() == params.coefficients@.len(),
        forall|i: int|
            0 <= i < out@.len() ==> #[trigger] out@[i] == output_s(
                params.coefficients@[i],
                spinup as int,
                t as int,
                sines@[i] as int,
            ),
{
    let mut out: Vec<i64> = Vec::new();
    let n: usize = params.coefficients.len();
    let mut i: usize = 0;
    while i < n
        invariant
            n == params.coefficients@.len(),
            0 <= i <= n,
            params.wf(),
            1 <= spinup <= MAX_PARAM,
            -2 * MAX_PARAM <= t <= 2 * MAX_PARAM,
            sines@.len() == params.coefficients@.len(),
            forall|j: int| 0 <= j < sines@.len() ==> -SCALE <= #[trigger] sines@[j] <= SCALE,
            out@.len() == i,
            forall|j: int|
                0 <= j < i ==> #[trigger] out@[j] == output_s(
                    params.coefficients@[j],
                    spinup as int,
                    t as int,
                    sines@[j] as int,
                ),
        decreases n - i,
    {
        let r: i64 = coefficient_output(&params.coefficients[i], spinup, t, sines[i]);
        out.push(r);
        i = i + 1;
    }
    out
}

} // verus!
