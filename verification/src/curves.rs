//! The easing curves that shape every motion in the show.
//!
//! All curves are total over their stated domains and exact: each executable
//! function returns precisely the value of its spec-level counterpart, and
//! the qualitative laws (saturation, bounds, monotonicity) are proved of
//! those spec functions.

use vstd::prelude::*;

verus! {

use crate::fixed::{
    clamp_s,
    isqrt,
    isqrt_s,
    lemma_div_cross,
    lemma_isqrt_le,
    lemma_isqrt_monotone,
    lemma_isqrt_unique,
    lemma_tdiv_exact,
    lemma_tdiv_le,
    lemma_tdiv_ordered,
    lemma_tdiv_zero,
    mul_div,
    tdiv,
    MAX_PARAM,
    SCALE,
};

/// Upper bound on what `spin_ease` can return, used to keep the camera
/// angle computation inside `i64`.
pub const SPIN_EASE_MAX: i64 = 1_500_000_000_000_000;

/// The position of `x` within `[edge0, edge1]`, saturated into `[0, 1]`.
pub open spec fn unit_ramp_s(edge0: int, edge1: int, x: int) -> int {
    clamp_s(tdiv((x - edge0) * SCALE, edge1 - edge0), 0, SCALE as int)
}

/// The cubic Hermite ease `t * t * (3 - 2 * t)` on a `[0, 1]` scalar.
pub open spec fn hermite_s(t: int) -> int {
    tdiv(t * t * (3 * SCALE - 2 * t), (SCALE as int) * (SCALE as int))
}

/// Smooth Hermite interpolation: 0 below `edge0`, 1 above `edge1`, the
/// cubic ease in between.
pub open spec fn smoothstep_s(edge0: int, edge1: int, x: int) -> int {
    hermite_s(unit_ramp_s(edge0, edge1, x))
}

/// The saturated ramp stays within `[0, 1]`.
pub proof fn lemma_unit_ramp_range(edge0: int, edge1: int, x: int)
    ensures
        0 <= unit_ramp_s(edge0, edge1, x) <= SCALE,
{
}

/// The saturated ramp is monotone in `x`.
pub proof fn lemma_unit_ramp_monotone(edge0: int, edge1: int, x1: int, x2: int)
    requires
        edge0 < edge1,
        x1 <= x2,
    ensures
        unit_ramp_s(edge0, edge1, x1) <= unit_ramp_s(edge0, edge1, x2),
{
    assert((x1 - edge0) * SCALE <= (x2 - edge0) * SCALE) by (nonlinear_arith)
        requires
            x1 <= x2,
    ;
    lemma_tdiv_ordered((x1 - edge0) * SCALE, (x2 - edge0) * SCALE, edge1 - edge0);
}

/// The Hermite cubic maps `[0, 1]` into `[0, 1]`.
pub proof fn lemma_hermite_range(t: int)
    requires
        0 <= t <= SCALE,
    ensures
        0 <= hermite_s(t) <= SCALE,
{
    let s = SCALE as int;
    assert(0 <= t * t * (3 * s - 2 * t) <= s * (s * s)) by (nonlinear_arith)
        requires
            0 <= t <= s,
            s == SCALE as int,
    ;
    lemma_tdiv_ordered(0, t * t * (3 * s - 2 * t), s * s);
    lemma_tdiv_zero(s * s);
    lemma_tdiv_ordered(t * t * (3 * s - 2 * t), s * (s * s), s * s);
    lemma_tdiv_exact(s, s * s);
}

/// The Hermite cubic is monotone on `[0, 1]`.
pub proof fn lemma_hermite_monotone(t1: int, t2: int)
    requires
        0 <= t1 <= t2 <= SCALE,
    ensures
        hermite_s(t1) <= hermite_s(t2),
{
    let s = SCALE as int;
    assert(t1 * t1 * (3 * s - 2 * t1) <= t2 * t2 * (3 * s - 2 * t2)) by (nonlinear_arith)
        requires
            0 <= t1 <= t2 <= s,
    ;
    lemma_tdiv_ordered(t1 * t1 * (3 * s - 2 * t1), t2 * t2 * (3 * s - 2 * t2), s * s);
}

/// Below the lower edge the smoothstep is exactly 0.
pub proof fn lemma_smoothstep_zero(edge0: int, edge1: int, x: int)
    requires
        edge0 < edge1,
        x <= edge0,
    ensures
        smoothstep_s(edge0, edge1, x) == 0,
{
    assert((x - edge0) * SCALE <= 0) by (nonlinear_arith)
        requires
            x <= edge0,
    ;
    lemma_tdiv_ordered((x - edge0) * SCALE, 0, edge1 - edge0);
    lemma_tdiv_zero(edge1 - edge0);
    assert(unit_ramp_s(edge0, edge1, x) == 0);
    let s = SCALE as int;
    assert(0 * 0 * (3 * s - 2 * 0) == 0) by (nonlinear_arith);
    lemma_tdiv_zero(s * s);
}

/// Above the upper edge the smoothstep is exactly 1.
pub proof fn lemma_smoothstep_one(edge0: int, edge1: int, x: int)
    requires
        edge0 < edge1,
        x >= edge1,
    ensures
        smoothstep_s(edge0, edge1, x) == SCALE,
{
    let de = edge1 - edge0;
    assert((x - edge0) * SCALE >= SCALE * de) by (nonlinear_arith)
        requires
            x - edge0 >= de,
    ;
    lemma_tdiv_exact(SCALE as int, de);
    assert(tdiv(SCALE * de, de) == SCALE);
    lemma_tdiv_ordered(SCALE * de, (x - edge0) * SCALE, de);
    assert(unit_ramp_s(edge0, edge1, x) == SCALE);
    let s = SCALE as int;
    assert(s * s * (3 * s - 2 * s) == s * (s * s)) by (nonlinear_arith);
    lemma_tdiv_exact(s, s * s);
}

/// The smoothstep stays within `[0, 1]`.
pub proof fn lemma_smoothstep_range(edge0: int, edge1: int, x: int)
    ensures
        0 <= smoothstep_s(edge0, edge1, x) <= SCALE,
{
    lemma_unit_ramp_range(edge0, edge1, x);
    lemma_hermite_range(unit_ramp_s(edge0, edge1, x));
}

/// The smoothstep is monotone non-decreasing in `x`.
pub proof fn lemma_smoothstep_monotone(edge0: int, edge1: int, x1: int, x2: int)
    requires
        edge0 < edge1,
        x1 <= x2,
    ensures
        smoothstep_s(edge0, edge1, x1) <= smoothstep_s(edge0, edge1, x2),
{
    lemma_unit_ramp_monotone(edge0, edge1, x1, x2);
    lemma_unit_ramp_range(edge0, edge1, x1);
    lemma_unit_ramp_range(edge0, edge1, x2);
    lemma_hermite_monotone(unit_ramp_s(edge0, edge1, x1), unit_ramp_s(edge0, edge1, x2));
}

/// Smooth Hermite interpolation between the two edges.
///
/// The edges must be non-degenerate (`edge0 < edge1`): a degenerate range
/// is a programming error upstream, not a case this curve defines.
pub fn smoothstep(edge0: i64, edge1: i64, x: i64) -> (r: i64)
    requires
        edge0 < edge1,
        -2 * MAX_PARAM <= edge0 <= 2 * MAX_PARAM,
        -2 * MAX_PARAM <= edge1 <= 2 * MAX_PARAM,
        -2 * MAX_PARAM <= x <= 2 * MAX_PARAM,
    ensures
        r == smoothstep_s(edge0 as int, edge1 as int, x as int),
        0 <= r <= SCALE,
        x <= edge0 ==> r == 0,
        x >= edge1 ==> r == SCALE,
{
    proof {
        lemma_smoothstep_range(edge0 as int, edge1 as int, x as int);
    }
    let dx: i64 = x - edge0;
    let de: i64 = edge1 - edge0;
    if dx <= 0 {
        proof {
            lemma_smoothstep_zero(edge0 as int, edge1 as int, x as int);
        }
        return 0;
    }
    if dx >= de {
        proof {
            lemma_smoothstep_one(edge0 as int, edge1 as int, x as int);
        }
        return SCALE;
    }
    proof {
        assert(0 <= dx * SCALE <= de * SCALE) by (nonlinear_arith)
            requires
                0 < dx <= de,
        ;
        lemma_tdiv_ordered(0, dx * SCALE, de as int);
        lemma_tdiv_zero(de as int);
        assert(de * SCALE == SCALE * de) by (nonlinear_arith);
        lemma_tdiv_exact(SCALE as int, de as int);
        lemma_tdiv_ordered(dx * SCALE, SCALE * de, de as int);
    }
    let t: i64 = mul_div(dx, SCALE, de);
    proof {
        assert(t == unit_ramp_s(edge0 as int, edge1 as int, x as int));
        assert(t * t <= SCALE * SCALE) by (nonlinear_arith)
            requires
                0 <= t <= SCALE,
        ;
        assert(0 <= t * t) by (nonlinear_arith);
    }
    let t2: i64 = t * t;
    let cubic: i64 = 3 * SCALE - 2 * t;
    proof {
        let s = SCALE as int;
        assert((t2 as int) * (cubic as int) == (t as int) * (t as int) * (3 * s - 2 * t)) by (
        nonlinear_arith)
            requires
                t2 as int == (t as int) * (t as int),
                cubic as int == 3 * s - 2 * (t as int),
        ;
        lemma_hermite_range(t as int);
    }
    mul_div(t2, cubic, SCALE * SCALE)
}

/// The rational slowdown curve `rate * v / (rate + v)`: rises from 0 and
/// approaches `rate` asymptotically instead of diverging.
pub open spec fn slowdown_s(v: int, rate: int) -> int {
    tdiv(rate * v, rate + v)
}

/// Slowdown of 0 is 0.
pub proof fn lemma_slowdown_zero(rate: int)
    requires
        1 <= rate,
    ensures
        slowdown_s(0, rate) == 0,
{
    assert(rate * 0 == 0) by (nonlinear_arith);
    lemma_tdiv_zero(rate);
}

/// The slowdown curve stays within `[0, rate)`.
pub proof fn lemma_slowdown_bounded(v: int, rate: int)
    requires
        0 <= v,
        1 <= rate,
    ensures
        0 <= slowdown_s(v, rate) < rate,
{
    assert(0 <= rate * v) by (nonlinear_arith)
        requires
            0 <= v,
            1 <= rate,
    ;
    lemma_tdiv_ordered(0, rate * v, rate + v);
    lemma_tdiv_zero(rate + v);
    assert(rate * v < (rate + v) * rate) by (nonlinear_arith)
        requires
            0 <= v,
            1 <= rate,
    ;
    vstd::arithmetic::div_mod::lemma_multiply_divide_lt(rate * v, rate + v, rate);
}

/// The slowdown curve is monotone non-decreasing in `v`.
pub proof fn lemma_slowdown_monotone(v1: int, v2: int, rate: int)
    requires
        0 <= v1 <= v2,
        1 <= rate,
    ensures
        slowdown_s(v1, rate) <= slowdown_s(v2, rate),
{
    assert(0 <= rate * v1 && 0 <= rate * v2 && (rate * v1) * (rate + v2) <= (rate * v2) * (rate
        + v1)) by (nonlinear_arith)
        requires
            0 <= v1 <= v2,
            1 <= rate,
    ;
    lemma_div_cross(rate * v1, rate + v1, rate * v2, rate + v2);
}

/// The slowdown curve is strictly increasing in `v` as a rational value,
/// stated by cross-multiplication; after the truncation to fixed point
/// only the non-strict order of `lemma_slowdown_monotone` survives.
pub proof fn lemma_slowdown_strict_as_rational(v1: int, v2: int, rate: int)
    requires
        0 <= v1 < v2,
        1 <= rate,
    ensures
        (rate * v1) * (rate + v2) < (rate * v2) * (rate + v1),
{
    assert((rate * v1) * (rate + v2) < (rate * v2) * (rate + v1)) by (nonlinear_arith)
        requires
            0 <= v1 < v2,
            1 <= rate,
    ;
}

/// The rational slowdown curve `rate * v / (rate + v)`.
pub fn slowdown(v: i64, rate: i64) -> (r: i64)
    requires
        0 <= v,
        1 <= rate,
        v + rate <= 0x7fff_ffff_ffff_ffff,
    ensures
        r == slowdown_s(v as int, rate as int),
        0 <= r < rate,
        v == 0 ==> r == 0,
{
    proof {
        lemma_slowdown_bounded(v as int, rate as int);
        if v == 0 {
            lemma_slowdown_zero(rate as int);
        }
    }
    mul_div(rate, v, rate + v)
}

/// The decelerating angular-time remap
/// `(sqrt(max(t, 0) * falloff + 1/4) - 1/2) / falloff`: rotation keeps
/// accruing forever but ever more slowly.
pub open spec fn spin_ease_s(t: int, falloff: int) -> int {
    let m = if t >= 0 {
        t
    } else {
        0
    };
    tdiv((isqrt_s(m * falloff + 250_000_000_000) - 500_000) * SCALE, falloff)
}

/// The decelerating angular-time remap. Requires a positive falloff.
pub fn spin_ease(t: i64, falloff: i64) -> (r: i64)
    requires
        -2 * MAX_PARAM <= t <= 2 * MAX_PARAM,
        1 <= falloff <= MAX_PARAM,
    ensures
        r == spin_ease_s(t as int, falloff as int),
        0 <= r <= SPIN_EASE_MAX,
{
    let m: i64 = if t >= 0 {
        t
    } else {
        0
    };
    proof {
        assert(0 <= m * falloff <= 2_000_000_000_000_000_000) by (nonlinear_arith)
            requires
                0 <= m as int <= 2_000_000_000,
                1 <= falloff as int <= 1_000_000_000,
        ;
    }
    let n: i64 = m * falloff + 250_000_000_000;
    let s: i64 = isqrt(n);
    proof {
        assert(500_000 * 500_000 <= 250_000_000_000 < (500_000 + 1) * (500_000 + 1))
            by (nonlinear_arith);
        lemma_isqrt_unique(250_000_000_000, 500_000);
        lemma_isqrt_monotone(250_000_000_000, n as int);
        assert((n as int) < (1_500_000_000 + 1) * (1_500_000_000 + 1)) by (nonlinear_arith)
            requires
                n as int <= 2_000_000_250_000_000_000,
        ;
        lemma_isqrt_le(n as int, 1_500_000_000);
    }
    let d: i64 = s - 500_000;
    proof {
        assert(0 <= d * SCALE <= 1_499_500_000 * 1_000_000) by (nonlinear_arith)
            requires
                0 <= d as int <= 1_499_500_000,
        ;
        lemma_tdiv_ordered(0, d * SCALE, falloff as int);
        lemma_tdiv_zero(falloff as int);
        lemma_tdiv_le(d * SCALE, falloff as int, 1_499_500_000_000_000);
        assert(1_499_500_000_000_000 * falloff >= d * SCALE) by (nonlinear_arith)
            requires
                d * SCALE <= 1_499_500_000_000_000,
                1 <= falloff as int,
        ;
    }
    mul_div(d, SCALE, falloff)
}

} // verus!
