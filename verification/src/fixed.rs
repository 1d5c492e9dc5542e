//! Fixed-point scalars and the arithmetic the engine is built on.
//!
//! A scalar is an `i64` counting millionths of a unit. Multiplying two
//! scalars therefore needs a rescaling division, and the engine's easing
//! curves need an integer square root; both are provided here together with
//! the lemmas about truncating division that the curve proofs rest on.

use vstd::prelude::*;

verus! {

use vstd::arithmetic::div_mod::{
    lemma_basic_div,
    lemma_div_is_ordered,
    lemma_div_multiples_vanish,
    lemma_multiply_divide_le,
    lemma_multiply_divide_lt,
};

/// Fixed-point fraction units in 1.0: one unit is a millionth.
pub const SCALE: i64 = 1_000_000;

/// Largest magnitude admitted for a configuration parameter or a time
/// (a thousand whole units), chosen so that every product the engine
/// forms stays well inside `i64` after rescaling.
pub const MAX_PARAM: i64 = 1_000_000_000;

/// Saturate `x` into the closed interval `[lo, hi]`.
pub open spec fn clamp_s(x: int, lo: int, hi: int) -> int {
    if x < lo {
        lo
    } else if x > hi {
        hi
    } else {
        x
    }
}

/// Saturate `x` into the closed interval `[lo, hi]`.
pub fn clamp(x: i64, lo: i64, hi: i64) -> (r: i64)
    requires
        lo <= hi,
    ensures
        r == clamp_s(x as int, lo as int, hi as int),
{
    if x < lo {
        lo
    } else if x > hi {
        hi
    } else {
        x
    }
}

/// Truncating division: the quotient rounds toward zero, as Rust's `/` does
/// on signed integers. Coincides with Euclidean division for a non-negative
/// dividend and positive divisor.
pub open spec fn tdiv(a: int, b: int) -> int {
    if a >= 0 {
        a / b
    } else {
        -((-a) / b)
    }
}

/// Dividing zero gives zero.
pub proof fn lemma_tdiv_zero(b: int)
    requires
        1 <= b,
    ensures
        tdiv(0, b) == 0,
{
    lemma_basic_div(0, b);
}

/// Dividing an exact multiple recovers the factor, for either sign.
pub proof fn lemma_tdiv_exact(a: int, b: int)
    requires
        1 <= b,
    ensures
        tdiv(a * b, b) == a,
{
    if a >= 0 {
        assert(a * b == b * a) by (nonlinear_arith);
        lemma_div_multiples_vanish(a, b);
    } else {
        assert(-(a * b) == b * (-a)) by (nonlinear_arith);
        assert(a * b < 0) by (nonlinear_arith)
            requires
                a < 0,
                b >= 1,
        ;
        lemma_div_multiples_vanish(-a, b);
    }
}

/// Truncating division is monotone in the dividend.
pub proof fn lemma_tdiv_ordered(a1: int, a2: int, b: int)
    requires
        a1 <= a2,
        1 <= b,
    ensures
        tdiv(a1, b) <= tdiv(a2, b),
{
    if a1 >= 0 {
        lemma_div_is_ordered(a1, a2, b);
    } else if a2 < 0 {
        lemma_div_is_ordered(-a2, -a1, b);
    } else {
        lemma_div_is_ordered(0, -a1, b);
        lemma_basic_div(0, b);
        lemma_div_is_ordered(0, a2, b);
    }
}

/// A bound on the dividend, stated as a multiple of the divisor, bounds the
/// quotient by the factor.
pub proof fn lemma_tdiv_le(a: int, b: int, m: int)
    requires
        1 <= b,
        0 <= m,
        -(m * b) <= a <= m * b,
    ensures
        -m <= tdiv(a, b) <= m,
{
    assert(m * b == b * m) by (nonlinear_arith);
    if a >= 0 {
        lemma_multiply_divide_le(a, b, m);
        lemma_div_is_ordered(0, a, b);
        lemma_basic_div(0, b);
    } else {
        lemma_multiply_divide_le(-a, b, m);
        lemma_div_is_ordered(0, -a, b);
        lemma_basic_div(0, b);
    }
}

/// Comparing two non-negative fractions by cross-multiplication carries
/// over to their truncated quotients.
pub proof fn lemma_div_cross(a: int, b: int, c: int, d: int)
    requires
        0 <= a,
        0 <= c,
        1 <= b,
        1 <= d,
        a * d <= c * b,
    ensures
        a / b <= c / d,
{
    let q = a / b;
    assert(q * b <= a) by {
        vstd::arithmetic::div_mod::lemma_remainder_lower(a, b);
    }
    assert(q * d <= c) by (nonlinear_arith)
        requires
            q * b <= a,
            a * d <= c * b,
            0 <= a,
            1 <= b,
            1 <= d,
    ;
    if q >= 0 {
        lemma_multiply_divide_le(q * d, d, q);
        assert((q * d) / d == q) by {
            assert(q * d == d * q) by (nonlinear_arith);
            lemma_div_multiples_vanish(q, d);
        }
        lemma_div_is_ordered(q * d, c, d);
    } else {
        lemma_div_is_ordered(0, c, d);
        lemma_basic_div(0, d);
    }
}

/// Multiply two scalars and divide by a positive scalar, rounding toward
/// zero, with the product taken at full width. The engine's rescaling
/// multiplications and rational curves are all instances of this.
pub fn mul_div(a: i64, b: i64, d: i64) -> (r: i64)
    requires
        1 <= d,
        -0x7fff_ffff_ffff_ffff <= tdiv(a as int * b as int, d as int) <= 0x7fff_ffff_ffff_ffff,
    ensures
        r == tdiv(a as int * b as int, d as int),
{
    proof {
        assert(-0x4000_0000_0000_0000_0000_0000_0000_0000
            <= (a as int) * (b as int)
            <= 0x4000_0000_0000_0000_0000_0000_0000_0000) by (nonlinear_arith)
            requires
                -0x8000_0000_0000_0000 <= a as int <= 0x7fff_ffff_ffff_ffff,
                -0x8000_0000_0000_0000 <= b as int <= 0x7fff_ffff_ffff_ffff,
        ;
    }
    let p: i128 = (a as i128) * (b as i128);
    let q: i128 = p / (d as i128);
    q as i64
}

/// The integer square root: the largest integer whose square does not
/// exceed `n`.
pub open spec fn isqrt_s(n: int) -> int
    decreases n,
{
    if n <= 0 {
        0
    } else {
        let r = isqrt_s(n - 1);
        if (r + 1) * (r + 1) <= n {
            r + 1
        } else {
            r
        }
    }
}

/// The integer square root of a non-negative number is sandwiched between
/// the squares of itself and its successor.
pub proof fn lemma_isqrt_bounds(n: int)
    requires
        0 <= n,
    ensures
        0 <= isqrt_s(n),
        isqrt_s(n) * isqrt_s(n) <= n,
        n < (isqrt_s(n) + 1) * (isqrt_s(n) + 1),
    decreases n,
{
    if n > 0 {
        lemma_isqrt_bounds(n - 1);
        let r = isqrt_s(n - 1);
        if (r + 1) * (r + 1) <= n {
            assert(n < (r + 2) * (r + 2)) by (nonlinear_arith)
                requires
                    n - 1 < (r + 1) * (r + 1),
                    (r + 1) * (r + 1) <= n,
                    0 <= r,
            ;
        }
    }
}

/// The sandwich property pins the integer square root down uniquely.
pub proof fn lemma_isqrt_unique(n: int, r: int)
    requires
        0 <= n,
        0 <= r,
        r * r <= n,
        n < (r + 1) * (r + 1),
    ensures
        r == isqrt_s(n),
{
    lemma_isqrt_bounds(n);
    let s = isqrt_s(n);
    if r < s {
        assert(false) by (nonlinear_arith)
            requires
                0 <= r,
                r < s,
                s * s <= n,
                n < (r + 1) * (r + 1),
        ;
    }
    if s < r {
        assert(false) by (nonlinear_arith)
            requires
                0 <= s,
                s < r,
                r * r <= n,
                n < (s + 1) * (s + 1),
        ;
    }
}

/// The integer square root is monotone.
pub proof fn lemma_isqrt_monotone(n1: int, n2: int)
    requires
        0 <= n1 <= n2,
    ensures
        isqrt_s(n1) <= isqrt_s(n2),
{
    lemma_isqrt_bounds(n1);
    lemma_isqrt_bounds(n2);
    let r1 = isqrt_s(n1);
    let r2 = isqrt_s(n2);
    if r2 < r1 {
        assert(false) by (nonlinear_arith)
            requires
                0 <= r2,
                r2 < r1,
                r1 * r1 <= n1,
                n2 < (r2 + 1) * (r2 + 1),
                n1 <= n2,
        ;
    }
}

/// A strict square above `n` bounds the integer square root.
pub proof fn lemma_isqrt_le(n: int, m: int)
    requires
        0 <= n,
        0 <= m,
        n < (m + 1) * (m + 1),
    ensures
        isqrt_s(n) <= m,
{
    lemma_isqrt_bounds(n);
    let r = isqrt_s(n);
    if m < r {
        assert(false) by (nonlinear_arith)
            requires
                0 <= m,
                m < r,
                r * r <= n,
                n < (m + 1) * (m + 1),
        ;
    }
}

/// Compute the integer square root by binary search.
pub fn isqrt(n: i64) -> (r: i64)
    requires
        0 <= n,
    ensures
        r == isqrt_s(n as int),
        0 <= r,
        r * r <= n,
        n < (r + 1) * (r + 1),
{
    let mut lo: i64 = 0;
    let mut hi: i64 = 3_037_000_500;
    proof {
        assert((3_037_000_500 as int) * (3_037_000_500 as int) > 0x7fff_ffff_ffff_ffff);
    }
    while hi - lo > 1
        invariant
            0 <= lo < hi <= 3_037_000_500,
            lo * lo <= n,
            n < hi * hi,
        decreases hi - lo,
    {
        let mid: i64 = lo + (hi - lo) / 2;
        proof {
            assert(mid * mid <= 3_037_000_499 * 3_037_000_499) by (nonlinear_arith)
                requires
                    0 <= mid <= 3_037_000_499,
            ;
            assert((3_037_000_499 as int) * (3_037_000_499 as int) <= 0x7fff_ffff_ffff_ffff);
        }
        let sq: i64 = mid * mid;
        if sq <= n {
            lo = mid;
        } else {
            hi = mid;
        }
    }
    proof {
        lemma_isqrt_unique(n as int, lo as int);
    }
    lo
}

} // verus!
