//! Saturating fixed-point arithmetic.
//!
//! Every physical quantity in this crate (a temperature, a heat capacity, a
//! thermal resistance, an emissivity, a density, a thickness, a portion) is
//! stored as a `u64` counting thousandths of the physical unit: the stored
//! value `1500` means `1.5`.  All derived values are clamped into
//! `[0, VAL_MAX]`; the operations below are total and saturate rather than
//! overflow.  Division by zero yields zero, which downstream code treats as
//! "no value" exactly as it treats a zero read from a measurement table.

use vstd::arithmetic::div_mod::{
    lemma_div_is_ordered, lemma_div_multiples_vanish, lemma_div_nonincreasing,
};
use vstd::arithmetic::mul::{lemma_mul_inequality, lemma_mul_upper_bound};
use vstd::prelude::*;

verus! {

/// Stored units per physical unit: values carry three decimal places.
pub const SCALE: u64 = 1000;

/// Largest representable stored value (one billion physical units); every
/// arithmetic result is clamped here.
pub const VAL_MAX: u64 = 1_000_000_000_000;

/// Clamp a mathematical integer into the representable range.
pub open spec fn sat(x: int) -> u64 {
    if x < 0 {
        0
    } else if x > VAL_MAX {
        VAL_MAX
    } else {
        x as u64
    }
}

/// Saturating sum.
pub open spec fn fx_add(a: u64, b: u64) -> u64 {
    sat(a + b)
}

/// Difference, clamped at zero.
pub open spec fn fx_sub(a: u64, b: u64) -> u64 {
    if a >= b {
        (a - b) as u64
    } else {
        0
    }
}

/// Fixed-point product: `a * b` rescaled back by `SCALE`.
pub open spec fn fx_mul(a: u64, b: u64) -> u64 {
    sat(a * b / (SCALE as int))
}

/// Fixed-point quotient: `a / b` kept in scale; zero when `b` is zero.
pub open spec fn fx_div(a: u64, b: u64) -> u64 {
    if b == 0 {
        0
    } else {
        sat(a * SCALE / (b as int))
    }
}

/// `a * b / c` in one rounding step; zero when `c` is zero.  The scale of the
/// result is the scale of `a * b / c` itself, so a plain ratio `b / c`
/// multiplied onto `a` keeps `a`'s scale.
pub open spec fn fx_muldiv(a: u64, b: u64, c: u64) -> u64 {
    if c == 0 {
        0
    } else {
        sat(a * b / (c as int))
    }
}

/// Fixed-point reciprocal of `a`; zero when `a` is zero.
pub open spec fn fx_recip(a: u64) -> u64 {
    if a == 0 {
        0
    } else {
        sat(SCALE * SCALE / (a as int))
    }
}

/// Linear interpolation of the value channel between the points
/// `(t0, v0)` and `(t1, v1)`, evaluated at temperature `t`.  Outside the
/// interval the nearer endpoint is held, so the operation is total; at an
/// endpoint it reproduces that endpoint exactly.
pub open spec fn fx_lerp(t0: u64, v0: u64, t1: u64, v1: u64, t: u64) -> u64 {
    if t <= t0 {
        v0
    } else if t >= t1 {
        v1
    } else {
        sat((v0 * (t1 - t) + v1 * (t - t0)) / (t1 - t0) as int)
    }
}

/// Blend between a low-bound value `a` (factor `0`) and a high-bound value
/// `b` (factor `SCALE`); the boundary factors reproduce the bounds exactly.
pub open spec fn fx_blend(a: u64, b: u64, f: u64) -> u64 {
    if f == 0 {
        a
    } else if f >= SCALE {
        b
    } else {
        sat((a * (SCALE - f) + b * f) / (SCALE as int))
    }
}

/// Saturating sum of the first `n` entries of a sequence.
pub open spec fn fx_sum(s: Seq<u64>, n: int) -> u64
    decreases n,
{
    if n <= 0 {
        0
    } else {
        fx_add(fx_sum(s, n - 1), s[n - 1])
    }
}

/// The saturating sum `fx_add(a, b)`.
pub fn fixed_add(a: u64, b: u64) -> (r: u64)
    ensures
        r == fx_add(a, b),
{
    let s: u128 = a as u128 + b as u128;
    if s > VAL_MAX as u128 {
        VAL_MAX
    } else {
        s as u64
    }
}

/// The clamped difference `fx_sub(a, b)`.
pub fn fixed_sub(a: u64, b: u64) -> (r: u64)
    ensures
        r == fx_sub(a, b),
{
    if a >= b {
        a - b
    } else {
        0
    }
}

/// `a * b / c`, saturating, with a zero divisor yielding zero: the executable
/// form of `fx_muldiv`.
pub fn fixed_muldiv(a: u64, b: u64, c: u64) -> (r: u64)
    ensures
        r == fx_muldiv(a, b, c),
{
    if c == 0 {
        return 0;
    }
    proof {
        lemma_mul_upper_bound(a as int, u64::MAX as int, b as int, u64::MAX as int);
    }
    let p: u128 = (a as u128) * (b as u128);
    let q: u128 = p / (c as u128);
    if q > VAL_MAX as u128 {
        VAL_MAX
    } else {
        q as u64
    }
}

/// The fixed-point product `fx_mul`.
pub fn fixed_mul(a: u64, b: u64) -> (r: u64)
    ensures
        r == fx_mul(a, b),
{
    fixed_muldiv(a, b, SCALE)
}

/// The fixed-point quotient `fx_div`.
pub fn fixed_div(a: u64, b: u64) -> (r: u64)
    ensures
        r == fx_div(a, b),
{
    if b == 0 {
        0
    } else {
        fixed_muldiv(a, SCALE, b)
    }
}

/// The fixed-point reciprocal `fx_recip`.
pub fn fixed_recip(a: u64) -> (r: u64)
    ensures
        r == fx_recip(a),
{
    if a == 0 {
        0
    } else {
        fixed_muldiv(SCALE, SCALE, a)
    }
}

/// The interpolation `fx_lerp`.
pub fn fixed_lerp(t0: u64, v0: u64, t1: u64, v1: u64, t: u64) -> (r: u64)
    ensures
        r == fx_lerp(t0, v0, t1, v1, t),
{
    if t <= t0 {
        v0
    } else if t >= t1 {
        v1
    } else {
        proof {
            lemma_mul_upper_bound(v0 as int, u64::MAX as int, (t1 - t) as int, u64::MAX as int);
            lemma_mul_upper_bound(v1 as int, u64::MAX as int, (t - t0) as int, u64::MAX as int);
            lemma_lerp_numerator_bound(t0 as int, v0 as int, t1 as int, v1 as int, t as int);
        }
        let n: u128 = (v0 as u128) * ((t1 - t) as u128) + (v1 as u128) * ((t - t0) as u128);
        let q: u128 = n / ((t1 - t0) as u128);
        if q > VAL_MAX as u128 {
            VAL_MAX
        } else {
            q as u64
        }
    }
}

/// The blend `fx_blend`.
pub fn fixed_blend(a: u64, b: u64, f: u64) -> (r: u64)
    ensures
        r == fx_blend(a, b, f),
{
    if f == 0 {
        a
    } else if f >= SCALE {
        b
    } else {
        proof {
            lemma_mul_upper_bound(a as int, u64::MAX as int, (SCALE - f) as int, SCALE as int);
            lemma_mul_upper_bound(b as int, u64::MAX as int, f as int, SCALE as int);
        }
        let n: u128 = (a as u128) * ((SCALE - f) as u128) + (b as u128) * (f as u128);
        let q: u128 = n / (SCALE as u128);
        if q > VAL_MAX as u128 {
            VAL_MAX
        } else {
            q as u64
        }
    }
}

/// The exact widened product of two stored values.
pub fn wide_mul(a: u64, b: u64) -> (r: u128)
    ensures
        r == (a as int) * (b as int),
{
    proof {
        lemma_mul_upper_bound(a as int, u64::MAX as int, b as int, u64::MAX as int);
    }
    (a as u128) * (b as u128)
}

/// The two products in a lerp numerator together stay below
/// `max(v0, v1) * (t1 - t0)`, and so below `u64::MAX * u64::MAX`.
proof fn lemma_lerp_numerator_bound(t0: int, v0: int, t1: int, v1: int, t: int)
    requires
        0 <= t0 < t < t1,
        0 <= v0 <= u64::MAX,
        0 <= v1 <= u64::MAX,
        t1 <= u64::MAX,
    ensures
        v0 * (t1 - t) + v1 * (t - t0) <= u64::MAX * (t1 - t0),
        v0 * (t1 - t) + v1 * (t - t0) <= u128::MAX,
{
    lemma_mul_inequality(v0, u64::MAX as int, t1 - t);
    lemma_mul_inequality(v1, u64::MAX as int, t - t0);
    assert(u64::MAX * (t1 - t) + u64::MAX * (t - t0) == u64::MAX * (t1 - t0))
        by (nonlinear_arith);
    lemma_mul_upper_bound(u64::MAX as int, u64::MAX as int, t1 - t0, u64::MAX as int);
}

/// An interpolation between two positive values is positive: the numerator is
/// at least the smaller endpoint times the width of the interval.
pub proof fn lemma_fx_lerp_pos(t0: u64, v0: u64, t1: u64, v1: u64, t: u64)
    requires
        v0 > 0,
        v1 > 0,
    ensures
        fx_lerp(t0, v0, t1, v1, t) > 0,
{
    if t0 < t < t1 {
        let m: int = if v0 <= v1 { v0 as int } else { v1 as int };
        let d: int = t1 - t;
        let e: int = t - t0;
        let w: int = t1 - t0;
        assert(v0 * d + v1 * e >= m * w) by (nonlinear_arith)
            requires
                m <= v0,
                m <= v1,
                0 < d,
                0 < e,
                w == d + e,
        ;
        lemma_div_is_ordered(m * w, v0 * d + v1 * e, w);
        lemma_div_multiples_vanish(m, w);
        assert((v0 * d + v1 * e) / w >= m);
    }
}

} // verus!
