//! Saturating fixed-point scalars: an `i64` counts millionths of a unit.
//!
//! Every operation is total and deterministic: results outside the `i64`
//! range saturate, and products and quotients are truncated toward zero.
//! Each executable function returns exactly the value of its spec mirror,
//! so equal inputs always give bitwise-equal outputs.

use vstd::prelude::*;
use vstd::arithmetic::div_mod::{lemma_div_pos_is_pos, lemma_div_nonincreasing};

verus! {

/// Number of fixed-point steps per unit.
pub const SCALE: i64 = 1_000_000;

/// Fixed-point one.
pub const FX_ONE: i64 = 1_000_000;

/// Saturate an unbounded integer into the `i64` range.
pub open spec fn clip64(x: int) -> i64 {
    if x > i64::MAX as int {
        i64::MAX
    } else if x < i64::MIN as int {
        i64::MIN
    } else {
        x as i64
    }
}

/// Division truncated toward zero (the machine's signed division), for
/// any nonzero divisor.
pub open spec fn tdiv(x: int, d: int) -> int
    recommends
        d != 0,
{
    if x == 0 {
        0
    } else if x > 0 && d > 0 {
        x / d
    } else if x < 0 && d < 0 {
        (x * -1) / (d * -1)
    } else if x < 0 {
        ((x * -1) / d) * -1
    } else {
        (x / (d * -1)) * -1
    }
}

/// Saturating fixed-point sum.
pub open spec fn fx_add_s(a: i64, b: i64) -> i64 {
    clip64(a + b)
}

/// Saturating fixed-point difference.
pub open spec fn fx_sub_s(a: i64, b: i64) -> i64 {
    clip64(a - b)
}

/// Saturating fixed-point negation.
pub open spec fn fx_neg_s(a: i64) -> i64 {
    clip64(-a)
}

/// Saturating fixed-point product: the exact product in millionths,
/// truncated toward zero, then clipped.
pub open spec fn fx_mul_s(a: i64, b: i64) -> i64 {
    clip64(tdiv(a * b, SCALE as int))
}

/// Saturating fixed-point quotient, truncated toward zero.
pub open spec fn fx_div_s(a: i64, b: i64) -> i64
    recommends
        b != 0,
{
    clip64(tdiv(a * (SCALE as int), b as int))
}

/// Truncated division never grows the magnitude of the dividend.
pub proof fn lemma_tdiv_bound(x: int, d: int)
    requires
        d != 0,
    ensures
        x >= 0 ==> -x <= tdiv(x, d) <= x,
        x < 0 ==> x <= tdiv(x, d) <= -x,
{
    let m = if d > 0 {
        d
    } else {
        -d
    };
    if x > 0 {
        lemma_div_pos_is_pos(x, m);
        lemma_div_nonincreasing(x, m);
    } else if x < 0 {
        lemma_div_pos_is_pos(-x, m);
        lemma_div_nonincreasing(-x, m);
    }
}

/// A fixed-point square is never negative.
pub proof fn lemma_fx_square_nonneg(a: i64)
    ensures
        fx_mul_s(a, a) >= 0,
{
    assert((a as int) * (a as int) >= 0) by (nonlinear_arith);
    lemma_tdiv_bound((a as int) * (a as int), SCALE as int);
}

/// The whole number `k` as a saturating fixed-point value.
pub open spec fn fx_from_int_s(k: i64) -> i64 {
    clip64(k * (SCALE as int))
}

pub fn fx_from_int(k: i64) -> (r: i64)
    ensures
        r == fx_from_int_s(k),
{
    match k.checked_mul(SCALE) {
        Some(v) => v,
        None => if k >= 0 {
            i64::MAX
        } else {
            i64::MIN
        },
    }
}

pub fn fx_add(a: i64, b: i64) -> (r: i64)
    ensures
        r == fx_add_s(a, b),
{
    match a.checked_add(b) {
        Some(v) => v,
        None => if a >= 0 {
            i64::MAX
        } else {
            i64::MIN
        },
    }
}

pub fn fx_sub(a: i64, b: i64) -> (r: i64)
    ensures
        r == fx_sub_s(a, b),
{
    match a.checked_sub(b) {
        Some(v) => v,
        None => if a >= 0 {
            i64::MAX
        } else {
            i64::MIN
        },
    }
}

pub fn fx_neg(a: i64) -> (r: i64)
    ensures
        r == fx_neg_s(a),
{
    if a == i64::MIN {
        i64::MAX
    } else {
        -a
    }
}

pub fn fx_mul(a: i64, b: i64) -> (r: i64)
    ensures
        r == fx_mul_s(a, b),
{
    proof {
        assert((a as int) * (b as int) <= i128::MAX as int && i128::MIN as int <= (a as int) * (
        b as int)) by (nonlinear_arith)
            requires
                i64::MIN as int <= a as int <= i64::MAX as int,
                i64::MIN as int <= b as int <= i64::MAX as int,
        ;
    }
    let p: i128 = (a as i128) * (b as i128);
    proof {
        lemma_tdiv_bound(p as int, SCALE as int);
    }
    let q: i128 = match p.checked_div(SCALE as i128) {
        Some(v) => v,
        None => 0,
    };
    proof {
        assert(q == tdiv(a * b, SCALE as int));
    }
    if q > i64::MAX as i128 {
        i64::MAX
    } else if q < i64::MIN as i128 {
        i64::MIN
    } else {
        q as i64
    }
}

pub fn fx_div(a: i64, b: i64) -> (r: i64)
    requires
        b != 0,
    ensures
        r == fx_div_s(a, b),
{
    proof {
        assert((a as int) * (SCALE as int) <= i128::MAX as int && i128::MIN as int <= (a as int) * (
        SCALE as int)) by (nonlinear_arith)
            requires
                i64::MIN as int <= a as int <= i64::MAX as int,
        ;
    }
    let p: i128 = (a as i128) * (SCALE as i128);
    proof {
        lemma_tdiv_bound(p as int, b as int);
    }
    let q: i128 = match p.checked_div(b as i128) {
        Some(v) => v,
        None => 0,
    };
    proof {
        assert(q == tdiv(a * (SCALE as int), b as int));
    }
    if q > i64::MAX as i128 {
        i64::MAX
    } else if q < i64::MIN as i128 {
        i64::MIN
    } else {
        q as i64
    }
}

} // verus!
