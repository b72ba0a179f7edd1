//! Deterministic fixed-point trigonometry and square root.
//!
//! Angles are radians in millionths. Sine and cosine reduce the argument
//! into one period and evaluate a truncated power series; the arc tangent
//! uses a polynomial octant approximation. Each executable function
//! returns exactly the value of its spec mirror, so the results are a
//! pure function of the arguments.

use vstd::prelude::*;
use vstd::arithmetic::div_mod::lemma_mod_bound;
use crate::fixed::{
    SCALE,
    FX_ONE,
    clip64,
    tdiv,
    fx_add_s,
    fx_sub_s,
    fx_neg_s,
    fx_mul_s,
    fx_div_s,
    lemma_tdiv_bound,
    fx_add,
    fx_sub,
    fx_neg,
    fx_mul,
    fx_div,
};

verus! {

/// Pi in millionths of a radian, truncated so that it is even and
/// `FX_PI == 2 * FX_HALF_PI` holds exactly.
pub const FX_PI: i64 = 3_141_592;

/// Half pi in millionths of a radian.
pub const FX_HALF_PI: i64 = 1_570_796;

/// A quarter pi in millionths of a radian.
pub const FX_QUARTER_PI: i64 = 785_398;

/// A full turn in millionths of a radian, exactly `2 * FX_PI`.
pub const FX_TAU: i64 = 6_283_184;

/// Remainder truncated toward zero (the machine's signed remainder).
pub open spec fn trem(x: int, d: int) -> int
    recommends
        d > 0,
{
    if x >= 0 {
        x % d
    } else {
        -((-x) % d)
    }
}

/// An arbitrary angle mapped into `[0, FX_TAU)`.
pub open spec fn reduce_turn_s(x: i64) -> i64 {
    let r = trem(x as int, FX_TAU as int);
    if r < 0 {
        (r + FX_TAU) as i64
    } else {
        r as i64
    }
}

/// Integer division truncated toward zero, saturating.
pub open spec fn fx_idiv_s(a: i64, d: i64) -> i64
    recommends
        d > 0,
{
    clip64(tdiv(a as int, d as int))
}

pub fn fx_idiv(a: i64, d: i64) -> (r: i64)
    requires
        d > 0,
    ensures
        r == fx_idiv_s(a, d),
{
    proof {
        lemma_tdiv_bound(a as int, d as int);
    }
    match a.checked_div(d) {
        Some(v) => v,
        None => 0,
    }
}

pub fn reduce_turn(x: i64) -> (r: i64)
    ensures
        r == reduce_turn_s(x),
        0 <= r < FX_TAU,
{
    proof {
        lemma_mod_bound(x as int, FX_TAU as int);
        lemma_mod_bound(-(x as int), FX_TAU as int);
    }
    let m = match x.checked_rem(FX_TAU) {
        Some(v) => v,
        None => 0,
    };
    if m < 0 {
        m + FX_TAU
    } else {
        m
    }
}

/// Truncated power series for the sine on `[0, FX_HALF_PI]`.
pub open spec fn sin_poly_s(x: i64) -> i64 {
    let p = fx_mul_s(x, x);
    let t3 = fx_mul_s(p, x);
    let t5 = fx_mul_s(t3, p);
    let t7 = fx_mul_s(t5, p);
    fx_sub_s(fx_add_s(fx_sub_s(x, fx_idiv_s(t3, 6)), fx_idiv_s(t5, 120)), fx_idiv_s(t7, 5040))
}

/// Truncated power series for the cosine on `[0, FX_HALF_PI]`.
pub open spec fn cos_poly_s(x: i64) -> i64 {
    let p = fx_mul_s(x, x);
    let p2 = fx_mul_s(p, p);
    let p3 = fx_mul_s(p2, p);
    fx_sub_s(fx_add_s(fx_sub_s(FX_ONE, fx_idiv_s(p, 2)), fx_idiv_s(p2, 24)), fx_idiv_s(p3, 720))
}

/// The sine of an angle in millionths of a radian.
pub open spec fn sin_fx_s(x: i64) -> i64 {
    let r = reduce_turn_s(x);
    let (half, neg) = if r >= FX_PI {
        ((r - FX_PI) as i64, true)
    } else {
        (r, false)
    };
    let q = if half > FX_HALF_PI {
        (FX_PI - half) as i64
    } else {
        half
    };
    let s = sin_poly_s(q);
    if neg {
        fx_neg_s(s)
    } else {
        s
    }
}

/// The cosine of an angle in millionths of a radian.
pub open spec fn cos_fx_s(x: i64) -> i64 {
    let r = reduce_turn_s(x);
    let (half, neg) = if r >= FX_PI {
        ((r - FX_PI) as i64, true)
    } else {
        (r, false)
    };
    let (q, flip) = if half > FX_HALF_PI {
        ((FX_PI - half) as i64, true)
    } else {
        (half, false)
    };
    let c = cos_poly_s(q);
    let signed = if flip {
        fx_neg_s(c)
    } else {
        c
    };
    if neg {
        fx_neg_s(signed)
    } else {
        signed
    }
}

fn sin_poly(x: i64) -> (r: i64)
    ensures
        r == sin_poly_s(x),
{
    let p = fx_mul(x, x);
    let t3 = fx_mul(p, x);
    let t5 = fx_mul(t3, p);
    let t7 = fx_mul(t5, p);
    fx_sub(fx_add(fx_sub(x, fx_idiv(t3, 6)), fx_idiv(t5, 120)), fx_idiv(t7, 5040))
}

fn cos_poly(x: i64) -> (r: i64)
    ensures
        r == cos_poly_s(x),
{
    let p = fx_mul(x, x);
    let p2 = fx_mul(p, p);
    let p3 = fx_mul(p2, p);
    fx_sub(fx_add(fx_sub(FX_ONE, fx_idiv(p, 2)), fx_idiv(p2, 24)), fx_idiv(p3, 720))
}

pub fn sin_fx(x: i64) -> (r: i64)
    ensures
        r == sin_fx_s(x),
{
    let red = reduce_turn(x);
    let (half, neg): (i64, bool) = if red >= FX_PI {
        (red - FX_PI, true)
    } else {
        (red, false)
    };
    let q = if half > FX_HALF_PI {
        FX_PI - half
    } else {
        half
    };
    let s = sin_poly(q);
    if neg {
        fx_neg(s)
    } else {
        s
    }
}

pub fn cos_fx(x: i64) -> (r: i64)
    ensures
        r == cos_fx_s(x),
{
    let red = reduce_turn(x);
    let (half, neg): (i64, bool) = if red >= FX_PI {
        (red - FX_PI, true)
    } else {
        (red, false)
    };
    let (q, flip): (i64, bool) = if half > FX_HALF_PI {
        (FX_PI - half, true)
    } else {
        (half, false)
    };
    let c = cos_poly(q);
    let signed = if flip {
        fx_neg(c)
    } else {
        c
    };
    if neg {
        fx_neg(signed)
    } else {
        signed
    }
}

/// The sine of the zero angle is exactly zero.
pub proof fn lemma_sin_fx_zero()
    ensures
        sin_fx_s(0) == 0,
{
    assert(reduce_turn_s(0) == 0);
    assert(sin_poly_s(0) == 0);
}

/// The cosine of the zero angle is exactly one.
pub proof fn lemma_cos_fx_zero()
    ensures
        cos_fx_s(0) == FX_ONE,
{
    assert(reduce_turn_s(0) == 0);
    assert(cos_poly_s(0) == FX_ONE);
}

/// Polynomial approximation of the arc tangent of `q` for `q` in
/// `[0, FX_ONE]`, in millionths of a radian.
pub open spec fn atan_poly_s(q: i64) -> i64 {
    fx_add_s(
        fx_mul_s(FX_QUARTER_PI, q),
        fx_mul_s(fx_mul_s(q, fx_sub_s(FX_ONE, q)), fx_add_s(244_700, fx_mul_s(66_300, q))),
    )
}

/// Saturating absolute value.
pub open spec fn fx_abs_s(a: i64) -> i64 {
    if a < 0 {
        fx_neg_s(a)
    } else {
        a
    }
}

/// The angle of the vector `(x, y)` in `(-FX_PI, FX_PI]`, measured from
/// the positive x axis; zero when both components are zero.
pub open spec fn atan2_fx_s(y: i64, x: i64) -> i64 {
    if x == 0 && y == 0 {
        0
    } else if x == 0 {
        if y > 0 {
            FX_HALF_PI
        } else {
            fx_neg_s(FX_HALF_PI)
        }
    } else if y == 0 {
        if x > 0 {
            0
        } else {
            FX_PI
        }
    } else {
        let ay = fx_abs_s(y);
        let ax = fx_abs_s(x);
        let base = if ay <= ax {
            atan_poly_s(fx_div_s(ay, ax))
        } else {
            fx_sub_s(FX_HALF_PI, atan_poly_s(fx_div_s(ax, ay)))
        };
        let mag = if x > 0 {
            base
        } else {
            fx_sub_s(FX_PI, base)
        };
        if y > 0 {
            mag
        } else {
            fx_neg_s(mag)
        }
    }
}

fn atan_poly(q: i64) -> (r: i64)
    ensures
        r == atan_poly_s(q),
{
    fx_add(
        fx_mul(FX_QUARTER_PI, q),
        fx_mul(fx_mul(q, fx_sub(FX_ONE, q)), fx_add(244_700, fx_mul(66_300, q))),
    )
}

pub fn fx_abs(a: i64) -> (r: i64)
    ensures
        r == fx_abs_s(a),
{
    if a < 0 {
        fx_neg(a)
    } else {
        a
    }
}

pub fn atan2_fx(y: i64, x: i64) -> (r: i64)
    ensures
        r == atan2_fx_s(y, x),
{
    if x == 0 && y == 0 {
        0
    } else if x == 0 {
        if y > 0 {
            FX_HALF_PI
        } else {
            fx_neg(FX_HALF_PI)
        }
    } else if y == 0 {
        if x > 0 {
            0
        } else {
            FX_PI
        }
    } else {
        let ay = fx_abs(y);
        let ax = fx_abs(x);
        let base = if ay <= ax {
            atan_poly(fx_div(ay, ax))
        } else {
            fx_sub(FX_HALF_PI, atan_poly(fx_div(ax, ay)))
        };
        let mag = if x > 0 {
            base
        } else {
            fx_sub(FX_PI, base)
        };
        if y > 0 {
            mag
        } else {
            fx_neg(mag)
        }
    }
}

/// Whether `r` is the integer square root of `n`.
pub open spec fn is_isqrt(n: int, r: int) -> bool {
    0 <= r && r * r <= n && n < (r + 1) * (r + 1)
}

/// The integer square root, as the unique `r` with
/// `r * r <= n < (r + 1) * (r + 1)`.
pub open spec fn isqrt_s(n: int) -> int {
    choose|r: int| is_isqrt(n, r)
}

/// The integer square root is unique.
pub proof fn lemma_isqrt_unique(n: int, r1: int, r2: int)
    requires
        is_isqrt(n, r1),
        is_isqrt(n, r2),
    ensures
        r1 == r2,
{
    assert(r1 == r2) by (nonlinear_arith)
        requires
            0 <= r1 && r1 * r1 <= n && n < (r1 + 1) * (r1 + 1),
            0 <= r2 && r2 * r2 <= n && n < (r2 + 1) * (r2 + 1),
    ;
}

/// The square root of a fixed-point value, in fixed point: the
/// truncation of the real square root expressed in millionths.
pub open spec fn fx_sqrt_s(x: i64) -> i64 {
    isqrt_s((x as int) * (SCALE as int)) as i64
}

/// The fixed-point square root: the largest `r` with
/// `r * r <= x * SCALE`, which is the truncation of the real square
/// root expressed in millionths.
pub fn fx_sqrt(x: i64) -> (r: i64)
    requires
        x >= 0,
    ensures
        r == fx_sqrt_s(x),
        0 <= r,
        (r as int) * (r as int) <= (x as int) * (SCALE as int),
        ((r + 1) as int) * ((r + 1) as int) > (x as int) * (SCALE as int),
{
    proof {
        assert((x as int) * (SCALE as int) <= u128::MAX as int) by (nonlinear_arith)
            requires
                0 <= x as int <= i64::MAX as int,
        ;
    }
    let n: u128 = (x as u128) * (SCALE as u128);
    let mut lo: u128 = 0;
    let mut hi: u128 = 3_100_000_000_000;
    proof {
        assert((3_100_000_000_001 as int) * (3_100_000_000_001 as int) > n as int)
            by (nonlinear_arith)
            requires
                n as int == (x as int) * (SCALE as int),
                0 <= x as int <= i64::MAX as int,
        ;
    }
    while lo < hi
        invariant
            lo <= hi <= 3_100_000_000_000,
            (lo as int) * (lo as int) <= n as int,
            ((hi + 1) as int) * ((hi + 1) as int) > n as int,
            n as int == (x as int) * (SCALE as int),
        decreases hi - lo,
    {
        let mid: u128 = (lo + hi + 1) / 2;
        proof {
            assert(lo < mid <= hi) by (nonlinear_arith)
                requires
                    lo < hi,
                    mid == (lo + hi + 1) / 2,
            ;
            assert((mid as int) * (mid as int) <= u128::MAX as int) by (nonlinear_arith)
                requires
                    0 <= mid as int <= 3_100_000_000_000,
            ;
        }
        if mid * mid <= n {
            lo = mid;
        } else {
            hi = mid - 1;
        }
    }
    proof {
        let n_int = (x as int) * (SCALE as int);
        assert(is_isqrt(n_int, lo as int));
        let w = choose|r: int| is_isqrt(n_int, r);
        lemma_isqrt_unique(n_int, w, lo as int);
    }
    lo as i64
}

} // verus!
