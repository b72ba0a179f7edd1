//! 4x4 fixed-point matrices in row-major layout: the homogeneous
//! transforms composed by the scene graph and the camera.
//!
//! Every entry is a fixed-point number in millionths; products and sums
//! saturate, so composition is total. Multiplying by the identity is
//! exact for every matrix, which the identity lemmas below state.

use vstd::prelude::*;
use vstd::arithmetic::div_mod::lemma_div_multiples_vanish;
use crate::fixed::{
    SCALE,
    FX_ONE,
    fx_add_s,
    fx_sub_s,
    fx_mul_s,
    fx_neg_s,
    fx_div_s,
    fx_add,
    fx_sub,
    fx_mul,
    fx_neg,
    fx_div,
};
use crate::trig::{
    sin_fx_s,
    cos_fx_s,
    fx_idiv_s,
    sin_fx,
    cos_fx,
    fx_idiv,
    lemma_sin_fx_zero,
    lemma_cos_fx_zero,
};
use crate::vec3::Vec3;

verus! {

/// A 4x4 matrix; `mRC` is the entry in row `R`, column `C`.
#[derive(Clone, Copy, PartialEq, Eq, Structural, Debug)]
pub struct Mat4 {
    pub m00: i64,
    pub m01: i64,
    pub m02: i64,
    pub m03: i64,
    pub m10: i64,
    pub m11: i64,
    pub m12: i64,
    pub m13: i64,
    pub m20: i64,
    pub m21: i64,
    pub m22: i64,
    pub m23: i64,
    pub m30: i64,
    pub m31: i64,
    pub m32: i64,
    pub m33: i64,
}

/// The identity matrix.
pub open spec fn identity_s() -> Mat4 {
    Mat4 {
        m00: FX_ONE,
        m01: 0,
        m02: 0,
        m03: 0,
        m10: 0,
        m11: FX_ONE,
        m12: 0,
        m13: 0,
        m20: 0,
        m21: 0,
        m22: FX_ONE,
        m23: 0,
        m30: 0,
        m31: 0,
        m32: 0,
        m33: FX_ONE,
    }
}

pub fn identity() -> (r: Mat4)
    ensures
        r == identity_s(),
{
    Mat4 {
        m00: FX_ONE,
        m01: 0,
        m02: 0,
        m03: 0,
        m10: 0,
        m11: FX_ONE,
        m12: 0,
        m13: 0,
        m20: 0,
        m21: 0,
        m22: FX_ONE,
        m23: 0,
        m30: 0,
        m31: 0,
        m32: 0,
        m33: FX_ONE,
    }
}

/// The translation by `v`.
pub open spec fn translation_s(v: Vec3) -> Mat4 {
    Mat4 {
        m00: FX_ONE,
        m01: 0,
        m02: 0,
        m03: v.x,
        m10: 0,
        m11: FX_ONE,
        m12: 0,
        m13: v.y,
        m20: 0,
        m21: 0,
        m22: FX_ONE,
        m23: v.z,
        m30: 0,
        m31: 0,
        m32: 0,
        m33: FX_ONE,
    }
}

pub fn translation(v: Vec3) -> (r: Mat4)
    ensures
        r == translation_s(v),
{
    Mat4 {
        m00: FX_ONE,
        m01: 0,
        m02: 0,
        m03: v.x,
        m10: 0,
        m11: FX_ONE,
        m12: 0,
        m13: v.y,
        m20: 0,
        m21: 0,
        m22: FX_ONE,
        m23: v.z,
        m30: 0,
        m31: 0,
        m32: 0,
        m33: FX_ONE,
    }
}

/// The rotation by `a` (millionths of a radian) about the x axis.
pub open spec fn rotation_x_s(a: i64) -> Mat4 {
    let c = cos_fx_s(a);
    let s = sin_fx_s(a);
    Mat4 {
        m00: FX_ONE,
        m01: 0,
        m02: 0,
        m03: 0,
        m10: 0,
        m11: c,
        m12: fx_neg_s(s),
        m13: 0,
        m20: 0,
        m21: s,
        m22: c,
        m23: 0,
        m30: 0,
        m31: 0,
        m32: 0,
        m33: FX_ONE,
    }
}

pub fn rotation_x(a: i64) -> (r: Mat4)
    ensures
        r == rotation_x_s(a),
{
    let c = cos_fx(a);
    let s = sin_fx(a);
    Mat4 {
        m00: FX_ONE,
        m01: 0,
        m02: 0,
        m03: 0,
        m10: 0,
        m11: c,
        m12: fx_neg(s),
        m13: 0,
        m20: 0,
        m21: s,
        m22: c,
        m23: 0,
        m30: 0,
        m31: 0,
        m32: 0,
        m33: FX_ONE,
    }
}

/// The rotation by `a` (millionths of a radian) about the y axis.
pub open spec fn rotation_y_s(a: i64) -> Mat4 {
    let c = cos_fx_s(a);
    let s = sin_fx_s(a);
    Mat4 {
        m00: c,
        m01: 0,
        m02: s,
        m03: 0,
        m10: 0,
        m11: FX_ONE,
        m12: 0,
        m13: 0,
        m20: fx_neg_s(s),
        m21: 0,
        m22: c,
        m23: 0,
        m30: 0,
        m31: 0,
        m32: 0,
        m33: FX_ONE,
    }
}

pub fn rotation_y(a: i64) -> (r: Mat4)
    ensures
        r == rotation_y_s(a),
{
    let c = cos_fx(a);
    let s = sin_fx(a);
    Mat4 {
        m00: c,
        m01: 0,
        m02: s,
        m03: 0,
        m10: 0,
        m11: FX_ONE,
        m12: 0,
        m13: 0,
        m20: fx_neg(s),
        m21: 0,
        m22: c,
        m23: 0,
        m30: 0,
        m31: 0,
        m32: 0,
        m33: FX_ONE,
    }
}

/// The rotation by `a` (millionths of a radian) about the z axis.
pub open spec fn rotation_z_s(a: i64) -> Mat4 {
    let c = cos_fx_s(a);
    let s = sin_fx_s(a);
    Mat4 {
        m00: c,
        m01: fx_neg_s(s),
        m02: 0,
        m03: 0,
        m10: s,
        m11: c,
        m12: 0,
        m13: 0,
        m20: 0,
        m21: 0,
        m22: FX_ONE,
        m23: 0,
        m30: 0,
        m31: 0,
        m32: 0,
        m33: FX_ONE,
    }
}

pub fn rotation_z(a: i64) -> (r: Mat4)
    ensures
        r == rotation_z_s(a),
{
    let c = cos_fx(a);
    let s = sin_fx(a);
    Mat4 {
        m00: c,
        m01: fx_neg(s),
        m02: 0,
        m03: 0,
        m10: s,
        m11: c,
        m12: 0,
        m13: 0,
        m20: 0,
        m21: 0,
        m22: FX_ONE,
        m23: 0,
        m30: 0,
        m31: 0,
        m32: 0,
        m33: FX_ONE,
    }
}

/// Fixed-point two, used by the perspective matrix.
pub const FX_TWO: i64 = 2_000_000;

/// Fixed-point minus one.
pub const FX_NEG_ONE: i64 = -1_000_000;

/// The right-handed perspective projection with vertical field of view
/// `fovy` (millionths of a radian), `f = cot(fovy / 2)`:
/// `[f/aspect, f, (far+near)/(near-far), (2*far*near)/(near-far)]` on
/// the diagonal block, with `-1` in the lower z slot.
pub open spec fn perspective_s(aspect: i64, fovy: i64, near: i64, far: i64) -> Mat4
    recommends
        aspect != 0,
        near != far,
        sin_fx_s(fx_idiv_s(fovy, 2)) != 0,
{
    let half = fx_idiv_s(fovy, 2);
    let f = fx_div_s(cos_fx_s(half), sin_fx_s(half));
    let nf = fx_sub_s(near, far);
    Mat4 {
        m00: fx_div_s(f, aspect),
        m01: 0,
        m02: 0,
        m03: 0,
        m10: 0,
        m11: f,
        m12: 0,
        m13: 0,
        m20: 0,
        m21: 0,
        m22: fx_div_s(fx_add_s(far, near), nf),
        m23: fx_div_s(fx_mul_s(fx_mul_s(FX_TWO, far), near), nf),
        m30: 0,
        m31: 0,
        m32: FX_NEG_ONE,
        m33: 0,
    }
}

pub fn perspective(aspect: i64, fovy: i64, near: i64, far: i64) -> (r: Mat4)
    requires
        aspect != 0,
        fx_sub_s(near, far) != 0,
        sin_fx_s(fx_idiv_s(fovy, 2)) != 0,
    ensures
        r == perspective_s(aspect, fovy, near, far),
{
    let half = fx_idiv(fovy, 2);
    let s = sin_fx(half);
    let f = fx_div(cos_fx(half), s);
    let nf = fx_sub(near, far);
    Mat4 {
        m00: fx_div(f, aspect),
        m01: 0,
        m02: 0,
        m03: 0,
        m10: 0,
        m11: f,
        m12: 0,
        m13: 0,
        m20: 0,
        m21: 0,
        m22: fx_div(fx_add(far, near), nf),
        m23: fx_div(fx_mul(fx_mul(FX_TWO, far), near), nf),
        m30: 0,
        m31: 0,
        m32: FX_NEG_ONE,
        m33: 0,
    }
}

/// The saturating fixed-point dot product of a row and a column.
#[verifier::opaque]
pub open spec fn dot4_s(a0: i64, b0: i64, a1: i64, b1: i64, a2: i64, b2: i64, a3: i64, b3: i64) -> i64 {
    fx_add_s(
        fx_add_s(fx_add_s(fx_mul_s(a0, b0), fx_mul_s(a1, b1)), fx_mul_s(a2, b2)),
        fx_mul_s(a3, b3),
    )
}

fn dot4(a0: i64, b0: i64, a1: i64, b1: i64, a2: i64, b2: i64, a3: i64, b3: i64) -> (r: i64)
    ensures
        r == dot4_s(a0, b0, a1, b1, a2, b2, a3, b3),
{
    proof {
        reveal(dot4_s);
    }
    fx_add(fx_add(fx_add(fx_mul(a0, b0), fx_mul(a1, b1)), fx_mul(a2, b2)), fx_mul(a3, b3))
}

/// The matrix product `a * b` in saturating fixed-point arithmetic.
pub open spec fn mat_mul_s(a: Mat4, b: Mat4) -> Mat4 {
    Mat4 {
        m00: dot4_s(a.m00, b.m00, a.m01, b.m10, a.m02, b.m20, a.m03, b.m30),
        m01: dot4_s(a.m00, b.m01, a.m01, b.m11, a.m02, b.m21, a.m03, b.m31),
        m02: dot4_s(a.m00, b.m02, a.m01, b.m12, a.m02, b.m22, a.m03, b.m32),
        m03: dot4_s(a.m00, b.m03, a.m01, b.m13, a.m02, b.m23, a.m03, b.m33),
        m10: dot4_s(a.m10, b.m00, a.m11, b.m10, a.m12, b.m20, a.m13, b.m30),
        m11: dot4_s(a.m10, b.m01, a.m11, b.m11, a.m12, b.m21, a.m13, b.m31),
        m12: dot4_s(a.m10, b.m02, a.m11, b.m12, a.m12, b.m22, a.m13, b.m32),
        m13: dot4_s(a.m10, b.m03, a.m11, b.m13, a.m12, b.m23, a.m13, b.m33),
        m20: dot4_s(a.m20, b.m00, a.m21, b.m10, a.m22, b.m20, a.m23, b.m30),
        m21: dot4_s(a.m20, b.m01, a.m21, b.m11, a.m22, b.m21, a.m23, b.m31),
        m22: dot4_s(a.m20, b.m02, a.m21, b.m12, a.m22, b.m22, a.m23, b.m32),
        m23: dot4_s(a.m20, b.m03, a.m21, b.m13, a.m22, b.m23, a.m23, b.m33),
        m30: dot4_s(a.m30, b.m00, a.m31, b.m10, a.m32, b.m20, a.m33, b.m30),
        m31: dot4_s(a.m30, b.m01, a.m31, b.m11, a.m32, b.m21, a.m33, b.m31),
        m32: dot4_s(a.m30, b.m02, a.m31, b.m12, a.m32, b.m22, a.m33, b.m32),
        m33: dot4_s(a.m30, b.m03, a.m31, b.m13, a.m32, b.m23, a.m33, b.m33),
    }
}

pub fn mat_mul(a: &Mat4, b: &Mat4) -> (r: Mat4)
    ensures
        r == mat_mul_s(*a, *b),
{
    Mat4 {
        m00: dot4(a.m00, b.m00, a.m01, b.m10, a.m02, b.m20, a.m03, b.m30),
        m01: dot4(a.m00, b.m01, a.m01, b.m11, a.m02, b.m21, a.m03, b.m31),
        m02: dot4(a.m00, b.m02, a.m01, b.m12, a.m02, b.m22, a.m03, b.m32),
        m03: dot4(a.m00, b.m03, a.m01, b.m13, a.m02, b.m23, a.m03, b.m33),
        m10: dot4(a.m10, b.m00, a.m11, b.m10, a.m12, b.m20, a.m13, b.m30),
        m11: dot4(a.m10, b.m01, a.m11, b.m11, a.m12, b.m21, a.m13, b.m31),
        m12: dot4(a.m10, b.m02, a.m11, b.m12, a.m12, b.m22, a.m13, b.m32),
        m13: dot4(a.m10, b.m03, a.m11, b.m13, a.m12, b.m23, a.m13, b.m33),
        m20: dot4(a.m20, b.m00, a.m21, b.m10, a.m22, b.m20, a.m23, b.m30),
        m21: dot4(a.m20, b.m01, a.m21, b.m11, a.m22, b.m21, a.m23, b.m31),
        m22: dot4(a.m20, b.m02, a.m21, b.m12, a.m22, b.m22, a.m23, b.m32),
        m23: dot4(a.m20, b.m03, a.m21, b.m13, a.m22, b.m23, a.m23, b.m33),
        m30: dot4(a.m30, b.m00, a.m31, b.m10, a.m32, b.m20, a.m33, b.m30),
        m31: dot4(a.m30, b.m01, a.m31, b.m11, a.m32, b.m21, a.m33, b.m31),
        m32: dot4(a.m30, b.m02, a.m31, b.m12, a.m32, b.m22, a.m33, b.m32),
        m33: dot4(a.m30, b.m03, a.m31, b.m13, a.m32, b.m23, a.m33, b.m33),
    }
}

/// Multiplying a fixed-point number by one is exact.
pub proof fn lemma_fx_mul_one(x: i64)
    ensures
        fx_mul_s(FX_ONE, x) == x,
        fx_mul_s(x, FX_ONE) == x,
{
    if x >= 0 {
        lemma_div_multiples_vanish(x as int, SCALE as int);
        assert((SCALE as int) * (x as int) == (FX_ONE as int) * (x as int));
    } else {
        lemma_div_multiples_vanish(-(x as int), SCALE as int);
        assert((SCALE as int) * (-(x as int)) == -((FX_ONE as int) * (x as int)));
    }
}

/// Multiplying a fixed-point number by zero gives zero.
pub proof fn lemma_fx_mul_zero(x: i64)
    ensures
        fx_mul_s(0, x) == 0,
        fx_mul_s(x, 0) == 0,
{
}

/// The translation by the zero vector is exactly the identity.
pub proof fn lemma_translation_zero_identity()
    ensures
        translation_s(Vec3::zero_s()) == identity_s(),
{
}

/// A rotation by the zero angle about any axis is exactly the identity.
pub proof fn lemma_rotation_zero_identity()
    ensures
        rotation_x_s(0) == identity_s(),
        rotation_y_s(0) == identity_s(),
        rotation_z_s(0) == identity_s(),
{
    lemma_sin_fx_zero();
    lemma_cos_fx_zero();
}

/// The identity is a left unit of the matrix product, exactly.
pub proof fn lemma_mat_mul_identity_left(m: Mat4)
    ensures
        mat_mul_s(identity_s(), m) == m,
{
    reveal(dot4_s);
    assert forall|x: i64| #[trigger] fx_mul_s(FX_ONE, x) == x by {
        lemma_fx_mul_one(x);
    }
    assert forall|x: i64| #[trigger] fx_mul_s(0, x) == 0 by {
        lemma_fx_mul_zero(x);
    }
}

/// The identity is a right unit of the matrix product, exactly.
pub proof fn lemma_mat_mul_identity_right(m: Mat4)
    ensures
        mat_mul_s(m, identity_s()) == m,
{
    reveal(dot4_s);
    assert forall|x: i64| #[trigger] fx_mul_s(x, FX_ONE) == x by {
        lemma_fx_mul_one(x);
    }
    assert forall|x: i64| #[trigger] fx_mul_s(x, 0) == 0 by {
        lemma_fx_mul_zero(x);
    }
}

} // verus!
