//! Three-component fixed-point vectors: translations, Euler angles and
//! pivot points of scene-graph nodes.

use vstd::prelude::*;
use crate::fixed::{fx_neg_s, fx_neg};

verus! {

/// A 3D vector whose components are fixed-point numbers in millionths.
#[derive(Clone, Copy, PartialEq, Eq, Structural, Debug)]
pub struct Vec3 {
    pub x: i64,
    pub y: i64,
    pub z: i64,
}

impl Vec3 {
    /// The zero vector.
    pub open spec fn zero_s() -> Vec3 {
        Vec3 { x: 0, y: 0, z: 0 }
    }

    pub fn zero() -> (r: Vec3)
        ensures
            r == Vec3::zero_s(),
    {
        Vec3 { x: 0, y: 0, z: 0 }
    }

    pub fn new(x: i64, y: i64, z: i64) -> (r: Vec3)
        ensures
            r == (Vec3 { x, y, z }),
    {
        Vec3 { x, y, z }
    }

    /// The componentwise (saturating) negation.
    pub open spec fn neg_s(self) -> Vec3 {
        Vec3 { x: fx_neg_s(self.x), y: fx_neg_s(self.y), z: fx_neg_s(self.z) }
    }

    pub fn neg(self) -> (r: Vec3)
        ensures
            r == self.neg_s(),
    {
        Vec3 { x: fx_neg(self.x), y: fx_neg(self.y), z: fx_neg(self.z) }
    }
}

} // verus!
