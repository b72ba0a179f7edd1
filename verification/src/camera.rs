//! The free-fly camera of the frame loop.
//!
//! Held keys are integrated each frame with a velocity model: every held
//! key moves or turns the camera by its rate times the frame time, so
//! held keys give smooth motion proportional to elapsed time. The
//! view-projection matrix composes the perspective projection, a fixed
//! look-at offset, the accumulated position, and the pitch and yaw
//! rotations, in that order, so the camera orbits its current position.

use vstd::prelude::*;
use crate::fixed::{fx_add_s, fx_sub_s, fx_mul_s, fx_add, fx_sub, fx_mul};
use crate::trig::{FX_HALF_PI, sin_fx_s, fx_idiv_s};
use crate::vec3::Vec3;
use crate::mat4::{
    Mat4,
    translation_s,
    rotation_x_s,
    rotation_y_s,
    mat_mul_s,
    perspective_s,
    translation,
    rotation_x,
    rotation_y,
    mat_mul,
    perspective,
};

verus! {

/// Units per second for the horizontal and vertical translation keys.
pub const STRAFE_RATE: i64 = 10_000_000;

/// Units per second for the advance and retreat keys.
pub const ADVANCE_RATE: i64 = 20_000_000;

/// Radians per second for the look keys.
pub const LOOK_RATE: i64 = 2_000_000;

/// The near plane of the projection (1 unit).
pub const NEAR_PLANE: i64 = 1_000_000;

/// The far plane of the projection (1000 units).
pub const FAR_PLANE: i64 = 1_000_000_000;

/// The camera pose: an accumulated world offset and two look angles.
#[derive(Clone, Copy, PartialEq, Eq, Structural, Debug)]
pub struct Camera {
    pub position: Vec3,
    pub pitch: i64,
    pub yaw: i64,
}

/// The direction keys the camera recognizes: four translation axes and
/// four look axes, two keys each.
#[derive(Clone, Copy, PartialEq, Eq, Structural, Debug)]
pub enum CameraKey {
    StrafeLeft,
    StrafeRight,
    Rise,
    Descend,
    Advance,
    Retreat,
    LookLeft,
    LookRight,
    LookUp,
    LookDown,
}

/// The pose after holding one key for `dt` units of time.
pub open spec fn key_step_s(c: Camera, k: CameraKey, dt: i64) -> Camera {
    match k {
        CameraKey::StrafeLeft => Camera {
            position: Vec3 {
                x: fx_add_s(c.position.x, fx_mul_s(STRAFE_RATE, dt)),
                y: c.position.y,
                z: c.position.z,
            },
            ..c
        },
        CameraKey::StrafeRight => Camera {
            position: Vec3 {
                x: fx_sub_s(c.position.x, fx_mul_s(STRAFE_RATE, dt)),
                y: c.position.y,
                z: c.position.z,
            },
            ..c
        },
        CameraKey::Rise => Camera {
            position: Vec3 {
                x: c.position.x,
                y: fx_add_s(c.position.y, fx_mul_s(STRAFE_RATE, dt)),
                z: c.position.z,
            },
            ..c
        },
        CameraKey::Descend => Camera {
            position: Vec3 {
                x: c.position.x,
                y: fx_sub_s(c.position.y, fx_mul_s(STRAFE_RATE, dt)),
                z: c.position.z,
            },
            ..c
        },
        CameraKey::Advance => Camera {
            position: Vec3 {
                x: c.position.x,
                y: c.position.y,
                z: fx_add_s(c.position.z, fx_mul_s(ADVANCE_RATE, dt)),
            },
            ..c
        },
        CameraKey::Retreat => Camera {
            position: Vec3 {
                x: c.position.x,
                y: c.position.y,
                z: fx_sub_s(c.position.z, fx_mul_s(ADVANCE_RATE, dt)),
            },
            ..c
        },
        CameraKey::LookRight => Camera { yaw: fx_add_s(c.yaw, fx_mul_s(LOOK_RATE, dt)), ..c },
        CameraKey::LookLeft => Camera { yaw: fx_sub_s(c.yaw, fx_mul_s(LOOK_RATE, dt)), ..c },
        CameraKey::LookDown => Camera { pitch: fx_add_s(c.pitch, fx_mul_s(LOOK_RATE, dt)), ..c },
        CameraKey::LookUp => Camera { pitch: fx_sub_s(c.pitch, fx_mul_s(LOOK_RATE, dt)), ..c },
    }
}

/// The pose after holding every key of `keys`, in order, for `dt`.
pub open spec fn input_fold_s(c: Camera, keys: Seq<CameraKey>, dt: i64) -> Camera
    decreases keys.len(),
{
    if keys.len() == 0 {
        c
    } else {
        input_fold_s(key_step_s(c, keys[0], dt), keys.subrange(1, keys.len() as int), dt)
    }
}

/// The fixed look-at offset applied before the camera position.
pub open spec fn camera_offset_s() -> Vec3 {
    Vec3 { x: 0, y: 0, z: -1_500_000i64 }
}

/// The view-projection matrix:
/// `Perspective(aspect, FX_HALF_PI, near, far) * T(offset) * T(position)
/// * Rx(pitch) * Ry(yaw)`, associated as the frame loop composes it.
pub open spec fn view_projection_s(c: Camera, aspect: i64) -> Mat4
    recommends
        aspect != 0,
{
    mat_mul_s(
        mat_mul_s(
            perspective_s(aspect, FX_HALF_PI, NEAR_PLANE, FAR_PLANE),
            mat_mul_s(translation_s(camera_offset_s()), translation_s(c.position)),
        ),
        mat_mul_s(rotation_x_s(c.pitch), rotation_y_s(c.yaw)),
    )
}

impl Camera {
    /// The camera at the origin, looking straight ahead.
    pub fn start() -> (r: Camera)
        ensures
            r == (Camera { position: Vec3::zero_s(), pitch: 0, yaw: 0 }),
    {
        Camera { position: Vec3 { x: 0, y: 0, z: 0 }, pitch: 0, yaw: 0 }
    }

    /// Integrates one frame of held keys into the pose, each key moving
    /// or turning the camera by its rate times `dt`.
    pub fn step(self, keys: &Vec<CameraKey>, dt: i64) -> (r: Camera)
        ensures
            r == input_fold_s(self, keys@, dt),
    {
        let mut c = self;
        let mut i: usize = 0;
        proof {
            assert(keys@.subrange(0, keys@.len() as int) =~= keys@);
        }
        while i < keys.len()
            invariant
                i <= keys@.len(),
                input_fold_s(self, keys@, dt) == input_fold_s(
                    c,
                    keys@.subrange(i as int, keys@.len() as int),
                    dt,
                ),
            decreases keys@.len() - i,
        {
            let k = keys[i];
            proof {
                let rest = keys@.subrange(i as int, keys@.len() as int);
                assert(rest[0] == keys@[i as int]);
                assert(rest.subrange(1, rest.len() as int) =~= keys@.subrange(
                    i as int + 1,
                    keys@.len() as int,
                ));
            }
            c = key_step(c, k, dt);
            i += 1;
        }
        proof {
            assert(keys@.subrange(keys@.len() as int, keys@.len() as int)
                =~= Seq::<CameraKey>::empty());
        }
        c
    }
}

/// One key's contribution to the frame: exactly `key_step_s`.
pub fn key_step(c: Camera, k: CameraKey, dt: i64) -> (r: Camera)
    ensures
        r == key_step_s(c, k, dt),
{
    let v = c.position;
    match k {
        CameraKey::StrafeLeft => Camera {
            position: Vec3::new(fx_add(v.x, fx_mul(STRAFE_RATE, dt)), v.y, v.z),
            ..c
        },
        CameraKey::StrafeRight => Camera {
            position: Vec3::new(fx_sub(v.x, fx_mul(STRAFE_RATE, dt)), v.y, v.z),
            ..c
        },
        CameraKey::Rise => Camera {
            position: Vec3::new(v.x, fx_add(v.y, fx_mul(STRAFE_RATE, dt)), v.z),
            ..c
        },
        CameraKey::Descend => Camera {
            position: Vec3::new(v.x, fx_sub(v.y, fx_mul(STRAFE_RATE, dt)), v.z),
            ..c
        },
        CameraKey::Advance => Camera {
            position: Vec3::new(v.x, v.y, fx_add(v.z, fx_mul(ADVANCE_RATE, dt))),
            ..c
        },
        CameraKey::Retreat => Camera {
            position: Vec3::new(v.x, v.y, fx_sub(v.z, fx_mul(ADVANCE_RATE, dt))),
            ..c
        },
        CameraKey::LookRight => Camera { yaw: fx_add(c.yaw, fx_mul(LOOK_RATE, dt)), ..c },
        CameraKey::LookLeft => Camera { yaw: fx_sub(c.yaw, fx_mul(LOOK_RATE, dt)), ..c },
        CameraKey::LookDown => Camera { pitch: fx_add(c.pitch, fx_mul(LOOK_RATE, dt)), ..c },
        CameraKey::LookUp => Camera { pitch: fx_sub(c.pitch, fx_mul(LOOK_RATE, dt)), ..c },
    }
}

/// Composes the frame's view-projection matrix for the pose, exactly as
/// `view_projection_s` states it.
pub fn compose_view_projection(c: &Camera, aspect: i64) -> (r: Mat4)
    requires
        aspect != 0,
    ensures
        r == view_projection_s(*c, aspect),
{
    proof {
        assert(fx_sub_s(NEAR_PLANE, FAR_PLANE) != 0);
        assert(fx_idiv_s(FX_HALF_PI, 2) == 785_398);
        assert(crate::trig::reduce_turn_s(785_398) == 785_398);
        assert(fx_mul_s(785_398, 785_398) == 616_850);
        assert(fx_mul_s(616_850, 785_398) == 484_472);
        assert(fx_mul_s(484_472, 616_850) == 298_846);
        assert(fx_mul_s(298_846, 616_850) == 184_343);
        assert(crate::trig::sin_poly_s(785_398) == 707_107);
        assert(sin_fx_s(785_398) == 707_107);
    }
    let proj = perspective(aspect, FX_HALF_PI, NEAR_PLANE, FAR_PLANE);
    let trans = mat_mul(&translation(Vec3::new(0, 0, -1_500_000)), &translation(c.position));
    let look = mat_mul(&rotation_x(c.pitch), &rotation_y(c.yaw));
    mat_mul(&mat_mul(&proj, &trans), &look)
}

} // verus!
