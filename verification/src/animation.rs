//! The animation driver: a closed-form flight path and rotor spin as
//! pure functions of elapsed time, written into scene-graph node poses.
//!
//! The flight path combines sine and cosine waves at two frequencies on
//! the x-z plane; pitch, yaw and roll are derived from the path's
//! forward difference, so the body banks with its direction of travel.
//! Each animated instance evaluates the same path at a fixed phase
//! offset per instance, with no shared state between instances. Rotor
//! angles are a fixed angular velocity times elapsed time and grow
//! without wrapping.

use vstd::prelude::*;
use crate::fixed::{
    fx_add_s,
    fx_sub_s,
    fx_mul_s,
    fx_from_int_s,
    fx_add,
    fx_sub,
    fx_mul,
    fx_from_int,
    lemma_fx_square_nonneg,
};
use crate::trig::{FX_PI, sin_fx_s, cos_fx_s, atan2_fx_s, fx_sqrt_s, sin_fx, cos_fx, atan2_fx, fx_sqrt};
use crate::vec3::Vec3;
use crate::scene::SceneGraph;

verus! {

/// Amplitude of the x wave of the flight path (15 units).
pub const PATH_SIZE: i64 = 15_000_000;

/// Amplitude of the z wave of the flight path (45 units).
pub const TRIPLE_PATH_SIZE: i64 = 45_000_000;

/// Angular speed of the circuit (0.8 radians per unit time).
pub const CIRCUIT_SPEED: i64 = 800_000;

/// Angular speed of the faster x wave, exactly twice `CIRCUIT_SPEED`.
pub const DOUBLE_CIRCUIT_SPEED: i64 = 1_600_000;

/// Lookahead used for the forward difference of the path (0.05).
pub const PATH_STEP: i64 = 50_000;

/// Roll is half the slow cosine wave.
pub const ROLL_GAIN: i64 = 500_000;

/// Pitch is -0.175 times the lookahead travel distance.
pub const PITCH_GAIN: i64 = -175_000;

/// Angular velocity of both rotors (2.0 radians per unit time).
pub const ROTOR_RATE: i64 = 2_000_000;

/// Phase offset between animated instances (0.95 units of time).
pub const INSTANCE_PHASE: i64 = 950_000;

/// The computed pose of a flying instance: a position on the x-z plane
/// and the banking angles, all in fixed point.
#[derive(Clone, Copy, PartialEq, Eq, Structural, Debug)]
pub struct Heading {
    pub x: i64,
    pub z: i64,
    pub pitch: i64,
    pub yaw: i64,
    pub roll: i64,
}

/// The x coordinate of the path at time `t`.
pub open spec fn path_x_s(t: i64) -> i64 {
    fx_mul_s(PATH_SIZE, sin_fx_s(fx_mul_s(t, DOUBLE_CIRCUIT_SPEED)))
}

/// The z coordinate of the path at time `t`.
pub open spec fn path_z_s(t: i64) -> i64 {
    fx_mul_s(TRIPLE_PATH_SIZE, cos_fx_s(fx_mul_s(t, CIRCUIT_SPEED)))
}

/// The full heading at time `t`: the path position, and pitch, yaw and
/// roll derived from the forward difference of the path.
#[verifier::opaque]
pub open spec fn heading_s(t: i64) -> Heading {
    let x = path_x_s(t);
    let z = path_z_s(t);
    let tn = fx_add_s(t, PATH_STEP);
    let dx = fx_sub_s(path_x_s(tn), x);
    let dz = fx_sub_s(path_z_s(tn), z);
    let dist = fx_sqrt_s(fx_add_s(fx_mul_s(dx, dx), fx_mul_s(dz, dz)));
    Heading {
        x,
        z,
        pitch: fx_mul_s(PITCH_GAIN, dist),
        yaw: fx_add_s(FX_PI, atan2_fx_s(dx, dz)),
        roll: fx_mul_s(ROLL_GAIN, cos_fx_s(fx_mul_s(t, CIRCUIT_SPEED))),
    }
}

fn path_x(t: i64) -> (r: i64)
    ensures
        r == path_x_s(t),
{
    fx_mul(PATH_SIZE, sin_fx(fx_mul(t, DOUBLE_CIRCUIT_SPEED)))
}

fn path_z(t: i64) -> (r: i64)
    ensures
        r == path_z_s(t),
{
    fx_mul(TRIPLE_PATH_SIZE, cos_fx(fx_mul(t, CIRCUIT_SPEED)))
}

/// Evaluates the flight path at time `t`. The result is exactly
/// `heading_s(t)`, a pure function of `t` alone.
pub fn heading(t: i64) -> (r: Heading)
    ensures
        r == heading_s(t),
{
    proof {
        reveal(heading_s);
    }
    let x = path_x(t);
    let z = path_z(t);
    let tn = fx_add(t, PATH_STEP);
    let dx = fx_sub(path_x(tn), x);
    let dz = fx_sub(path_z(tn), z);
    proof {
        lemma_fx_square_nonneg(dx);
        lemma_fx_square_nonneg(dz);
    }
    let dist = fx_sqrt(fx_add(fx_mul(dx, dx), fx_mul(dz, dz)));
    Heading {
        x,
        z,
        pitch: fx_mul(PITCH_GAIN, dist),
        yaw: fx_add(FX_PI, atan2_fx(dx, dz)),
        roll: fx_mul(ROLL_GAIN, cos_fx(fx_mul(t, CIRCUIT_SPEED))),
    }
}

/// The flight path is deterministic: equal times give bitwise-equal
/// headings, since the heading is a function of the time alone.
pub proof fn lemma_heading_deterministic(t1: i64, t2: i64)
    requires
        t1 == t2,
    ensures
        heading_s(t1) == heading_s(t2),
{
}

/// The time at which instance `instance` samples the path: the shared
/// elapsed time shifted by a fixed per-instance phase.
pub open spec fn instance_time_s(elapsed: i64, instance: i64) -> i64 {
    fx_add_s(elapsed, fx_mul_s(fx_from_int_s(instance), INSTANCE_PHASE))
}

pub fn instance_time(elapsed: i64, instance: i64) -> (r: i64)
    ensures
        r == instance_time_s(elapsed, instance),
{
    fx_add(elapsed, fx_mul(fx_from_int(instance), INSTANCE_PHASE))
}

/// The rotor angle after time `t` at angular velocity `rate`: exactly
/// `rate * t`, growing without wrapping.
pub open spec fn rotor_angle_s(rate: i64, t: i64) -> i64 {
    fx_mul_s(rate, t)
}

pub fn rotor_angle(rate: i64, t: i64) -> (r: i64)
    ensures
        r == rotor_angle_s(rate, t),
{
    fx_mul(rate, t)
}

/// Writes the frame's pose for one animated instance: the heading at the
/// instance's phase-shifted time goes into the body node (x and z of the
/// position; pitch, yaw, roll as the rotation), and the rotor spin
/// angles go into the body's second child (main rotor, about y) and
/// third child (tail rotor, about x). Every other node is untouched.
pub fn animate_instance(g: &mut SceneGraph, body: usize, instance: i64, elapsed: i64)
    requires
        old(g).wf(),
        body < old(g).nodes@.len(),
        old(g).nodes@[body as int].children@.len() >= 3,
    ensures
        final(g).wf(),
        final(g).nodes@.len() == old(g).nodes@.len(),
        ({
            let h = heading_s(instance_time_s(elapsed, instance));
            let m = old(g).child_of(body as int, 1);
            let tr = old(g).child_of(body as int, 2);
            &&& final(g).nodes@[body as int].position == (Vec3 {
                x: h.x,
                y: old(g).nodes@[body as int].position.y,
                z: h.z,
            })
            &&& final(g).nodes@[body as int].rotation == (Vec3 {
                x: h.pitch,
                y: h.yaw,
                z: h.roll,
            })
            &&& final(g).nodes@[body as int].reference_point == old(
                g,
            ).nodes@[body as int].reference_point
            &&& final(g).nodes@[body as int].vao_id == old(g).nodes@[body as int].vao_id
            &&& final(g).nodes@[body as int].index_count == old(g).nodes@[body as int].index_count
            &&& final(g).nodes@[body as int].children@ == old(g).nodes@[body as int].children@
            &&& final(g).nodes@[m].rotation == (Vec3 {
                x: old(g).nodes@[m].rotation.x,
                y: rotor_angle_s(ROTOR_RATE, elapsed),
                z: old(g).nodes@[m].rotation.z,
            })
            &&& final(g).nodes@[m].position == old(g).nodes@[m].position
            &&& final(g).nodes@[m].reference_point == old(g).nodes@[m].reference_point
            &&& final(g).nodes@[m].vao_id == old(g).nodes@[m].vao_id
            &&& final(g).nodes@[m].index_count == old(g).nodes@[m].index_count
            &&& final(g).nodes@[m].children@ == old(g).nodes@[m].children@
            &&& final(g).nodes@[tr].rotation == (Vec3 {
                x: rotor_angle_s(ROTOR_RATE, elapsed),
                y: old(g).nodes@[tr].rotation.y,
                z: old(g).nodes@[tr].rotation.z,
            })
            &&& final(g).nodes@[tr].position == old(g).nodes@[tr].position
            &&& final(g).nodes@[tr].reference_point == old(g).nodes@[tr].reference_point
            &&& final(g).nodes@[tr].vao_id == old(g).nodes@[tr].vao_id
            &&& final(g).nodes@[tr].index_count == old(g).nodes@[tr].index_count
            &&& final(g).nodes@[tr].children@ == old(g).nodes@[tr].children@
            &&& forall|j: int|
                0 <= j < old(g).nodes@.len() && j != body as int && j != m && j != tr
                    ==> final(g).nodes@[j] == old(g).nodes@[j]
        }),
{
    proof {
        assert(old(g).valid_slot(body as int, 1));
        assert(old(g).valid_slot(body as int, 2));
        assert((body as int) < old(g).child_of(body as int, 1) < old(g).nodes@.len());
        assert((body as int) < old(g).child_of(body as int, 2) < old(g).nodes@.len());
    }
    let t = instance_time(elapsed, instance);
    let h = heading(t);
    let body_pos = g.nodes[body].position;
    g.set_position(body, Vec3::new(h.x, body_pos.y, h.z));
    g.set_rotation(body, Vec3::new(h.pitch, h.yaw, h.roll));
    let m = g.nodes[body].children[1];
    let tr = g.nodes[body].children[2];
    let spin = rotor_angle(ROTOR_RATE, elapsed);
    let m_rot = g.nodes[m].rotation;
    g.set_rotation(m, Vec3::new(m_rot.x, spin, m_rot.z));
    let tr_rot = g.nodes[tr].rotation;
    g.set_rotation(tr, Vec3::new(spin, tr_rot.y, tr_rot.z));
}

/// Whether `gnew` holds the frame's pose for the instance rooted at
/// `body`, as `animate_instance` writes it, relative to the pre-frame
/// state `gold`.
pub open spec fn instance_posed(
    gnew: SceneGraph,
    gold: SceneGraph,
    body: int,
    instance: i64,
    elapsed: i64,
) -> bool {
    let h = heading_s(instance_time_s(elapsed, instance));
    let m = gold.child_of(body, 1);
    let tr = gold.child_of(body, 2);
    &&& gnew.nodes@[body].position == (Vec3 {
        x: h.x,
        y: gold.nodes@[body].position.y,
        z: h.z,
    })
    &&& gnew.nodes@[body].rotation == (Vec3 { x: h.pitch, y: h.yaw, z: h.roll })
    &&& gnew.nodes@[m].rotation.y == rotor_angle_s(ROTOR_RATE, elapsed)
    &&& gnew.nodes@[tr].rotation.x == rotor_angle_s(ROTOR_RATE, elapsed)
}

/// Whether node `j` belongs to one of the first `upto` instances: it is
/// that instance's body or one of the two rotor children.
pub open spec fn fleet_touched(
    gold: SceneGraph,
    bodies: Seq<usize>,
    upto: int,
    j: int,
) -> bool {
    exists|a: int|
        0 <= a < upto && (j == bodies[a] as int || j == gold.child_of(bodies[a] as int, 1) || j
            == gold.child_of(bodies[a] as int, 2))
}

/// Advances every animated instance for one frame: instance `a` samples
/// the path at the shared elapsed time shifted by `a` phases, with no
/// state shared between instances; nodes of no instance are untouched.
#[verifier::rlimit(100)]
pub fn animate_fleet(g: &mut SceneGraph, bodies: &Vec<usize>, elapsed: i64)
    requires
        old(g).wf(),
        bodies@.len() <= 0x7fff_ffff,
        forall|a: int|
            0 <= a < bodies@.len() ==> #[trigger] bodies@[a] < old(g).nodes@.len() && old(
                g,
            ).nodes@[bodies@[a] as int].children@.len() >= 3,
        forall|a: int, b: int|
            0 <= a < bodies@.len() && 0 <= b < bodies@.len() && a != b ==> bodies@[a] != bodies@[b],
        forall|a: int, b: int|
            0 <= a < bodies@.len() && 0 <= b < bodies@.len() ==> old(g).child_of(
                bodies@[a] as int,
                1,
            ) != bodies@[b] as int && old(g).child_of(bodies@[a] as int, 2) != bodies@[b] as int,
    ensures
        final(g).wf(),
        final(g).nodes@.len() == old(g).nodes@.len(),
        forall|a: int|
            0 <= a < bodies@.len() ==> instance_posed(
                *final(g),
                *old(g),
                #[trigger] bodies@[a] as int,
                a as i64,
                elapsed,
            ),
        forall|j: int|
            0 <= j < old(g).nodes@.len() && !fleet_touched(
                *old(g),
                bodies@,
                bodies@.len() as int,
                j,
            ) ==> final(g).nodes@[j] == old(g).nodes@[j],
{
    let mut a: usize = 0;
    while a < bodies.len()
        invariant
            g.wf(),
            old(g).wf(),
            g.nodes@.len() == old(g).nodes@.len(),
            a <= bodies@.len(),
            bodies@.len() <= 0x7fff_ffff,
            forall|k: int|
                0 <= k < bodies@.len() ==> #[trigger] bodies@[k] < old(g).nodes@.len() && old(
                    g,
                ).nodes@[bodies@[k] as int].children@.len() >= 3,
            forall|k: int, b: int|
                0 <= k < bodies@.len() && 0 <= b < bodies@.len() && k != b ==> bodies@[k]
                    != bodies@[b],
            forall|k: int, b: int|
                0 <= k < bodies@.len() && 0 <= b < bodies@.len() ==> old(g).child_of(
                    bodies@[k] as int,
                    1,
                ) != bodies@[b] as int && old(g).child_of(bodies@[k] as int, 2)
                    != bodies@[b] as int,
            forall|j: int|
                0 <= j < old(g).nodes@.len() ==> #[trigger] g.nodes@[j].children@ == old(
                    g,
                ).nodes@[j].children@,
            forall|k: int|
                0 <= k < a ==> instance_posed(
                    *g,
                    *old(g),
                    #[trigger] bodies@[k] as int,
                    k as i64,
                    elapsed,
                ),
            forall|j: int|
                0 <= j < old(g).nodes@.len() && !fleet_touched(*old(g), bodies@, a as int, j)
                    ==> g.nodes@[j] == old(g).nodes@[j],
        decreases bodies@.len() - a,
    {
        let body = bodies[a];
        let ghost pre = *g;
        proof {
            assert(!fleet_touched(*old(g), bodies@, a as int, body as int));
            assert(g.nodes@[body as int] == old(g).nodes@[body as int]);
            assert(old(g).valid_slot(body as int, 1));
            assert(old(g).valid_slot(body as int, 2));
        }
        animate_instance(g, body, a as i64, elapsed);
        proof {
            let go = *old(g);
            let bi = body as int;
            let m = go.child_of(bi, 1);
            let tr = go.child_of(bi, 2);
            assert(pre.child_of(bi, 1) == m && pre.child_of(bi, 2) == tr);
            // the rotors of this instance were untouched by earlier ones
            assert(!fleet_touched(go, bodies@, a as int, m)) by {
                if fleet_touched(go, bodies@, a as int, m) {
                    let k = choose|k: int|
                        0 <= k < a as int && (m == bodies@[k] as int || m == go.child_of(
                            bodies@[k] as int,
                            1,
                        ) || m == go.child_of(bodies@[k] as int, 2));
                    assert(go.valid_slot(bodies@[k] as int, 1));
                    assert(go.valid_slot(bodies@[k] as int, 2));
                    assert(go.valid_slot(bi, 1));
                }
            }
            assert(!fleet_touched(go, bodies@, a as int, tr)) by {
                if fleet_touched(go, bodies@, a as int, tr) {
                    let k = choose|k: int|
                        0 <= k < a as int && (tr == bodies@[k] as int || tr == go.child_of(
                            bodies@[k] as int,
                            1,
                        ) || tr == go.child_of(bodies@[k] as int, 2));
                    assert(go.valid_slot(bodies@[k] as int, 1));
                    assert(go.valid_slot(bodies@[k] as int, 2));
                    assert(go.valid_slot(bi, 2));
                }
            }
            assert(pre.nodes@[m] == go.nodes@[m]);
            assert(pre.nodes@[tr] == go.nodes@[tr]);
            assert(instance_posed(*g, go, bi, a as i64, elapsed));
            // earlier instances keep their pose: their nodes are not this
            // instance's body or rotors
            assert forall|k: int| 0 <= k < a as int + 1 implies instance_posed(
                *g,
                go,
                #[trigger] bodies@[k] as int,
                k as i64,
                elapsed,
            ) by {
                if k < a as int {
                    let bk = bodies@[k] as int;
                    let mk = go.child_of(bk, 1);
                    let trk = go.child_of(bk, 2);
                    assert(go.valid_slot(bk, 1));
                    assert(go.valid_slot(bk, 2));
                    assert(go.valid_slot(bi, 1));
                    assert(go.valid_slot(bi, 2));
                    assert(bk != bi && bk != m && bk != tr);
                    assert(mk != bi && mk != m && mk != tr);
                    assert(trk != bi && trk != m && trk != tr);
                    assert(g.nodes@[bk] == pre.nodes@[bk]);
                    assert(g.nodes@[mk] == pre.nodes@[mk]);
                    assert(g.nodes@[trk] == pre.nodes@[trk]);
                }
            }
            // untouched nodes stay as they were
            assert forall|j: int|
                0 <= j < go.nodes@.len() && !fleet_touched(go, bodies@, a as int + 1, j) implies
                g.nodes@[j] == go.nodes@[j] by {
                assert(!fleet_touched(go, bodies@, a as int, j));
                assert(j != bi && j != m && j != tr);
            }
        }
        a += 1;
    }
}

} // verus!
