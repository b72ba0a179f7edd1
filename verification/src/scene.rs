//! The scene graph: an arena of transform nodes indexed by integer
//! handles, each node holding a parent-relative pose, an optional
//! drawable, and an ordered list of child handles.
//!
//! The tree is built once: nodes are created in order, and a child is
//! attached to exactly one parent created before it. Well-formedness
//! (`SceneGraph::wf`) pins that down: every child handle points past its
//! parent and into the arena, and no handle is attached twice, so the
//! graph is a forest and top-down traversal terminates.

use vstd::prelude::*;
use crate::vec3::Vec3;
use crate::mat4::{
    Mat4,
    identity_s,
    translation_s,
    rotation_x_s,
    rotation_y_s,
    rotation_z_s,
    mat_mul_s,
    translation,
    rotation_x,
    rotation_y,
    rotation_z,
    mat_mul,
    lemma_mat_mul_identity_left,
    lemma_mat_mul_identity_right,
};

verus! {

/// Why a scene-graph lookup failed.
#[derive(Clone, Copy, PartialEq, Eq, Structural, Debug)]
pub enum SceneError {
    /// The requested child position does not exist on the node.
    IndexOutOfRange,
}

/// One transform node. Rotations are Euler angles (millionths of a
/// radian) about the local x, y and z axes, applied about
/// `reference_point` rather than the local origin. A node draws only
/// when `index_count` is positive.
pub struct Node {
    pub position: Vec3,
    pub rotation: Vec3,
    pub reference_point: Vec3,
    pub vao_id: u32,
    pub index_count: i32,
    pub children: Vec<usize>,
}

/// The node arena. Handles are indices into `nodes`.
pub struct SceneGraph {
    pub nodes: Vec<Node>,
}

impl SceneGraph {
    /// The handle stored in child slot `i` of node `p`.
    pub open spec fn child_of(self, p: int, i: int) -> int {
        self.nodes@[p].children@[i] as int
    }

    /// Whether node `p` exists and has a child slot `i`.
    pub open spec fn valid_slot(self, p: int, i: int) -> bool {
        0 <= p < self.nodes@.len() && 0 <= i < self.nodes@[p].children@.len()
    }

    /// Every child handle points into the arena and past its parent, and
    /// no handle is attached to more than one slot.
    pub open spec fn wf(self) -> bool {
        &&& forall|p: int, i: int|
            self.valid_slot(p, i) ==> p < #[trigger] self.child_of(p, i) < self.nodes@.len()
        &&& forall|p1: int, i1: int, p2: int, i2: int|
            self.valid_slot(p1, i1) && self.valid_slot(p2, i2) && #[trigger] self.child_of(p1, i1)
                == #[trigger] self.child_of(p2, i2) ==> p1 == p2 && i1 == i2
    }

    /// Whether the node `c` is already attached under some parent.
    pub open spec fn has_parent(self, c: int) -> bool {
        exists|p: int, i: int| self.valid_slot(p, i) && self.child_of(p, i) == c
    }

    pub fn new() -> (r: SceneGraph)
        ensures
            r.wf(),
            r.nodes@.len() == 0,
    {
        SceneGraph { nodes: Vec::new() }
    }

    /// Allocates a node with identity pose, zero pivot, no drawable and
    /// no children, and returns its handle.
    pub fn create_node(&mut self) -> (h: usize)
        requires
            old(self).wf(),
            old(self).nodes@.len() < usize::MAX,
        ensures
            final(self).wf(),
            h == old(self).nodes@.len(),
            final(self).nodes@.len() == old(self).nodes@.len() + 1,
            forall|j: int|
                0 <= j < old(self).nodes@.len() ==> final(self).nodes@[j] == old(self).nodes@[j],
            final(self).nodes@[h as int].position == Vec3::zero_s(),
            final(self).nodes@[h as int].rotation == Vec3::zero_s(),
            final(self).nodes@[h as int].reference_point == Vec3::zero_s(),
            final(self).nodes@[h as int].vao_id == 0,
            final(self).nodes@[h as int].index_count == 0,
            final(self).nodes@[h as int].children@.len() == 0,
            !final(self).has_parent(h as int),
    {
        self.create_drawable_node(0, 0)
    }

    /// Allocates a node bound to the drawable `(vao_id, index_count)`.
    /// An index count of zero marks the node as non-drawable even though
    /// a handle is present.
    pub fn create_drawable_node(&mut self, vao_id: u32, index_count: i32) -> (h: usize)
        requires
            old(self).wf(),
            old(self).nodes@.len() < usize::MAX,
            index_count >= 0,
        ensures
            final(self).wf(),
            h == old(self).nodes@.len(),
            final(self).nodes@.len() == old(self).nodes@.len() + 1,
            forall|j: int|
                0 <= j < old(self).nodes@.len() ==> final(self).nodes@[j] == old(self).nodes@[j],
            final(self).nodes@[h as int].position == Vec3::zero_s(),
            final(self).nodes@[h as int].rotation == Vec3::zero_s(),
            final(self).nodes@[h as int].reference_point == Vec3::zero_s(),
            final(self).nodes@[h as int].vao_id == vao_id,
            final(self).nodes@[h as int].index_count == index_count,
            final(self).nodes@[h as int].children@.len() == 0,
            !final(self).has_parent(h as int),
    {
        let h = self.nodes.len();
        self.nodes.push(
            Node {
                position: Vec3::zero(),
                rotation: Vec3::zero(),
                reference_point: Vec3::zero(),
                vao_id,
                index_count,
                children: Vec::new(),
            },
        );
        proof {
            assert forall|p: int, i: int| self.valid_slot(p, i) implies p < #[trigger] self.child_of(
                p,
                i,
            ) < self.nodes@.len() by {
                assert(old(self).valid_slot(p, i));
                assert(old(self).child_of(p, i) == self.child_of(p, i));
            }
            assert forall|p1: int, i1: int, p2: int, i2: int|
                self.valid_slot(p1, i1) && self.valid_slot(p2, i2) && #[trigger] self.child_of(
                    p1,
                    i1,
                ) == #[trigger] self.child_of(p2, i2) implies p1 == p2 && i1 == i2 by {
                assert(old(self).valid_slot(p1, i1));
                assert(old(self).valid_slot(p2, i2));
                assert(old(self).child_of(p1, i1) == self.child_of(p1, i1));
                assert(old(self).child_of(p2, i2) == self.child_of(p2, i2));
            }
            assert(!self.has_parent(h as int)) by {
                if self.has_parent(h as int) {
                    let (p, i) = choose|p: int, i: int|
                        self.valid_slot(p, i) && self.child_of(p, i) == h as int;
                    assert(old(self).valid_slot(p, i));
                    assert(old(self).child_of(p, i) == self.child_of(p, i));
                }
            }
        }
        h
    }

    /// Appends `child` to `parent`'s ordered children list. The child
    /// must have been created after the parent and must not already be
    /// attached anywhere; this keeps the arena a forest.
    pub fn add_child(&mut self, parent: usize, child: usize)
        requires
            old(self).wf(),
            parent < old(self).nodes@.len(),
            child < old(self).nodes@.len(),
            parent < child,
            !old(self).has_parent(child as int),
        ensures
            final(self).wf(),
            final(self).nodes@.len() == old(self).nodes@.len(),
            forall|j: int|
                0 <= j < final(self).nodes@.len() && j != parent ==> final(self).nodes@[j] == old(
                    self,
                ).nodes@[j],
            final(self).nodes@[parent as int].children@ == old(
                self,
            ).nodes@[parent as int].children@.push(child),
            final(self).nodes@[parent as int].position == old(self).nodes@[parent as int].position,
            final(self).nodes@[parent as int].rotation == old(self).nodes@[parent as int].rotation,
            final(self).nodes@[parent as int].reference_point == old(
                self,
            ).nodes@[parent as int].reference_point,
            final(self).nodes@[parent as int].vao_id == old(self).nodes@[parent as int].vao_id,
            final(self).nodes@[parent as int].index_count == old(
                self,
            ).nodes@[parent as int].index_count,
    {
        self.nodes[parent].children.push(child);
        proof {
            let go = *old(self);
            assert forall|p: int, i: int| self.valid_slot(p, i) implies p < #[trigger] self.child_of(
                p,
                i,
            ) < self.nodes@.len() by {
                if p == parent as int && i == go.nodes@[p].children@.len() {
                    assert(self.child_of(p, i) == child as int);
                } else {
                    assert(go.valid_slot(p, i));
                    assert(go.child_of(p, i) == self.child_of(p, i));
                }
            }
            assert forall|p1: int, i1: int, p2: int, i2: int|
                self.valid_slot(p1, i1) && self.valid_slot(p2, i2) && #[trigger] self.child_of(
                    p1,
                    i1,
                ) == #[trigger] self.child_of(p2, i2) implies p1 == p2 && i1 == i2 by {
                let new_slot = go.nodes@[parent as int].children@.len();
                let fresh1 = p1 == parent as int && i1 == new_slot;
                let fresh2 = p2 == parent as int && i2 == new_slot;
                if fresh1 && fresh2 {
                } else if fresh1 {
                    assert(go.valid_slot(p2, i2));
                    assert(go.child_of(p2, i2) == self.child_of(p2, i2));
                    assert(go.child_of(p2, i2) == child as int);
                    assert(false);
                } else if fresh2 {
                    assert(go.valid_slot(p1, i1));
                    assert(go.child_of(p1, i1) == self.child_of(p1, i1));
                    assert(go.child_of(p1, i1) == child as int);
                    assert(false);
                } else {
                    assert(go.valid_slot(p1, i1));
                    assert(go.valid_slot(p2, i2));
                    assert(go.child_of(p1, i1) == self.child_of(p1, i1));
                    assert(go.child_of(p2, i2) == self.child_of(p2, i2));
                }
            }
        }
    }

    /// Overwrites the parent-relative translation of node `h`.
    pub fn set_position(&mut self, h: usize, v: Vec3)
        requires
            old(self).wf(),
            h < old(self).nodes@.len(),
        ensures
            final(self).wf(),
            final(self).nodes@.len() == old(self).nodes@.len(),
            forall|j: int|
                0 <= j < final(self).nodes@.len() && j != h ==> final(self).nodes@[j] == old(
                    self,
                ).nodes@[j],
            final(self).nodes@[h as int].position == v,
            final(self).nodes@[h as int].rotation == old(self).nodes@[h as int].rotation,
            final(self).nodes@[h as int].reference_point == old(
                self,
            ).nodes@[h as int].reference_point,
            final(self).nodes@[h as int].vao_id == old(self).nodes@[h as int].vao_id,
            final(self).nodes@[h as int].index_count == old(self).nodes@[h as int].index_count,
            final(self).nodes@[h as int].children@ == old(self).nodes@[h as int].children@,
    {
        self.nodes[h].position = v;
        proof {
            lemma_wf_same_children(*old(self), *self);
        }
    }

    /// Overwrites the local Euler angles of node `h`.
    pub fn set_rotation(&mut self, h: usize, v: Vec3)
        requires
            old(self).wf(),
            h < old(self).nodes@.len(),
        ensures
            final(self).wf(),
            final(self).nodes@.len() == old(self).nodes@.len(),
            forall|j: int|
                0 <= j < final(self).nodes@.len() && j != h ==> final(self).nodes@[j] == old(
                    self,
                ).nodes@[j],
            final(self).nodes@[h as int].rotation == v,
            final(self).nodes@[h as int].position == old(self).nodes@[h as int].position,
            final(self).nodes@[h as int].reference_point == old(
                self,
            ).nodes@[h as int].reference_point,
            final(self).nodes@[h as int].vao_id == old(self).nodes@[h as int].vao_id,
            final(self).nodes@[h as int].index_count == old(self).nodes@[h as int].index_count,
            final(self).nodes@[h as int].children@ == old(self).nodes@[h as int].children@,
    {
        self.nodes[h].rotation = v;
        proof {
            lemma_wf_same_children(*old(self), *self);
        }
    }

    /// Overwrites the pivot point of node `h`.
    pub fn set_reference_point(&mut self, h: usize, v: Vec3)
        requires
            old(self).wf(),
            h < old(self).nodes@.len(),
        ensures
            final(self).wf(),
            final(self).nodes@.len() == old(self).nodes@.len(),
            forall|j: int|
                0 <= j < final(self).nodes@.len() && j != h ==> final(self).nodes@[j] == old(
                    self,
                ).nodes@[j],
            final(self).nodes@[h as int].reference_point == v,
            final(self).nodes@[h as int].position == old(self).nodes@[h as int].position,
            final(self).nodes@[h as int].rotation == old(self).nodes@[h as int].rotation,
            final(self).nodes@[h as int].vao_id == old(self).nodes@[h as int].vao_id,
            final(self).nodes@[h as int].index_count == old(self).nodes@[h as int].index_count,
            final(self).nodes@[h as int].children@ == old(self).nodes@[h as int].children@,
    {
        self.nodes[h].reference_point = v;
        proof {
            lemma_wf_same_children(*old(self), *self);
        }
    }

    /// Returns the handle of the child at `index` in insertion order, or
    /// `IndexOutOfRange` exactly when `index` is negative or at least the
    /// number of children.
    pub fn get_child(&self, node: usize, index: i64) -> (r: Result<usize, SceneError>)
        requires
            node < self.nodes@.len(),
        ensures
            0 <= index < self.nodes@[node as int].children@.len() ==> r == Ok::<usize, SceneError>(
                self.nodes@[node as int].children@[index as int],
            ),
            !(0 <= index < self.nodes@[node as int].children@.len()) ==> r == Err::<
                usize,
                SceneError,
            >(SceneError::IndexOutOfRange),
    {
        let k = self.nodes[node].children.len();
        if index < 0 {
            return Err(SceneError::IndexOutOfRange);
        }
        let iu: u64 = index as u64;
        if iu >= k as u64 {
            Err(SceneError::IndexOutOfRange)
        } else {
            Ok(self.nodes[node].children[iu as usize])
        }
    }
}

/// Well-formedness depends only on the children lists: a graph whose
/// nodes carry the same children as a well-formed one is well-formed.
pub proof fn lemma_wf_same_children(a: SceneGraph, b: SceneGraph)
    requires
        a.wf(),
        b.nodes@.len() == a.nodes@.len(),
        forall|j: int|
            0 <= j < a.nodes@.len() ==> #[trigger] b.nodes@[j].children@ == a.nodes@[j].children@,
    ensures
        b.wf(),
{
    assert forall|p: int, i: int| b.valid_slot(p, i) implies p < #[trigger] b.child_of(p, i)
        < b.nodes@.len() by {
        assert(a.valid_slot(p, i));
        assert(a.child_of(p, i) == b.child_of(p, i));
    }
    assert forall|p1: int, i1: int, p2: int, i2: int|
        b.valid_slot(p1, i1) && b.valid_slot(p2, i2) && #[trigger] b.child_of(p1, i1)
            == #[trigger] b.child_of(p2, i2) implies p1 == p2 && i1 == i2 by {
        assert(a.valid_slot(p1, i1));
        assert(a.valid_slot(p2, i2));
        assert(a.child_of(p1, i1) == b.child_of(p1, i1));
        assert(a.child_of(p2, i2) == b.child_of(p2, i2));
    }
}

/// The combined local rotation `Rx * Ry * Rz` of a node's Euler angles.
pub open spec fn rotation_part_s(rot: Vec3) -> Mat4 {
    mat_mul_s(rotation_x_s(rot.x), mat_mul_s(rotation_y_s(rot.y), rotation_z_s(rot.z)))
}

/// The node's local transform
/// `T(reference_point) * T(position) * Rx * Ry * Rz * T(-reference_point)`:
/// the pivot is moved to the local origin, the rotation applied there,
/// then translation, then the pivot restored.
#[verifier::opaque]
pub open spec fn local_transform_s(n: Node) -> Mat4 {
    mat_mul_s(
        translation_s(n.reference_point),
        mat_mul_s(
            translation_s(n.position),
            mat_mul_s(
                rotation_x_s(n.rotation.x),
                mat_mul_s(
                    rotation_y_s(n.rotation.y),
                    mat_mul_s(
                        rotation_z_s(n.rotation.z),
                        translation_s(n.reference_point.neg_s()),
                    ),
                ),
            ),
        ),
    )
}

/// The node's world transform under an accumulated parent transform.
pub open spec fn world_transform_s(n: Node, parent: Mat4) -> Mat4 {
    mat_mul_s(parent, local_transform_s(n))
}

/// Computes `parent * T(reference_point) * T(position) * Rx * Ry * Rz *
/// T(-reference_point)` exactly as `world_transform_s` states it.
pub fn compute_world_transform(n: &Node, parent: &Mat4) -> (r: Mat4)
    ensures
        r == world_transform_s(*n, *parent),
{
    proof {
        reveal(local_transform_s);
    }
    let rz = mat_mul(&rotation_z(n.rotation.z), &translation(n.reference_point.neg()));
    let ry = mat_mul(&rotation_y(n.rotation.y), &rz);
    let rx = mat_mul(&rotation_x(n.rotation.x), &ry);
    let tp = mat_mul(&translation(n.position), &rx);
    let local = mat_mul(&translation(n.reference_point), &tp);
    mat_mul(parent, &local)
}

/// With a zero pivot the pivot terms vanish exactly: the world transform
/// reduces to `parent * T(position) * Rx * Ry * Rz`.
pub proof fn lemma_world_transform_zero_pivot(n: Node, parent: Mat4)
    requires
        n.reference_point == Vec3::zero_s(),
    ensures
        world_transform_s(n, parent) == mat_mul_s(
            parent,
            mat_mul_s(translation_s(n.position), rotation_part_s(n.rotation)),
        ),
{
    reveal(local_transform_s);
    assert(n.reference_point.neg_s() == Vec3::zero_s());
    crate::mat4::lemma_translation_zero_identity();
    let rz = rotation_z_s(n.rotation.z);
    lemma_mat_mul_identity_right(rz);
    let ryz = mat_mul_s(rotation_y_s(n.rotation.y), rz);
    let rxyz = mat_mul_s(rotation_x_s(n.rotation.x), ryz);
    let tp = mat_mul_s(translation_s(n.position), rxyz);
    lemma_mat_mul_identity_left(tp);
}

/// A node with zero position, zero rotation and zero pivot under an
/// identity parent transform has exactly the identity world transform.
pub proof fn lemma_identity_pose_world_identity(n: Node)
    requires
        n.position == Vec3::zero_s(),
        n.rotation == Vec3::zero_s(),
        n.reference_point == Vec3::zero_s(),
    ensures
        world_transform_s(n, identity_s()) == identity_s(),
{
    lemma_world_transform_zero_pivot(n, identity_s());
    crate::mat4::lemma_translation_zero_identity();
    crate::mat4::lemma_rotation_zero_identity();
    lemma_mat_mul_identity_left(rotation_z_s(0));
    assert(rotation_part_s(n.rotation) == mat_mul_s(identity_s(), identity_s()));
    lemma_mat_mul_identity_left(identity_s());
    assert(rotation_part_s(n.rotation) == identity_s());
    lemma_mat_mul_identity_left(rotation_part_s(n.rotation));
    assert(mat_mul_s(translation_s(n.position), rotation_part_s(n.rotation)) == identity_s());
}

} // verus!
