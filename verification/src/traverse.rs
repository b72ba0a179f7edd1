//! Depth-first, pre-order scene traversal.
//!
//! Traversal composes each node's world transform top-down and emits one
//! draw call per node with a positive index count, in traversal order.
//! The draw list is specified by two mutually recursive spec functions
//! over the arena, and the executable traversal produces exactly that
//! list.

use vstd::prelude::*;
use crate::mat4::{Mat4, mat_mul_s, mat_mul};
use crate::scene::{Node, SceneGraph, world_transform_s, compute_world_transform};

verus! {

/// One pending draw call: bind `vao_id`, upload `mvp` (the full
/// model-view-projection product) and `model` (the world transform) to
/// their uniform slots, and draw `index_count` indices.
#[derive(Clone, Copy, PartialEq, Eq, Structural, Debug)]
pub struct DrawCall {
    pub vao_id: u32,
    pub index_count: i32,
    pub mvp: Mat4,
    pub model: Mat4,
}

/// The draw list that visiting node `n` under accumulated transform
/// `acc` produces: the node's own call when it is drawable, then its
/// children's lists in insertion order.
pub open spec fn node_draws_s(g: Seq<Node>, n: int, vp: Mat4, acc: Mat4) -> Seq<DrawCall>
    decreases g.len() - n, 1int, 0int,
    when 0 <= n < g.len()
{
    let w = world_transform_s(g[n], acc);
    let own: Seq<DrawCall> = if g[n].index_count > 0 {
        seq![
            DrawCall {
                vao_id: g[n].vao_id,
                index_count: g[n].index_count,
                mvp: mat_mul_s(vp, w),
                model: w,
            },
        ]
    } else {
        Seq::empty()
    };
    own + kids_draws_s(g, n, 0, vp, w)
}

/// The concatenated draw lists of the children of `n` from slot `i` on,
/// each visited under the parent's world transform `w`.
pub open spec fn kids_draws_s(g: Seq<Node>, n: int, i: int, vp: Mat4, w: Mat4) -> Seq<DrawCall>
    decreases g.len() - n, 0int, g[n].children@.len() - i,
    when 0 <= n < g.len() && 0 <= i
{
    if i >= g[n].children@.len() {
        Seq::empty()
    } else {
        let c = g[n].children@[i] as int;
        let sub: Seq<DrawCall> = if n < c < g.len() {
            node_draws_s(g, c, vp, w)
        } else {
            Seq::empty()
        };
        sub + kids_draws_s(g, n, i + 1, vp, w)
    }
}

/// Recursively computes each node's world transform and appends to `out`
/// one draw call per drawable node, with uniforms `vp * world` and
/// `world`, in depth-first pre-order.
#[verifier::rlimit(100)]
pub fn traverse_and_draw(g: &SceneGraph, n: usize, vp: &Mat4, acc: &Mat4, out: &mut Vec<DrawCall>)
    requires
        g.wf(),
        n < g.nodes@.len(),
    ensures
        final(out)@ == old(out)@ + node_draws_s(g.nodes@, n as int, *vp, *acc),
    decreases g.nodes@.len() - n,
{
    let node = &g.nodes[n];
    let w = compute_world_transform(node, acc);
    if node.index_count > 0 {
        let mvp = mat_mul(vp, &w);
        out.push(
            DrawCall { vao_id: node.vao_id, index_count: node.index_count, mvp, model: w },
        );
    }
    let ghost entered = out@;
    proof {
        assert(entered + kids_draws_s(g.nodes@, n as int, 0, *vp, w) =~= old(out)@ + node_draws_s(
            g.nodes@,
            n as int,
            *vp,
            *acc,
        ));
    }
    let num = node.children.len();
    let mut i: usize = 0;
    while i < num
        invariant
            g.wf(),
            n < g.nodes@.len(),
            num == g.nodes@[n as int].children@.len(),
            i <= num,
            w == world_transform_s(g.nodes@[n as int], *acc),
            out@ + kids_draws_s(g.nodes@, n as int, i as int, *vp, w) == old(out)@ + node_draws_s(
                g.nodes@,
                n as int,
                *vp,
                *acc,
            ),
        decreases num - i,
    {
        let ghost before = out@;
        let c = g.nodes[n].children[i];
        proof {
            assert(g.valid_slot(n as int, i as int));
            assert((n as int) < g.child_of(n as int, i as int) < g.nodes@.len());
            assert(g.child_of(n as int, i as int) == c as int);
        }
        traverse_and_draw(g, c, vp, &w, out);
        proof {
            let gs = g.nodes@;
            let sub = node_draws_s(gs, c as int, *vp, w);
            assert(kids_draws_s(gs, n as int, i as int, *vp, w) == sub + kids_draws_s(
                gs,
                n as int,
                i as int + 1,
                *vp,
                w,
            ));
            assert(out@ + kids_draws_s(gs, n as int, i as int + 1, *vp, w) =~= before + (sub
                + kids_draws_s(gs, n as int, i as int + 1, *vp, w)));
        }
        i += 1;
    }
    proof {
        assert(kids_draws_s(g.nodes@, n as int, num as int, *vp, w) == Seq::<DrawCall>::empty());
        assert(out@ + Seq::<DrawCall>::empty() =~= out@);
    }
}

/// A drawable node's list opens with its own call, carrying its buffer
/// handle, its index count, and the two uniform matrices.
pub proof fn lemma_drawable_node_draws_itself(g: Seq<Node>, n: int, vp: Mat4, acc: Mat4)
    requires
        0 <= n < g.len(),
        g[n].index_count > 0,
    ensures
        node_draws_s(g, n, vp, acc).len() >= 1,
        node_draws_s(g, n, vp, acc)[0] == (DrawCall {
            vao_id: g[n].vao_id,
            index_count: g[n].index_count,
            mvp: mat_mul_s(vp, world_transform_s(g[n], acc)),
            model: world_transform_s(g[n], acc),
        }),
{
}

/// A node with no indices issues no draw call of its own: its draw list
/// is exactly the concatenation of its children's, so traversal still
/// recurses into them.
pub proof fn lemma_no_draw_without_indices(g: Seq<Node>, n: int, vp: Mat4, acc: Mat4)
    requires
        0 <= n < g.len(),
        g[n].index_count <= 0,
    ensures
        node_draws_s(g, n, vp, acc) == kids_draws_s(g, n, 0, vp, world_transform_s(g[n], acc)),
{
    let w = world_transform_s(g[n], acc);
    assert(node_draws_s(g, n, vp, acc) =~= kids_draws_s(g, n, 0, vp, w));
}

} // verus!
