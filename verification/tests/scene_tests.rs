//! The scene graph: construction, child lookup, the transform laws on
//! concrete values, and the draw list of a traversal.

use gloom_scene::fixed::FX_ONE;
use gloom_scene::mat4::{identity, translation, rotation_x, rotation_y, rotation_z, mat_mul};
use gloom_scene::scene::{SceneGraph, SceneError, compute_world_transform};
use gloom_scene::traverse::{traverse_and_draw, DrawCall};
use gloom_scene::vec3::Vec3;

#[test]
fn created_nodes_have_identity_pose() {
    let mut g = SceneGraph::new();
    let root = g.create_node();
    assert_eq!(root, 0);
    assert_eq!(g.nodes[root].position, Vec3::new(0, 0, 0));
    assert_eq!(g.nodes[root].rotation, Vec3::new(0, 0, 0));
    assert_eq!(g.nodes[root].reference_point, Vec3::new(0, 0, 0));
    assert_eq!(g.nodes[root].index_count, 0);
    assert!(g.nodes[root].children.is_empty());
}

#[test]
fn drawable_nodes_keep_their_handle_and_count() {
    let mut g = SceneGraph::new();
    let n = g.create_drawable_node(7, 36);
    assert_eq!(g.nodes[n].vao_id, 7);
    assert_eq!(g.nodes[n].index_count, 36);
}

#[test]
fn children_are_kept_in_insertion_order() {
    let mut g = SceneGraph::new();
    let root = g.create_node();
    let a = g.create_drawable_node(1, 3);
    let b = g.create_drawable_node(2, 3);
    let c = g.create_drawable_node(3, 3);
    g.add_child(root, a);
    g.add_child(root, b);
    g.add_child(root, c);
    assert_eq!(g.nodes[root].children, vec![a, b, c]);
}

#[test]
fn get_child_fails_outside_the_range() {
    let mut g = SceneGraph::new();
    let root = g.create_node();
    let a = g.create_node();
    let b = g.create_node();
    g.add_child(root, a);
    g.add_child(root, b);
    assert_eq!(g.get_child(root, 0), Ok(a));
    assert_eq!(g.get_child(root, 1), Ok(b));
    assert_eq!(g.get_child(root, 2), Err(SceneError::IndexOutOfRange));
    assert_eq!(g.get_child(root, 100), Err(SceneError::IndexOutOfRange));
    assert_eq!(g.get_child(root, -1), Err(SceneError::IndexOutOfRange));
    assert_eq!(g.get_child(root, i64::MIN), Err(SceneError::IndexOutOfRange));
    assert_eq!(g.get_child(a, 0), Err(SceneError::IndexOutOfRange));
}

#[test]
fn identity_pose_gives_the_identity_world_transform() {
    let mut g = SceneGraph::new();
    let n = g.create_node();
    let world = compute_world_transform(&g.nodes[n], &identity());
    assert_eq!(world, identity());
}

#[test]
fn zero_pivot_reduces_to_parent_translation_rotation() {
    let mut g = SceneGraph::new();
    let n = g.create_node();
    g.set_position(n, Vec3::new(1_500_000, 0, -2_000_000));
    g.set_rotation(n, Vec3::new(300_000, 200_000, 100_000));
    let parent = translation(Vec3::new(1_000_000, 2_000_000, 3_000_000));
    let world = compute_world_transform(&g.nodes[n], &parent);
    let rot = mat_mul(&rotation_x(300_000), &mat_mul(&rotation_y(200_000), &rotation_z(100_000)));
    let expected = mat_mul(
        &parent,
        &mat_mul(&translation(Vec3::new(1_500_000, 0, -2_000_000)), &rot),
    );
    assert_eq!(world, expected);
}

#[test]
fn pivot_moves_the_rotation_to_the_reference_point() {
    let mut g = SceneGraph::new();
    let n = g.create_node();
    g.set_rotation(n, Vec3::new(0, 0, FX_ONE));
    g.set_reference_point(n, Vec3::new(350_000, 2_300_000, 10_400_000));
    let world = compute_world_transform(&g.nodes[n], &identity());
    let pivot = Vec3::new(350_000, 2_300_000, 10_400_000);
    let expected = mat_mul(
        &translation(pivot),
        &mat_mul(&rotation_z(FX_ONE), &translation(pivot.neg())),
    );
    assert_eq!(world, expected);
}

#[test]
fn traversal_skips_nodes_without_indices_but_recurses() {
    let mut g = SceneGraph::new();
    let root = g.create_node();
    let grouping = g.create_drawable_node(9, 0);
    let leaf = g.create_drawable_node(4, 12);
    let sibling = g.create_drawable_node(5, 6);
    g.add_child(root, grouping);
    g.add_child(grouping, leaf);
    g.add_child(root, sibling);
    let vp = identity();
    let acc = identity();
    let mut out: Vec<DrawCall> = Vec::new();
    traverse_and_draw(&g, root, &vp, &acc, &mut out);
    let vaos: Vec<u32> = out.iter().map(|d| d.vao_id).collect();
    assert_eq!(vaos, vec![4, 5]);
}

#[test]
fn traversal_is_depth_first_pre_order() {
    let mut g = SceneGraph::new();
    let root = g.create_drawable_node(1, 3);
    let left = g.create_drawable_node(2, 3);
    let left_leaf = g.create_drawable_node(3, 3);
    let right = g.create_drawable_node(4, 3);
    g.add_child(root, left);
    g.add_child(left, left_leaf);
    g.add_child(root, right);
    let vp = identity();
    let acc = identity();
    let mut out: Vec<DrawCall> = Vec::new();
    traverse_and_draw(&g, root, &vp, &acc, &mut out);
    let vaos: Vec<u32> = out.iter().map(|d| d.vao_id).collect();
    assert_eq!(vaos, vec![1, 2, 3, 4]);
}

#[test]
fn traversal_uploads_mvp_and_model_transforms() {
    let mut g = SceneGraph::new();
    let root = g.create_drawable_node(1, 3);
    g.set_position(root, Vec3::new(10_000_000, 0, 0));
    let vp = translation(Vec3::new(0, 0, -1_500_000));
    let acc = identity();
    let mut out: Vec<DrawCall> = Vec::new();
    traverse_and_draw(&g, root, &vp, &acc, &mut out);
    assert_eq!(out.len(), 1);
    let world = compute_world_transform(&g.nodes[root], &acc);
    assert_eq!(out[0].model, world);
    assert_eq!(out[0].mvp, mat_mul(&vp, &world));
    assert_eq!(out[0].index_count, 3);
}
