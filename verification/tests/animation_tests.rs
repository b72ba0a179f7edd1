//! The animation driver: determinism of the flight path, exact rotor
//! angles, the phase-shifted fleet, and the two-level helicopter scene.

use gloom_scene::animation::{
    heading, instance_time, rotor_angle, animate_instance, animate_fleet, ROTOR_RATE,
    INSTANCE_PHASE,
};
use gloom_scene::scene::SceneGraph;
use gloom_scene::trig::{FX_PI, FX_HALF_PI};
use gloom_scene::vec3::Vec3;

/// Builds root -> terrain -> body -> {door, main rotor, tail rotor} and
/// returns (graph, terrain, body).
fn helicopter_scene() -> (SceneGraph, usize, usize) {
    let mut g = SceneGraph::new();
    let root = g.create_node();
    let terrain = g.create_drawable_node(1, 300);
    let body = g.create_drawable_node(2, 120);
    let door = g.create_drawable_node(3, 30);
    let main_rotor = g.create_drawable_node(4, 60);
    let tail_rotor = g.create_drawable_node(5, 24);
    g.set_reference_point(tail_rotor, Vec3::new(350_000, 2_300_000, 10_400_000));
    g.add_child(root, terrain);
    g.add_child(terrain, body);
    g.add_child(body, door);
    g.add_child(body, main_rotor);
    g.add_child(body, tail_rotor);
    (g, terrain, body)
}

#[test]
fn heading_is_deterministic_bitwise() {
    for t in [0i64, 1, 1_000_000, -2_500_000, 123_456_789] {
        let a = heading(t);
        let b = heading(t);
        assert_eq!(a.x, b.x);
        assert_eq!(a.z, b.z);
        assert_eq!(a.pitch, b.pitch);
        assert_eq!(a.yaw, b.yaw);
        assert_eq!(a.roll, b.roll);
    }
}

#[test]
fn heading_at_one_second_has_the_expected_pose() {
    let h = heading(1_000_000);
    assert_eq!(h.x, 14_991_615);
    assert_eq!(h.z, 31_351_590);
    assert_eq!(h.pitch, -230_753);
    assert_eq!(h.yaw, 63_626);
    assert_eq!(h.roll, 348_351);
}

#[test]
fn instance_times_are_spaced_by_the_phase() {
    assert_eq!(instance_time(1_000_000, 0), 1_000_000);
    assert_eq!(instance_time(1_000_000, 1), 1_950_000);
    assert_eq!(instance_time(1_000_000, 4), 1_000_000 + 4 * INSTANCE_PHASE);
}

#[test]
fn rotor_angle_grows_without_wrapping() {
    assert_eq!(rotor_angle(ROTOR_RATE, 10_000_000), 20_000_000);
    assert_eq!(rotor_angle(ROTOR_RATE, 100_000_000_000), 200_000_000_000);
}

#[test]
fn main_rotor_at_half_pi_turns_exactly_pi() {
    let (mut g, _terrain, body) = helicopter_scene();
    animate_instance(&mut g, body, 0, FX_HALF_PI);
    let main_rotor = g.nodes[body].children[1];
    let tail_rotor = g.nodes[body].children[2];
    assert_eq!(rotor_angle(ROTOR_RATE, FX_HALF_PI), FX_PI);
    assert_eq!(g.nodes[main_rotor].rotation.y, FX_PI);
    assert_eq!(g.nodes[tail_rotor].rotation.x, FX_PI);
}

#[test]
fn animate_writes_the_heading_into_the_body() {
    let (mut g, _terrain, body) = helicopter_scene();
    animate_instance(&mut g, body, 0, 1_000_000);
    let h = heading(1_000_000);
    assert_eq!(g.nodes[body].position, Vec3::new(h.x, 0, h.z));
    assert_eq!(g.nodes[body].rotation, Vec3::new(h.pitch, h.yaw, h.roll));
}

#[test]
fn animate_leaves_the_pivot_and_other_nodes_alone() {
    let (mut g, terrain, body) = helicopter_scene();
    let tail_rotor = g.nodes[body].children[2];
    animate_instance(&mut g, body, 0, 1_000_000);
    assert_eq!(
        g.nodes[tail_rotor].reference_point,
        Vec3::new(350_000, 2_300_000, 10_400_000)
    );
    assert_eq!(g.nodes[terrain].position, Vec3::new(0, 0, 0));
    assert_eq!(g.nodes[terrain].rotation, Vec3::new(0, 0, 0));
}

#[test]
fn five_instances_have_five_distinct_positions() {
    let t: i64 = 1_000_000;
    let mut positions: Vec<(i64, i64)> = Vec::new();
    for k in 0..5i64 {
        let h = heading(instance_time(t, k));
        positions.push((h.x, h.z));
    }
    for a in 0..5 {
        for b in (a + 1)..5 {
            assert_ne!(positions[a], positions[b]);
        }
    }
}

#[test]
fn a_fleet_of_five_is_posed_instance_by_instance() {
    let mut g = SceneGraph::new();
    let root = g.create_node();
    let terrain = g.create_drawable_node(1, 300);
    g.add_child(root, terrain);
    let mut bodies: Vec<usize> = Vec::new();
    for _ in 0..5 {
        let body = g.create_drawable_node(2, 120);
        let door = g.create_drawable_node(3, 30);
        let main_rotor = g.create_drawable_node(4, 60);
        let tail_rotor = g.create_drawable_node(5, 24);
        g.add_child(terrain, body);
        g.add_child(body, door);
        g.add_child(body, main_rotor);
        g.add_child(body, tail_rotor);
        bodies.push(body);
    }
    let elapsed: i64 = 2_000_000;
    animate_fleet(&mut g, &bodies, elapsed);
    for (k, &body) in bodies.iter().enumerate() {
        let h = heading(instance_time(elapsed, k as i64));
        assert_eq!(g.nodes[body].position, Vec3::new(h.x, 0, h.z));
        assert_eq!(g.nodes[body].rotation, Vec3::new(h.pitch, h.yaw, h.roll));
        let main_rotor = g.nodes[body].children[1];
        assert_eq!(
            g.nodes[main_rotor].rotation.y,
            rotor_angle(ROTOR_RATE, elapsed)
        );
    }
}
