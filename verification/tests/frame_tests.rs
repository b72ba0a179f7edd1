//! The frame loop's camera integration, the view-projection
//! composition, and the resize state machine.

use gloom_scene::camera::{
    Camera, CameraKey, key_step, compose_view_projection, STRAFE_RATE, ADVANCE_RATE, LOOK_RATE,
    NEAR_PLANE, FAR_PLANE,
};
use gloom_scene::fixed::FX_ONE;
use gloom_scene::mat4::{translation, rotation_x, rotation_y, mat_mul, perspective};
use gloom_scene::trig::FX_HALF_PI;
use gloom_scene::vec3::Vec3;
use gloom_scene::window::{WindowState, aspect_ratio};

#[test]
fn held_keys_move_by_rate_times_frame_time() {
    let dt: i64 = 100_000;
    let cam = Camera::start();
    let keys = vec![CameraKey::Advance];
    let c = cam.step(&keys, dt);
    assert_eq!(c.position, Vec3::new(0, 0, 2_000_000));
    assert_eq!(c.pitch, 0);
    assert_eq!(c.yaw, 0);
}

#[test]
fn no_held_keys_leave_the_pose_unchanged() {
    let cam = Camera {
        position: Vec3::new(5, 6, 7),
        pitch: 8,
        yaw: 9,
    };
    let keys: Vec<CameraKey> = Vec::new();
    assert_eq!(cam.step(&keys, 123_456), cam);
}

#[test]
fn every_key_moves_its_own_axis() {
    let dt: i64 = 1_000_000;
    let cam = Camera::start();
    assert_eq!(key_step(cam, CameraKey::StrafeLeft, dt).position.x, STRAFE_RATE);
    assert_eq!(key_step(cam, CameraKey::StrafeRight, dt).position.x, -STRAFE_RATE);
    assert_eq!(key_step(cam, CameraKey::Rise, dt).position.y, STRAFE_RATE);
    assert_eq!(key_step(cam, CameraKey::Descend, dt).position.y, -STRAFE_RATE);
    assert_eq!(key_step(cam, CameraKey::Advance, dt).position.z, ADVANCE_RATE);
    assert_eq!(key_step(cam, CameraKey::Retreat, dt).position.z, -ADVANCE_RATE);
    assert_eq!(key_step(cam, CameraKey::LookRight, dt).yaw, LOOK_RATE);
    assert_eq!(key_step(cam, CameraKey::LookLeft, dt).yaw, -LOOK_RATE);
    assert_eq!(key_step(cam, CameraKey::LookDown, dt).pitch, LOOK_RATE);
    assert_eq!(key_step(cam, CameraKey::LookUp, dt).pitch, -LOOK_RATE);
}

#[test]
fn keys_accumulate_over_a_frame_in_order() {
    let dt: i64 = 500_000;
    let cam = Camera::start();
    let keys = vec![CameraKey::Advance, CameraKey::Advance, CameraKey::LookLeft];
    let c = cam.step(&keys, dt);
    assert_eq!(c.position.z, 2 * 10_000_000);
    assert_eq!(c.yaw, -1_000_000);
}

#[test]
fn perspective_has_the_projection_shape() {
    let p = perspective(FX_ONE, FX_HALF_PI, NEAR_PLANE, FAR_PLANE);
    assert_eq!(p.m00, 999_995);
    assert_eq!(p.m11, 999_995);
    assert_eq!(p.m22, -1_002_002);
    assert_eq!(p.m23, -2_002_002);
    assert_eq!(p.m32, -1_000_000);
    assert_eq!(p.m33, 0);
    assert_eq!(p.m01, 0);
    assert_eq!(p.m10, 0);
}

#[test]
fn view_projection_composes_the_documented_product() {
    let cam = Camera {
        position: Vec3::new(1_000_000, -2_000_000, 500_000),
        pitch: 300_000,
        yaw: -700_000,
    };
    let got = compose_view_projection(&cam, FX_ONE);
    let proj = perspective(FX_ONE, FX_HALF_PI, NEAR_PLANE, FAR_PLANE);
    let trans = mat_mul(
        &translation(Vec3::new(0, 0, -1_500_000)),
        &translation(cam.position),
    );
    let look = mat_mul(&rotation_x(cam.pitch), &rotation_y(cam.yaw));
    let expected = mat_mul(&mat_mul(&proj, &trans), &look);
    assert_eq!(got, expected);
}

#[test]
fn aspect_ratio_is_width_over_height_in_millionths() {
    assert_eq!(aspect_ratio(800, 600), 1_333_333);
    assert_eq!(aspect_ratio(1024, 768), 1_333_333);
    assert_eq!(aspect_ratio(1920, 1080), 1_777_777);
    assert_eq!(aspect_ratio(600, 800), 750_000);
}

#[test]
fn resize_updates_the_aspect_ratio_once() {
    let mut w = WindowState::new(800, 600);
    assert_eq!(w.aspect, 1_333_333);
    assert!(!w.pending);
    w.request_resize(1920, 1080);
    assert!(w.pending);
    assert_eq!(w.aspect, 1_333_333);
    let applied = w.apply_resize();
    assert_eq!(applied, Some((1920, 1080)));
    assert_eq!(w.aspect, 1_777_777);
    assert!(!w.pending);
}

#[test]
fn repeated_apply_without_a_new_request_does_nothing() {
    let mut w = WindowState::new(800, 600);
    w.request_resize(1024, 768);
    assert_eq!(w.apply_resize(), Some((1024, 768)));
    assert_eq!(w.aspect, 1_333_333);
    assert_eq!(w.apply_resize(), None);
    assert_eq!(w.apply_resize(), None);
    assert_eq!(w.width, 1024);
    assert_eq!(w.height, 768);
    assert_eq!(w.aspect, 1_333_333);
}
