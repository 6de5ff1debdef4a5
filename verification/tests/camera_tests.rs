use scene_engine::camera::{Camera, CameraController, Key, Projection, PITCH_LIMIT};
use scene_engine::mat::Vec3;
use scene_engine::{FX_LIM, SCALE};

fn camera_at_origin() -> Camera {
    Camera::new(Vec3 { x: 0, y: 0, z: 0 }, 0, 0)
}

fn controller() -> CameraController {
    // speed 4.0, sensitivity 0.4, as the engine starts with
    CameraController::new(4_000_000, 400_000)
}

#[test]
fn keyboard_mapping_covers_the_six_movement_keys() {
    let mut c = controller();
    assert!(c.process_keyboard(Key::KeyW, true));
    assert_eq!(c.amount_forward, SCALE);
    assert!(c.process_keyboard(Key::KeyS, true));
    assert_eq!(c.amount_forward, -SCALE);
    assert!(c.process_keyboard(Key::KeyD, true));
    assert_eq!(c.amount_right, SCALE);
    assert!(c.process_keyboard(Key::KeyA, true));
    assert_eq!(c.amount_right, -SCALE);
    assert!(c.process_keyboard(Key::Space, true));
    assert_eq!(c.amount_up, SCALE);
    assert!(c.process_keyboard(Key::ShiftLeft, true));
    assert_eq!(c.amount_up, -SCALE);
    // releasing a key zeroes its axis
    assert!(c.process_keyboard(Key::KeyS, false));
    assert_eq!(c.amount_forward, 0);
    // an unrecognized key changes nothing and is reported unhandled
    let before = c;
    assert!(!c.process_keyboard(Key::Other, true));
    assert_eq!(c, before);
}

#[test]
fn mouse_deltas_overwrite_rather_than_accumulate() {
    let mut c = controller();
    c.process_mouse(10, 20);
    c.process_mouse(3, -4);
    assert_eq!(c.rotate_horizontal, 3);
    assert_eq!(c.rotate_vertical, -4);
}

#[test]
fn forward_movement_follows_the_yaw() {
    // yaw 0: forward is +x; one second at speed 4 moves 4 units
    let mut cam = camera_at_origin();
    let mut c = controller();
    assert!(c.process_keyboard(Key::KeyW, true));
    c.update_camera(&mut cam, SCALE);
    assert_eq!(cam.position.x, 4_000_000);
    assert_eq!(cam.position.y, 0);
    assert_eq!(cam.position.z, 0);
}

#[test]
fn strafe_movement_is_orthogonal_to_forward() {
    // yaw 0: right is +z
    let mut cam = camera_at_origin();
    let mut c = controller();
    assert!(c.process_keyboard(Key::KeyD, true));
    c.update_camera(&mut cam, SCALE);
    assert_eq!(cam.position.x, 0);
    assert_eq!(cam.position.z, 4_000_000);
}

#[test]
fn vertical_movement_ignores_the_yaw() {
    let mut cam = Camera::new(Vec3 { x: 0, y: 0, z: 0 }, 123_000_000, 0);
    let mut c = controller();
    assert!(c.process_keyboard(Key::Space, true));
    c.update_camera(&mut cam, SCALE);
    assert_eq!(cam.position.y, 4_000_000);
}

#[test]
fn update_consumes_the_mouse_deltas() {
    let mut cam = camera_at_origin();
    let mut c = controller();
    c.process_mouse(500, 300);
    c.update_camera(&mut cam, SCALE);
    assert_eq!(c.rotate_horizontal, 0);
    assert_eq!(c.rotate_vertical, 0);
}

#[test]
fn large_downward_delta_pins_pitch_exactly_at_the_negative_bound() {
    // a large positive vertical delta drives the pitch to exactly the
    // clamp bound and never beyond, however often it is applied
    let mut cam = camera_at_origin();
    let mut c = controller();
    for _ in 0..3 {
        c.process_mouse(0, 1_000_000_000);
        c.update_camera(&mut cam, SCALE);
        assert_eq!(cam.pitch, -PITCH_LIMIT);
    }
}

#[test]
fn large_upward_delta_pins_pitch_exactly_at_the_positive_bound() {
    let mut cam = camera_at_origin();
    let mut c = controller();
    for _ in 0..3 {
        c.process_mouse(0, -1_000_000_000);
        c.update_camera(&mut cam, SCALE);
        assert_eq!(cam.pitch, PITCH_LIMIT);
    }
}

#[test]
fn small_deltas_never_carry_pitch_past_the_bound() {
    let mut cam = camera_at_origin();
    let mut c = controller();
    for _ in 0..200 {
        c.process_mouse(0, 3_000_000);
        c.update_camera(&mut cam, SCALE);
        assert!(cam.pitch >= -PITCH_LIMIT);
        assert!(cam.pitch <= PITCH_LIMIT);
    }
    assert_eq!(cam.pitch, -PITCH_LIMIT);
}

#[test]
fn camera_construction_wraps_yaw_and_clamps_pitch() {
    let cam = Camera::new(Vec3 { x: 0, y: 0, z: 0 }, -90_000_000, -FX_LIM);
    assert_eq!(cam.yaw, 270_000_000);
    assert_eq!(cam.pitch, -PITCH_LIMIT);
}

#[test]
fn view_matrix_at_rest_is_axis_aligned() {
    // yaw 0, pitch 0: right is -z, up is +y, forward is +x
    let cam = camera_at_origin();
    let m = cam.calculate_matrix();
    assert_eq!(m.m00, 0);
    assert_eq!(m.m02, SCALE);
    assert_eq!(m.m11, SCALE);
    assert_eq!(m.m20, -SCALE);
    assert_eq!(m.m22, 0);
    assert_eq!(m.m33, SCALE);
}

#[test]
fn view_matrix_translation_tracks_the_position() {
    let cam = Camera::new(Vec3 { x: 2_000_000, y: 0, z: 0 }, 0, 0);
    let m = cam.calculate_matrix();
    // the forward row dots the position: eye at +2x looking along +x
    assert_eq!(m.m23, 2_000_000);
}

#[test]
fn projection_resize_changes_only_the_aspect() {
    let mut p = Projection::new(800, 600, 45_000_000, 100_000, 100_000_000);
    let before = p;
    p.resize(400, 100);
    assert_eq!(p.aspect, 4_000_000);
    assert_eq!(p.fovy, before.fovy);
    assert_eq!(p.znear, before.znear);
    assert_eq!(p.zfar, before.zfar);
}

#[test]
fn right_angle_field_of_view_gives_unit_focal_length() {
    // fovy 90: cot(45) is exactly one in the half-turn approximation
    let p = Projection::new(100, 100, 90_000_000, 100_000, 100_000_000);
    let m = p.calculate_matrix();
    assert_eq!(m.m11, SCALE);
    assert_eq!(m.m00, SCALE);
    assert_eq!(m.m32, -SCALE);
    assert_eq!(m.m33, 0);
}
