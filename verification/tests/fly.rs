use orbit_controls::camera::Camera;
use orbit_controls::fly::{
    CameraControls, CameraMovement, MAX_PITCH_BITS, MIN_PITCH_BITS, PITCH_BITS, SENSITIVITY_BITS,
    SPEED_BITS, YAW_BITS,
};
use orbit_controls::scalar::Scalar;
use orbit_controls::vector::{Point3, Vector3};

fn s(x: f32) -> Scalar {
    Scalar::from_bits(x.to_bits())
}

fn f(x: Scalar) -> f32 {
    f32::from_bits(x.to_bits())
}

fn p3(x: f32, y: f32, z: f32) -> Point3 {
    Point3::new(s(x), s(y), s(z))
}

fn v3(x: f32, y: f32, z: f32) -> Vector3 {
    Vector3::new(s(x), s(y), s(z))
}

fn flags(c: &CameraControls) -> (bool, bool, bool, bool) {
    (c.moving_forward, c.moving_backward, c.moving_left, c.moving_right)
}

#[test]
fn fly_patterns_are_the_numbers_they_name() {
    assert_eq!(YAW_BITS, (-90.0f32).to_bits());
    assert_eq!(PITCH_BITS, 0.0f32.to_bits());
    assert_eq!(SPEED_BITS, 2.5f32.to_bits());
    assert_eq!(SENSITIVITY_BITS, 0.1f32.to_bits());
    assert_eq!(MIN_PITCH_BITS, (-89.0f32).to_bits());
    assert_eq!(MAX_PITCH_BITS, 89.0f32.to_bits());
}

#[test]
fn default_looks_down_negative_z_with_no_key_held() {
    let c = CameraControls::default();
    assert_eq!(c.position, p3(0.0, 0.0, 0.0));
    assert_eq!(c.front, v3(0.0, 0.0, -1.0));
    assert_eq!(c.center, None);
    assert_eq!(c.up, Vector3::zero());
    assert_eq!(c.right, Vector3::zero());
    assert_eq!(c.world_up, v3(0.0, 1.0, 0.0));
    assert_eq!(c.yaw, s(-90.0));
    assert_eq!(c.pitch, s(0.0));
    assert_eq!(c.movement_speed, s(2.5));
    assert_eq!(c.mouse_sensitivity, s(0.1));
    assert_eq!(c.camera, Camera::default());
    assert_eq!(flags(&c), (false, false, false, false));
    assert!(c.active_movements().is_empty());
}

#[test]
fn keyboard_sets_the_flag_of_its_direction_only() {
    let mut c = CameraControls::default();
    c.process_keyboard(CameraMovement::FORWARD, true);
    assert_eq!(flags(&c), (true, false, false, false));
    c.process_keyboard(CameraMovement::BACKWARD, true);
    assert_eq!(flags(&c), (true, true, false, false));
    c.process_keyboard(CameraMovement::LEFT, true);
    assert_eq!(flags(&c), (true, true, true, false));
    c.process_keyboard(CameraMovement::RIGHT, true);
    assert_eq!(flags(&c), (true, true, true, true));
    c.process_keyboard(CameraMovement::BACKWARD, false);
    assert_eq!(flags(&c), (true, false, true, true));
    c.process_keyboard(CameraMovement::FORWARD, false);
    c.process_keyboard(CameraMovement::LEFT, false);
    c.process_keyboard(CameraMovement::RIGHT, false);
    assert_eq!(flags(&c), (false, false, false, false));
    assert_eq!(c.yaw, s(-90.0));
    assert_eq!(c.position, p3(0.0, 0.0, 0.0));
}

#[test]
fn active_movements_lists_held_directions_in_order() {
    let mut c = CameraControls::default();
    c.process_keyboard(CameraMovement::RIGHT, true);
    assert_eq!(c.active_movements(), vec![CameraMovement::RIGHT]);
    c.process_keyboard(CameraMovement::FORWARD, true);
    assert_eq!(c.active_movements(), vec![CameraMovement::FORWARD, CameraMovement::RIGHT]);
    c.process_keyboard(CameraMovement::LEFT, true);
    c.process_keyboard(CameraMovement::BACKWARD, true);
    assert_eq!(
        c.active_movements(),
        vec![
            CameraMovement::FORWARD,
            CameraMovement::BACKWARD,
            CameraMovement::LEFT,
            CameraMovement::RIGHT
        ]
    );
    c.process_keyboard(CameraMovement::FORWARD, false);
    assert_eq!(
        c.active_movements(),
        vec![CameraMovement::BACKWARD, CameraMovement::LEFT, CameraMovement::RIGHT]
    );
}

#[test]
fn mouse_movement_sets_yaw_and_pitch() {
    let mut c = CameraControls::default();
    c.process_mouse_movement(s(-80.0), s(12.5), true);
    assert_eq!(c.yaw, s(-80.0));
    assert_eq!(c.pitch, s(12.5));
    c.process_mouse_movement(s(725.0), s(-89.0), true);
    assert_eq!(c.yaw, s(725.0));
    assert_eq!(c.pitch, s(-89.0));
    assert_eq!(c.front, v3(0.0, 0.0, -1.0));
    assert_eq!(flags(&c), (false, false, false, false));
}

#[test]
fn constrained_pitch_stops_at_89_degrees() {
    let mut c = CameraControls::default();
    c.process_mouse_movement(s(0.0), s(89.5), true);
    assert_eq!(c.pitch, s(89.0));
    c.process_mouse_movement(s(0.0), s(1.0e9), true);
    assert_eq!(c.pitch, s(89.0));
    c.process_mouse_movement(s(0.0), s(-89.0001), true);
    assert_eq!(c.pitch, s(-89.0));
    c.process_mouse_movement(s(0.0), s(f32::NEG_INFINITY), true);
    assert_eq!(c.pitch, s(-89.0));
}

#[test]
fn free_pitch_goes_where_it_is_sent() {
    let mut c = CameraControls::default();
    c.process_mouse_movement(s(0.0), s(135.0), false);
    assert_eq!(c.pitch, s(135.0));
    c.process_mouse_movement(s(0.0), s(-400.0), false);
    assert_eq!(c.pitch, s(-400.0));
}

#[test]
fn set_camera_keeps_the_field_of_view() {
    let mut c = CameraControls::default();
    c.camera.fovy = s(60.0);
    c.process_keyboard(CameraMovement::LEFT, true);
    let other = Camera { fovy: s(20.0), perspective: false };
    c.set_camera(&other, p3(1.0, 2.0, 3.0), p3(1.0, 2.0, 2.0));
    assert_eq!(c.camera, Camera { fovy: s(60.0), perspective: false });
    assert_eq!(c.position, p3(1.0, 2.0, 3.0));
    assert_eq!(c.center, Some(p3(1.0, 2.0, 2.0)));
    assert_eq!(c.yaw, s(-90.0));
    assert_eq!(flags(&c), (false, false, true, false));
}

#[test]
fn forward_and_right_together_travel_faster_than_either() {
    let mut c = CameraControls::default();
    c.right = v3(1.0, 0.0, 0.0);
    c.process_keyboard(CameraMovement::FORWARD, true);
    c.process_keyboard(CameraMovement::RIGHT, true);
    let velocity = f(c.movement_speed) * 1.0;
    let (mut x, mut y, mut z) = (f(c.position.x), f(c.position.y), f(c.position.z));
    for movement in c.active_movements() {
        let (axis, sign) = match movement {
            CameraMovement::FORWARD => (c.front, 1.0),
            CameraMovement::BACKWARD => (c.front, -1.0),
            CameraMovement::LEFT => (c.right, -1.0),
            CameraMovement::RIGHT => (c.right, 1.0),
        };
        x += sign * f(axis.x) * velocity;
        y += sign * f(axis.y) * velocity;
        z += sign * f(axis.z) * velocity;
    }
    let travelled = (x * x + y * y + z * z).sqrt();
    assert!((travelled - 2.5 * 2.0f32.sqrt()).abs() <= 1.0e-5);
    assert_eq!((x, y, z), (2.5, 0.0, -2.5));
}
