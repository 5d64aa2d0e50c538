use orbit_controls::camera::{
    Camera, MAX_ZOOM_BITS, MIN_ZOOM_BITS, ZOOM_BITS, ZOOM_SENSITIVITY_BITS,
};
use orbit_controls::scalar::Scalar;

fn s(x: f32) -> Scalar {
    Scalar::from_bits(x.to_bits())
}

#[test]
fn zoom_patterns_are_the_numbers_they_name() {
    assert_eq!(ZOOM_BITS, 45.0f32.to_bits());
    assert_eq!(MIN_ZOOM_BITS, 1.0f32.to_bits());
    assert_eq!(MAX_ZOOM_BITS, 170.0f32.to_bits());
    assert_eq!(ZOOM_SENSITIVITY_BITS, 0.1f32.to_bits());
}

#[test]
fn default_camera_is_perspective_at_45_degrees() {
    let camera = Camera::default();
    assert_eq!(camera, Camera { fovy: s(45.0), perspective: true });
    assert!(camera.is_perspective());
}

#[test]
fn is_perspective_reads_the_flag() {
    assert!(!Camera { fovy: s(45.0), perspective: false }.is_perspective());
}

#[test]
fn set_zoom_keeps_a_field_of_view_in_range() {
    let mut camera = Camera::default();
    camera.set_zoom(s(44.9));
    assert_eq!(camera.fovy, s(44.9));
    camera.set_zoom(s(1.0));
    assert_eq!(camera.fovy, s(1.0));
    camera.set_zoom(s(170.0));
    assert_eq!(camera.fovy, s(170.0));
}

#[test]
fn set_zoom_saturates_at_the_bounds() {
    let mut camera = Camera { fovy: s(45.0), perspective: false };
    camera.set_zoom(s(0.999));
    assert_eq!(camera.fovy, s(1.0));
    camera.set_zoom(s(-1.0e30));
    assert_eq!(camera.fovy, s(1.0));
    camera.set_zoom(s(170.001));
    assert_eq!(camera.fovy, s(170.0));
    camera.set_zoom(s(f32::INFINITY));
    assert_eq!(camera.fovy, s(170.0));
    assert!(!camera.perspective);
}
