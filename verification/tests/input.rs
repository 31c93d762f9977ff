use veyra::input::{Camera, CameraView, DEFAULT_DISTANCE};
use veyra::scene::Vec3;

fn b(x: f32) -> u32 {
    x.to_bits()
}

fn f(bits: u32) -> f32 {
    f32::from_bits(bits)
}

fn at(x: f32, y: f32, z: f32) -> Vec3 {
    Vec3 { x: b(x), y: b(y), z: b(z) }
}

#[test]
fn save_and_restore_bookmark() {
    let mut cam = Camera::new();
    cam.position = at(100.0, 200.0, 300.0);
    cam.yaw = b(0.5);
    cam.pitch = b(0.3);
    cam.save_bookmark(1);
    cam.position = at(999.0, 999.0, 999.0);
    cam.yaw = b(1.0);
    cam.pitch = b(0.5);
    assert!(cam.restore_bookmark(1));
    assert!((f(cam.position.x) - 100.0).abs() < 1e-4);
    assert!((f(cam.position.y) - 200.0).abs() < 1e-4);
    assert!((f(cam.position.z) - 300.0).abs() < 1e-4);
    assert!((f(cam.yaw) - 0.5).abs() < 1e-4);
    assert!((f(cam.pitch) - 0.3).abs() < 1e-4);
}

#[test]
fn restore_empty_bookmark_returns_false() {
    let mut cam = Camera::new();
    assert!(!cam.restore_bookmark(0));
}

#[test]
fn bookmarks_beyond_the_last_slot_are_ignored() {
    let mut cam = Camera::new();
    cam.save_bookmark(10);
    assert!(!cam.restore_bookmark(10));
    assert!(cam.bookmarks.iter().all(|b| b.is_none()));
}

#[test]
fn a_session_starts_eight_hundred_away() {
    let cam = Camera::new();
    assert_eq!(cam.position, at(0.0, 0.0, 800.0));
    assert_eq!(f(DEFAULT_DISTANCE), 800.0);
    assert_eq!(f(cam.yaw), 0.0);
    assert_eq!(f(cam.pitch), 0.0);
}

#[test]
fn a_straight_view_looks_along_the_axis() {
    assert_eq!(
        CameraView::straight(b(250.0)),
        CameraView { position: at(0.0, 0.0, 250.0), yaw: b(0.0), pitch: b(0.0) }
    );
}
