use veyra::fullscreen::{
    FullscreenCoordinator, FullscreenIntent, FullscreenKind, FullscreenSnapshot, FullscreenSource,
    PresentationArea,
};
use veyra::scene::{Quat, Vec3, VisualId};

fn b(x: f32) -> u32 {
    x.to_bits()
}

fn vec3(x: f32, y: f32, z: f32) -> Vec3 {
    Vec3 { x: b(x), y: b(y), z: b(z) }
}

/// A quaternion with its scalar part first.
fn quat(s: f32, x: f32, y: f32, z: f32) -> Quat {
    Quat { s: b(s), x: b(x), y: b(y), z: b(z) }
}

fn area(size: (f32, f32)) -> PresentationArea {
    PresentationArea::for_window_size((size.0.round() as i32, size.1.round() as i32))
}

const AREA: (f32, f32) = (1280.0, 720.0);

fn snap(maximized: bool) -> FullscreenSnapshot {
    FullscreenSnapshot::capture(
        (800, 600),
        vec3(1.0, 2.0, 3.0),
        quat(1.0, 0.0, 0.0, 0.0),
        maximized,
    )
}

#[test]
fn presentation_area_scales_with_window() {
    assert_eq!(area(AREA).size(), (1280, 720));
    assert_eq!(area((1000.4, 800.6)).size(), (1000, 801));
    assert_eq!(area((0.0, 0.0)).size(), (1, 1));
}

#[test]
fn snapshot_layout_matches_quaternion_convention() {
    let q = quat(0.9, 0.1, 0.2, 0.3);
    let s = FullscreenSnapshot::capture((10, 20), vec3(1.0, 2.0, 3.0), q, false);
    assert_eq!(s.restore_rot, (b(0.1), b(0.2), b(0.3), b(0.9)));
    assert_eq!(s.restore_pos, (b(1.0), b(2.0), b(3.0)));
    assert_eq!(s.restore_size, (10, 20));
    assert!(!s.was_maximized);
}

#[test]
fn intent_lifecycle_replaces_and_aborts() {
    let mut fc = FullscreenCoordinator::default();
    let vid = VisualId(1);
    fc.begin(FullscreenIntent {
        vid,
        kind: FullscreenKind::Fullscreen,
        source: FullscreenSource::Client,
        serial: 1,
        target: (1280, 720),
        previous: (800, 600),
        snapshot: Some(snap(false)),
    });
    fc.begin(FullscreenIntent {
        vid,
        kind: FullscreenKind::Unfullscreen,
        source: FullscreenSource::Compositor,
        serial: 2,
        target: (800, 600),
        previous: (1280, 720),
        snapshot: None,
    });
    assert_eq!(fc.intent(vid).unwrap().serial, 2);
    assert!(fc.intent(vid).unwrap().kind == FullscreenKind::Unfullscreen);
    assert!(fc.take_intent(vid).is_some());
    assert!(fc.intent(vid).is_none(), "one intent for each surface");
    fc.abort(vid);
    assert!(fc.intent(vid).is_none());
    assert!(fc.take_deferred().is_none());
}

#[test]
fn deferred_last_wins_and_aborts_with_surface() {
    let mut fc = FullscreenCoordinator::default();
    let vid = VisualId(2);
    fc.defer(vid, FullscreenKind::Fullscreen, FullscreenSource::Client);
    fc.defer(vid, FullscreenKind::Unfullscreen, FullscreenSource::Compositor);
    assert_eq!(
        fc.take_deferred(),
        Some((vid, FullscreenKind::Unfullscreen, FullscreenSource::Compositor))
    );
    fc.defer(vid, FullscreenKind::Fullscreen, FullscreenSource::Client);
    fc.abort(vid);
    assert!(fc.take_deferred().is_none());
    assert!(fc.intent(vid).is_none());
}

#[test]
fn take_intent_gives_ownership() {
    let mut fc = FullscreenCoordinator::default();
    let vid = VisualId(3);
    fc.begin(FullscreenIntent {
        vid,
        kind: FullscreenKind::Fullscreen,
        source: FullscreenSource::Compositor,
        serial: 5,
        target: (640, 480),
        previous: (320, 240),
        snapshot: None,
    });
    let taken = fc.take_intent(vid).expect("intent owned");
    assert_eq!(taken.snapshot, None);
    assert!(fc.intent(vid).is_none());
}
