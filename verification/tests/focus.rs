use veyra::focus::{framed_group, CameraMode, FocusManager, FocusTransition};
use veyra::input::Camera;
use veyra::scene::{Scene, Vec3, VisualId};

fn b(x: f32) -> u32 {
    x.to_bits()
}

fn at(x: f32, y: f32, z: f32) -> Vec3 {
    Vec3 { x: b(x), y: b(y), z: b(z) }
}

fn f(bits: u32) -> f32 {
    f32::from_bits(bits)
}

fn overview_cam() -> Camera {
    Camera { position: at(0.0, 0.0, 2000.0), ..Camera::new() }
}

#[test]
fn enter_exit_preserves_camera() {
    let mut fm = FocusManager::new();
    let mut cam = Camera::new();
    cam.position = at(100.0, 200.0, 300.0);
    cam.yaw = b(0.5);
    cam.pitch = b(0.3);

    fm.enter(&cam, VisualId(1), cam);
    assert!(matches!(fm.camera_mode, CameraMode::Focus(_)));
    assert_eq!(fm.focus_target, Some(VisualId(1)));

    fm.exit(&mut cam);
    assert!(matches!(fm.camera_mode, CameraMode::Normal));
    assert_eq!(fm.focus_target, None);
    assert_eq!(f(cam.position.x), 100.0);
    assert_eq!(f(cam.position.y), 200.0);
    assert_eq!(f(cam.position.z), 300.0);
    assert!((f(cam.yaw) - 0.5).abs() < 1e-4);
    assert!((f(cam.pitch) - 0.3).abs() < 1e-4);
}

#[test]
fn transition_updates_progress() {
    let mut fm = FocusManager::new();
    let cam = Camera::new();
    fm.enter(&cam, VisualId(1), cam);
    assert!(fm.transition.is_some());
    assert!(fm.update_transition(b(0.0 + 0.5)));
    let progress = f(fm.transition.as_ref().unwrap().progress);
    assert!((progress - 0.5).abs() < 1e-4);
    assert!(!fm.update_transition(b(progress + 0.6)));
    assert_eq!(f(fm.transition.as_ref().unwrap().progress), 1.0);
}

#[test]
fn enter_exit_repeated() {
    let mut fm = FocusManager::new();
    let mut cam = Camera::new();

    for i in 0..5 {
        let pos = at(i as f32 * 100.0, 0.0, 0.0);
        cam.position = pos;
        fm.enter(&cam, VisualId(i as u64), cam);
        assert!(matches!(fm.camera_mode, CameraMode::Focus(_)));
        assert_eq!(fm.focus_target, Some(VisualId(i as u64)));
        fm.exit(&mut cam);
        assert!(matches!(fm.camera_mode, CameraMode::Normal));
        assert_eq!(f(cam.position.x), f(pos.x));
    }
}

#[test]
fn no_focus_mode_default() {
    let fm = FocusManager::new();
    assert!(matches!(fm.camera_mode, CameraMode::Normal));
    assert_eq!(fm.focus_target, None);
}

#[test]
fn camera_mode_default_is_normal() {
    assert!(matches!(CameraMode::default(), CameraMode::Normal));
}

#[test]
fn enter_overview_saves_and_transitions() {
    let mut fm = FocusManager::new();
    let cam = Camera::new();
    fm.enter_overview(&cam, overview_cam());
    assert!(matches!(fm.camera_mode, CameraMode::Overview));
    assert!(fm.saved_camera.is_some());
    assert!(fm.transition.is_some());
}

#[test]
fn exit_overview_restores_exact() {
    let mut fm = FocusManager::new();
    let mut cam = Camera::new();
    cam.position = at(100.0, 200.0, 300.0);
    cam.yaw = b(0.5);
    cam.pitch = b(0.3);

    fm.enter_overview(&cam, overview_cam());
    fm.exit_overview(&mut cam);

    assert!(matches!(fm.camera_mode, CameraMode::Normal));
    assert_eq!(f(cam.position.x), 100.0);
    assert_eq!(f(cam.position.y), 200.0);
    assert_eq!(f(cam.position.z), 300.0);
}

#[test]
fn enter_exact_restoration_with_bookmarks() {
    let mut fm = FocusManager::new();
    let mut cam = Camera::new();
    cam.position = at(100.0, 200.0, 300.0);
    cam.yaw = b(0.5);
    cam.pitch = b(0.3);
    cam.save_bookmark(0);

    fm.enter(&cam, VisualId(1), cam);
    cam.position = at(999.0, 999.0, 999.0);

    fm.exit(&mut cam);
    assert_eq!(f(cam.position.x), 100.0);
    assert_eq!(f(cam.position.y), 200.0);
    assert_eq!(f(cam.position.z), 300.0);
    assert!((f(cam.yaw) - 0.5).abs() < 1e-4);
}

#[test]
fn is_active_checks_non_normal() {
    let mut fm = FocusManager::new();
    assert!(!fm.is_active());
    fm.enter(&Camera::new(), VisualId(1), Camera::new());
    assert!(fm.is_active());
    fm.exit_overview(&mut Camera::new());
    assert!(!fm.is_active());
}

#[test]
fn click_in_overview_sets_focus_mode() {
    let mut fm = FocusManager::new();
    let cam = Camera::new();
    fm.enter_overview(&cam, overview_cam());
    assert!(matches!(fm.camera_mode, CameraMode::Overview));

    fm.enter(&cam, VisualId(1), cam);
    assert!(matches!(fm.camera_mode, CameraMode::Focus(_)));
    assert_eq!(fm.focus_target, Some(VisualId(1)));
}

#[test]
fn escape_during_overview_returns_normal() {
    let mut fm = FocusManager::new();
    let mut cam = Camera::new();
    cam.position = at(100.0, 200.0, 300.0);

    fm.enter_overview(&cam, overview_cam());
    fm.exit_overview(&mut cam);

    assert!(matches!(fm.camera_mode, CameraMode::Normal));
    assert_eq!(f(cam.position.x), 100.0);
    assert_eq!(f(cam.position.y), 200.0);
}

#[test]
fn the_overview_of_the_workspaces_is_left_like_any_other() {
    let mut fm = FocusManager::new();
    let mut cam = Camera::new();
    cam.position = at(1.0, 2.0, 3.0);
    fm.enter_workspace_overview(&cam, Camera::over_workspaces());
    assert!(matches!(fm.camera_mode, CameraMode::WorkspaceOverview));
    cam.position = at(9.0, 9.0, 9.0);
    fm.exit_overview(&mut cam);
    assert_eq!(cam.position, at(1.0, 2.0, 3.0));
    assert!(fm.transition.is_none());
}

#[test]
fn a_visual_without_a_group_is_framed_alone() {
    let scene = Scene::default();
    assert!(framed_group(&scene, VisualId(1)).is_none());
}

#[test]
fn target_destroyed_during_focus() {
    let mut fm = FocusManager::new();
    let cam = Camera::new();
    fm.enter(&cam, VisualId(999), overview_cam()); // doesn't exist
    assert!(matches!(fm.camera_mode, CameraMode::Focus(_)));

    // interpolated_camera should return workspace camera when target missing
    let result = fm.interpolated_camera(&cam, Some(overview_cam()), None);
    assert_eq!(result.position, cam.position);
    assert_eq!(result.position, at(0.0, 0.0, 800.0));
    fm.update_transition(b(1.0));
    let result = fm.interpolated_camera(&cam, Some(overview_cam()), None);
    assert_eq!(result.position, cam.position);
}

#[test]
fn a_focused_visual_is_approached() {
    let mut fm = FocusManager::new();
    let cam = Camera::new();
    let halfway = Camera { position: at(0.0, 0.0, 1400.0), ..Camera::new() };
    fm.enter(&cam, VisualId(1), overview_cam());
    let shown = fm.interpolated_camera(&cam, Some(halfway), Some(overview_cam()));
    assert_eq!(shown.position, halfway.position);
    fm.transition = None;
    let shown = fm.interpolated_camera(&cam, None, Some(overview_cam()));
    assert_eq!(shown.position, overview_cam().position);
}

#[test]
fn an_overview_gives_the_whole_camera_back() {
    let mut fm = FocusManager::new();
    let mut cam = Camera::new();
    cam.save_bookmark(3);
    fm.enter_overview(&cam, overview_cam());
    cam.position = at(7.0, 7.0, 7.0);
    cam.save_bookmark(4);
    fm.exit_overview(&mut cam);
    assert_eq!(cam.position, Camera::new().position);
    assert!(cam.bookmarks[3].is_some());
    assert!(cam.bookmarks[4].is_none());
}

#[test]
fn a_glide_ends_at_the_camera() {
    let mut fm = FocusManager::new();
    let cam = Camera::new();
    fm.transition = Some(FocusTransition::new(overview_cam(), cam));
    let shown = fm.interpolated_camera(&cam, Some(overview_cam()), None);
    assert_eq!(shown.position, overview_cam().position);
    let moved = Camera { position: at(5.0, 0.0, 0.0), ..Camera::new() };
    fm.aim(&moved);
    assert_eq!(fm.transition.unwrap().target_camera.position, moved.position);
    assert!(fm.update_transition(b(0.5)));
    assert!(!fm.update_transition(b(1.5)));
    assert!(fm.transition.is_none());
    assert_eq!(fm.interpolated_camera(&cam, None, None).position, cam.position);
    fm.enter(&cam, VisualId(1), overview_cam());
    fm.aim(&moved);
    fm.arrive();
    assert_eq!(fm.transition.unwrap().target_camera.position, overview_cam().position);
}

#[test]
fn the_overview_of_the_workspaces_is_seen_from_its_camera() {
    let mut fm = FocusManager::new();
    let cam = Camera::new();
    fm.enter_workspace_overview(&cam, Camera::over_workspaces());
    let far = Camera::over_workspaces();
    assert_eq!(fm.interpolated_camera(&cam, Some(far), None).position, far.position);
}
