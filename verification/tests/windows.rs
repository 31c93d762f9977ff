//! Windows through their lives: mapped, focused, minimized, maximized,
//! fullscreen, closed, and back.
use veyra::compositor::commit::{x11_focusable, SurfaceCommit, SurfaceRole, WmWindowType};
use veyra::compositor::keyboard::LaunchEntry;
use veyra::compositor::ledger::ClientLedger;
use veyra::compositor::pointer::TaskbarHit;
use veyra::compositor::resizing::SizeLimits;
use veyra::compositor::session::{SavedState, SavedWorkspace};
use veyra::compositor::state::{ConfigureChange, Effect, LookingGlass, SavedVisual};
use veyra::compositor::taskbar::taskbar_pins;
use veyra::fullscreen::FullscreenSource;
use veyra::input::CameraView;
use veyra::maximize::{MaximizeSource, MinimizeSource};
use veyra::scene::{Quat, Transform3D, Vec3, VisualId};
use veyra::workspace::{LayoutMode, WorkspaceError};

fn vec3(x: f32, y: f32, z: f32) -> Vec3 {
    Vec3 { x: x.to_bits(), y: y.to_bits(), z: z.to_bits() }
}

fn turned() -> Quat {
    Quat { s: 0.8f32.to_bits(), x: 0, y: 0.6f32.to_bits(), z: 0 }
}

fn commit(surface: u64, fresh: u64, size: (i32, i32)) -> SurfaceCommit {
    SurfaceCommit {
        surface,
        role: SurfaceRole::Window,
        backend: true,
        attached: true,
        buffer_size: Some(size),
        texture: Some(size),
        buffer_scale: 1,
        viewport_dst: None,
        viewport_src: None,
        fresh: VisualId(fresh),
        place: vec3(fresh as f32, 2.0, 3.0),
        tilt: turned(),
        child_place: vec3(4.0, 5.0, 6.0),
        x11_focusable: true,
    }
}

fn glass() -> LookingGlass {
    LookingGlass::new(3, true)
}

/// Opens a window: surface and visual have the same number.
fn open(g: &mut LookingGlass, id: u64, app: &str) {
    g.new_toplevel(id, app.to_string(), format!(" {app} window "));
    let serial = g.configure_serial;
    g.ack_configure(id, serial, false);
    g.handle_commit(&commit(id, id, (640, 480)));
}

/// The client acknowledges what it was asked and commits a size.
fn answer(g: &mut LookingGlass, id: u64, size: (i32, i32)) {
    let serial = g.configure_serial;
    g.ack_configure(id, serial, false);
    g.handle_commit(&commit(id, 999, size));
}

fn pose(g: &LookingGlass, id: u64) -> Transform3D {
    g.scene.get(VisualId(id)).unwrap().transform
}

fn three() -> LookingGlass {
    let mut g = glass();
    open(&mut g, 1, "foot");
    open(&mut g, 2, "firefox");
    open(&mut g, 3, "mail");
    g
}

#[test]
fn a_mapped_window_is_placed_focused_and_announced() {
    let mut g = glass();
    open(&mut g, 1, "foot");
    assert_eq!(g.toplevels.len(), 1);
    assert_eq!(g.toplevels[0].visual_id, Some(VisualId(1)));
    assert_eq!(g.scene.focused_id, Some(VisualId(1)));
    assert!(g.scene.get(VisualId(1)).unwrap().chrome_focused);
    assert_eq!(pose(&g, 1).position, vec3(1.0, 2.0, 3.0));
    assert_eq!(pose(&g, 1).rotation, turned());
    assert_eq!(g.workspace_for_visual(VisualId(1)), Some(0));
    assert_eq!(g.foreign_toplevels, vec![VisualId(1)]);
    let effects = g.take_effects();
    assert!(effects.contains(&Effect::PublishWindow { vid: VisualId(1) }));
    assert!(effects.contains(&Effect::Configure {
        surface: 1,
        serial: 1,
        size: None,
        change: ConfigureChange::Initial
    }));
    assert!(g.take_effects().is_empty());
}

#[test]
fn exactly_the_focused_window_is_drawn_as_focused() {
    let mut g = three();
    g.set_keyboard_focus(Some(VisualId(1)));
    let focused: Vec<bool> = g.scene.visuals.iter().map(|v| v.chrome_focused).collect();
    assert_eq!(focused, vec![true, false, false]);
    assert_eq!(g.focus_history.order()[0], VisualId(1));
    g.set_keyboard_focus(None);
    assert!(g.scene.visuals.iter().all(|v| !v.chrome_focused));
}

#[test]
fn a_lock_ends_when_another_window_takes_focus() {
    let mut g = three();
    g.pointer_constraints.pointer_locked = true;
    g.pointer_constraints.locked_surface = Some(3);
    g.set_keyboard_focus(Some(VisualId(3)));
    assert!(g.pointer_constraints.pointer_locked);
    g.set_keyboard_focus(Some(VisualId(1)));
    assert!(!g.pointer_constraints.pointer_locked);
    assert!(g.take_effects().contains(&Effect::DeactivateConstraint { surface: 3 }));
}

#[test]
fn a_visual_that_is_no_window_is_not_remembered() {
    let mut g = three();
    let before: Vec<VisualId> = g.focus_history.order().to_vec();
    g.set_keyboard_focus(Some(VisualId(77)));
    assert_eq!(g.focus_history.order(), &before[..]);
}

#[test]
fn focus_goes_to_the_most_recent_other_window() {
    let mut g = three();
    g.set_keyboard_focus(Some(VisualId(1)));
    g.toplevel_destroyed(1, false, 7);
    assert_eq!(g.scene.focused_id, Some(VisualId(3)));
    assert_eq!(g.scene.selected_id, Some(VisualId(3)));
    g.begin_minimize(VisualId(3), MinimizeSource::Compositor);
    assert_eq!(g.scene.focused_id, Some(VisualId(2)));
    g.begin_minimize(VisualId(2), MinimizeSource::Compositor);
    assert_eq!(g.scene.focused_id, None);
}

#[test]
fn switching_applications_stays_on_the_workspace() {
    let mut g = three();
    g.switch_workspace(1);
    open(&mut g, 4, "chat");
    assert!(!g.switch_app_focus(true));
    g.switch_workspace(0);
    let before = g.scene.focused_id;
    assert!(g.switch_app_focus(true));
    assert_ne!(g.scene.focused_id, before);
    assert_ne!(g.scene.focused_id, Some(VisualId(4)));
}

#[test]
fn a_workspace_comes_back_as_it_was_left() {
    let mut g = three();
    g.set_keyboard_focus(Some(VisualId(2)));
    g.camera.position = vec3(7.0, 8.0, 9.0);
    g.scene.detached_set = vec![VisualId(1)];
    let before: Vec<Transform3D> = g.scene.visuals.iter().map(|v| v.transform).collect();
    assert!(g.switch_workspace(2));
    assert_eq!(g.scene.focused_id, None);
    assert_ne!(g.camera.position, vec3(7.0, 8.0, 9.0));
    assert!(g.switch_workspace(0));
    assert_eq!(g.camera.position, vec3(7.0, 8.0, 9.0));
    assert_eq!(g.scene.detached_set, vec![VisualId(1)]);
    assert_eq!(g.scene.focused_id, Some(VisualId(2)));
    let after: Vec<Transform3D> = g.scene.visuals.iter().map(|v| v.transform).collect();
    assert_eq!(before, after);
}

#[test]
fn a_workspace_that_is_not_there_is_not_shown() {
    let mut g = three();
    assert!(!g.switch_workspace(9));
    assert_eq!(g.workspace_manager.active_id(), 0);
    assert!(!g.activate_workspace(7));
    assert!(g.activate_workspace(1));
}

#[test]
fn the_last_workspace_cannot_be_destroyed() {
    let mut g = LookingGlass::new(0, true);
    assert_eq!(g.workspace_count(), 1);
    assert_eq!(g.destroy_workspace(0), Err(WorkspaceError::LastWorkspace));
    assert_eq!(g.create_workspace(), 1);
    assert_eq!(g.destroy_workspace(5), Err(WorkspaceError::NoSuchWorkspace));
    open(&mut g, 1, "foot");
    assert_eq!(g.destroy_workspace(1), Ok(()));
    assert!(g.scene.get(VisualId(1)).is_some());
}

#[test]
fn a_minimized_window_comes_back_in_its_pose_and_on_its_workspace() {
    let mut g = three();
    let before = pose(&g, 3);
    g.begin_minimize(VisualId(3), MinimizeSource::Compositor);
    assert!(g.is_minimized(VisualId(3)));
    assert!(!g.scene.is_visible(VisualId(3)));
    assert_ne!(g.scene.focused_id, Some(VisualId(3)));
    assert_eq!(pose(&g, 3), before);
    g.switch_workspace(1);
    g.restore_minimized(VisualId(3), MinimizeSource::Compositor);
    assert!(!g.is_minimized(VisualId(3)));
    assert!(g.scene.is_visible(VisualId(3)));
    assert_eq!(g.scene.focused_id, Some(VisualId(3)));
    assert_eq!(pose(&g, 3), before);
    assert_eq!(g.workspace_manager.active_id(), 0);
}

#[test]
fn minimizing_twice_changes_nothing() {
    let mut g = three();
    g.begin_minimize(VisualId(3), MinimizeSource::Client);
    g.take_effects();
    let focused = g.scene.focused_id;
    g.begin_minimize(VisualId(3), MinimizeSource::Client);
    assert_eq!(g.scene.focused_id, focused);
    assert!(g.take_effects().is_empty());
    g.restore_minimized(VisualId(1), MinimizeSource::Client);
    assert!(g.take_effects().is_empty());
}

#[test]
fn a_restore_without_a_target_brings_back_the_window_opened_last() {
    let mut g = three();
    g.begin_minimize(VisualId(3), MinimizeSource::Compositor);
    g.begin_minimize(VisualId(1), MinimizeSource::Compositor);
    g.restore_last_minimized(MinimizeSource::Compositor);
    assert!(!g.is_minimized(VisualId(3)));
    assert!(g.is_minimized(VisualId(1)));
    assert_eq!(g.layout_detached(), vec![VisualId(1)]);
}

#[test]
fn a_maximized_window_gets_its_pose_and_size_back() {
    let mut g = three();
    g.view_size = (1920, 1080);
    let before = pose(&g, 1);
    g.begin_maximize(VisualId(1), MaximizeSource::Compositor);
    assert!(!g.is_maximized(VisualId(1)));
    assert_eq!(pose(&g, 1), before);
    assert!(g.take_effects().contains(&Effect::Configure {
        surface: 1,
        serial: g.configure_serial,
        size: Some((1920, 1080)),
        change: ConfigureChange::Maximize
    }));
    answer(&mut g, 1, (640, 480));
    assert!(!g.is_maximized(VisualId(1)), "one more commit at the old size");
    answer(&mut g, 1, (1920, 1080));
    assert!(g.is_maximized(VisualId(1)));
    assert_eq!(pose(&g, 1), before.centred());
    g.begin_unmaximize(VisualId(1), MaximizeSource::Compositor);
    assert!(g.take_effects().contains(&Effect::Configure {
        surface: 1,
        serial: g.configure_serial,
        size: Some((640, 480)),
        change: ConfigureChange::Unmaximize
    }));
    answer(&mut g, 1, (640, 480));
    assert!(!g.is_maximized(VisualId(1)));
    assert_eq!(pose(&g, 1), before);
}

#[test]
fn a_maximize_waits_until_the_client_has_acknowledged() {
    let mut g = three();
    g.begin_client_resize(VisualId(1), 700, 500);
    g.take_effects();
    g.begin_maximize(VisualId(1), MaximizeSource::Client);
    assert!(g.take_effects().is_empty());
    let serial = g.configure_serial;
    g.ack_configure(1, serial, false);
    assert!(g.take_effects().iter().any(|e| matches!(
        e,
        Effect::Configure { surface: 1, change: ConfigureChange::Maximize, .. }
    )));
}

#[test]
fn only_one_resize_is_outstanding() {
    let mut g = three();
    assert!(g.begin_client_resize(VisualId(1), 700, 500).is_some());
    assert!(g.begin_client_resize(VisualId(1), 710, 510).is_none());
    answer(&mut g, 1, (700, 500));
    assert!(g.begin_client_resize(VisualId(1), 710, 510).is_some());
    g.abort_client_resize(VisualId(1));
}

#[test]
fn fullscreen_gives_a_maximized_window_its_state_back() {
    let mut g = three();
    g.view_size = (1920, 1080);
    let before = pose(&g, 1);
    g.begin_maximize(VisualId(1), MaximizeSource::Compositor);
    answer(&mut g, 1, (1920, 1080));
    g.view_size = (2000, 1100);
    g.begin_fullscreen(VisualId(1), FullscreenSource::Client);
    let captured = g.toplevels[0].fullscreen_snapshot.unwrap();
    assert!(captured.was_maximized);
    answer(&mut g, 1, (1920, 1080));
    assert!(!g.is_fullscreened(VisualId(1)));
    assert_eq!(g.toplevels[0].fullscreen_snapshot, Some(captured));
    answer(&mut g, 1, (2000, 1100));
    assert!(g.is_fullscreened(VisualId(1)));
    g.take_effects();
    g.begin_maximize(VisualId(1), MaximizeSource::Client);
    assert!(g.take_effects().is_empty(), "a fullscreen window stays fullscreen");
    g.begin_unfullscreen(VisualId(1), FullscreenSource::Client);
    answer(&mut g, 1, (1920, 1080));
    assert!(!g.is_fullscreened(VisualId(1)));
    assert!(g.is_maximized(VisualId(1)));
    assert_eq!(g.toplevels[0].fullscreen_snapshot, None);
    g.begin_unmaximize(VisualId(1), MaximizeSource::Compositor);
    answer(&mut g, 1, (640, 480));
    assert_eq!(pose(&g, 1), before);
}

#[test]
fn a_plain_window_leaves_fullscreen_as_it_entered() {
    let mut g = three();
    let before = pose(&g, 2);
    g.toggle_fullscreen_for(VisualId(2), FullscreenSource::Compositor);
    answer(&mut g, 2, (1280, 720));
    assert!(g.is_fullscreened(VisualId(2)));
    assert_eq!(pose(&g, 2), before.centred());
    g.toggle_fullscreen_for(VisualId(2), FullscreenSource::Compositor);
    answer(&mut g, 2, (640, 480));
    assert!(!g.is_fullscreened(VisualId(2)));
    assert!(!g.is_maximized(VisualId(2)));
    assert_eq!(pose(&g, 2), before);
}

#[test]
fn a_resize_session_keeps_the_window_and_leaves_nothing_behind() {
    let mut g = three();
    let limits = SizeLimits { min: (0, 0), max: (0, 0) };
    assert!(g.begin_resize_session(VisualId(1), limits, true));
    assert!(!g.begin_resize_session(VisualId(2), limits, true));
    g.update_resize_session((800, 600), vec3(9.0, 9.0, 9.0));
    g.begin_maximize(VisualId(1), MaximizeSource::Client);
    assert!(g.finish_resize_session());
    assert!(!g.finish_resize_session());
    assert!(g.client_resizes.entry(VisualId(1)).is_none());
    assert!(g.maximize.intent(VisualId(1)).is_none());
}

#[test]
fn an_erased_window_leaves_no_trace() {
    let mut g = three();
    g.register_input_sink(VisualId(1));
    g.new_popup(11, Some(1));
    g.handle_commit(&commit(11, 11, (100, 50)));
    assert!(g.scene.get(VisualId(11)).is_some());
    g.set_keyboard_focus(Some(VisualId(1)));
    g.scene.select(Some(VisualId(1)));
    g.scene.create_group(vec![VisualId(1), VisualId(2)]);
    g.begin_maximize(VisualId(1), MaximizeSource::Client);
    g.cleanup_visual_permanently(VisualId(1));
    let v = VisualId(1);
    assert!(g.scene.get(v).is_none());
    assert!(g.scene.get(VisualId(11)).is_none(), "its popup goes with it");
    assert!(g.popups.is_empty());
    assert_eq!(g.workspace_for_visual(v), None);
    assert!(!g.focus_history.order().contains(&v));
    assert!(!g.input_sinks.contains(&v));
    assert!(!g.foreign_toplevels.contains(&v));
    assert!(g.maximize.intent(v).is_none());
    assert!(g.client_resizes.entry(v).is_none());
    assert_eq!(g.scene.selected_id, None);
    assert!(g.scene.groups.iter().all(|x| !x.contains(v)));
    assert_eq!(g.surface_of(v), None);
    assert!(g.scene.get(VisualId(2)).is_some());
    assert_eq!(g.workspace_for_visual(VisualId(2)), Some(0));
}

#[test]
fn a_closed_window_is_reopened_where_it_was() {
    let mut g = three();
    g.switch_workspace(1);
    open(&mut g, 4, "Foot");
    let before = pose(&g, 4);
    g.switch_workspace(0);
    g.toplevel_destroyed(4, false, 55);
    assert_eq!(g.closed_windows.most_recent().unwrap().workspace, 1);
    assert_eq!(g.closed_windows.most_recent().unwrap().closed_at_ms, 55);
    let entries = vec![
        LaunchEntry { app_id: "firefox".into(), name: "Firefox".into() },
        LaunchEntry { app_id: "/usr/bin/foot".into(), name: "Terminal".into() },
    ];
    assert_eq!(g.reopen_last_closed(&entries), Some(1));
    assert_eq!(g.reopen_last_closed(&entries), None);
    g.new_toplevel(5, "Foot".into(), "t".into());
    g.handle_commit(&commit(5, 5, (300, 200)));
    assert_eq!(pose(&g, 5), before);
    assert_eq!(g.workspace_for_visual(VisualId(5)), Some(1));
    assert!(g.pending_reopen.is_none());
}

#[test]
fn a_failed_relaunch_is_not_waited_for() {
    let mut g = three();
    g.toplevel_destroyed(1, false, 1);
    let entries = vec![LaunchEntry { app_id: "foot".into(), name: "x".into() }];
    assert_eq!(g.reopen_last_closed(&entries), Some(0));
    g.reopen_failed();
    assert!(g.pending_reopen.is_none());
    g.toplevel_destroyed(2, false, 2);
    assert_eq!(g.reopen_last_closed(&vec![]), None);
}

fn saved(app: &str, workspace: usize, x: f32, detached: bool) -> SavedVisual {
    SavedVisual {
        app_id: app.to_string(),
        workspace,
        transform: Transform3D { position: vec3(x, 0.0, 0.0), ..Transform3D::identity() },
        detached,
    }
}

#[test]
fn saved_duplicates_return_in_the_order_they_were_saved() {
    let mut g = glass();
    g.load_saved_state(SavedState {
        workspaces: vec![],
        visuals: vec![
            saved("foot", 0, 10.0, false),
            saved("mail", 2, 20.0, true),
            saved("foot", 1, 30.0, true),
        ],
    });
    open(&mut g, 1, "foot");
    open(&mut g, 2, "foot");
    open(&mut g, 3, "foot");
    open(&mut g, 4, "mail");
    assert_eq!(pose(&g, 1).position, vec3(10.0, 0.0, 0.0));
    assert_eq!(pose(&g, 2).position, vec3(30.0, 0.0, 0.0));
    assert_eq!(pose(&g, 3).position, vec3(3.0, 2.0, 3.0), "a new window");
    assert_eq!(g.workspace_for_visual(VisualId(2)), Some(1));
    assert_eq!(g.workspace_for_visual(VisualId(4)), Some(2));
    assert_eq!(g.scene.detached_set, vec![VisualId(2), VisualId(4)]);
    assert!(g.saved_visuals.is_empty());
}

#[test]
fn a_session_is_saved_and_restored() {
    let mut g = three();
    g.switch_workspace(1);
    open(&mut g, 4, "chat");
    g.camera.position = vec3(1.0, 1.0, 500.0);
    g.workspace_manager.workspaces[2].layout_mode = LayoutMode::Grid { columns: 4 };
    let state = g.save_state();
    assert_eq!(state.workspaces.len(), 3);
    assert_eq!(state.workspaces[1].camera.position, vec3(1.0, 1.0, 500.0));
    assert_eq!(state.workspaces[2].layout_mode, "grid:4");
    let apps: Vec<(&str, usize)> =
        state.visuals.iter().map(|v| (v.app_id.as_str(), v.workspace)).collect();
    assert_eq!(apps, vec![("foot", 0), ("firefox", 0), ("mail", 0), ("chat", 1)]);
    assert_eq!(state.visuals[3].transform, pose(&g, 4));

    let mut later = glass();
    later.load_saved_state(state);
    assert_eq!(later.workspace_manager.workspaces[1].camera.position, vec3(1.0, 1.0, 500.0));
    assert_eq!(later.workspace_manager.workspaces[2].layout_mode, LayoutMode::Grid { columns: 4 });
    assert_eq!(later.camera.position, g.workspace_manager.workspaces[0].camera.position);
    open(&mut later, 9, "chat");
    assert_eq!(pose(&later, 9), pose(&g, 4));
    assert_eq!(later.workspace_for_visual(VisualId(9)), Some(1));
}

#[test]
fn saved_workspaces_beyond_the_last_are_left() {
    let mut g = LookingGlass::new(1, true);
    let view = CameraView { position: vec3(3.0, 3.0, 3.0), yaw: 1, pitch: 2 };
    let other = CameraView { position: vec3(4.0, 4.0, 4.0), yaw: 3, pitch: 4 };
    g.load_saved_state(SavedState {
        workspaces: vec![
            SavedWorkspace { camera: view, layout_mode: "flat".into() },
            SavedWorkspace { camera: other, layout_mode: "flat".into() },
        ],
        visuals: vec![],
    });
    assert_eq!(g.workspace_count(), 1);
    assert_eq!(g.camera.view(), view);
    assert_eq!(g.layout_mode(), LayoutMode::Flat);
}

#[test]
fn the_taskbar_lists_every_window_and_travels_to_it() {
    let mut g = three();
    g.switch_workspace(1);
    open(&mut g, 4, "chat");
    g.begin_minimize(VisualId(4), MinimizeSource::Compositor);
    let bar = g.build_taskbar();
    let rows: Vec<(u64, &str, bool, bool, usize)> = bar
        .iter()
        .map(|b| (b.vid.0, b.label.as_str(), b.focused, b.minimized, b.workspace))
        .collect();
    assert_eq!(
        rows,
        vec![
            (1, "foot window", false, false, 0),
            (2, "firefox window", false, false, 0),
            (3, "mail window", false, false, 0),
            (4, "chat window", false, true, 1),
        ]
    );
    g.handle_taskbar_click(TaskbarHit::Window(VisualId(2)));
    assert_eq!(g.workspace_manager.active_id(), 0);
    assert_eq!(g.scene.focused_id, Some(VisualId(2)));
    assert_eq!(g.build_taskbar()[1].vid, VisualId(2), "no button moves");
    assert!(g.build_taskbar()[1].focused);
    g.handle_taskbar_click(TaskbarHit::Window(VisualId(2)));
    assert!(!g.is_minimized(VisualId(2)), "a click never minimizes");
    g.handle_taskbar_click(TaskbarHit::Window(VisualId(4)));
    assert!(!g.is_minimized(VisualId(4)));
    assert_eq!(g.workspace_manager.active_id(), 1);
    g.handle_taskbar_click(TaskbarHit::Workspace(2));
    assert_eq!(g.workspace_manager.active_id(), 2);
    g.take_effects();
    g.handle_taskbar_click(TaskbarHit::Launch(3));
    assert_eq!(g.take_effects(), vec![Effect::Launch { index: 3 }]);
}

#[test]
fn a_window_without_a_title_goes_by_its_application() {
    let mut g = three();
    g.title_changed(1, "  \t".into(), "foot".into());
    assert_eq!(g.build_taskbar()[0].label, "foot");
}

#[test]
fn the_taskbar_pins_four_applications() {
    let entries: Vec<LaunchEntry> = (0..6)
        .map(|i| LaunchEntry { app_id: format!("a{i}"), name: format!("n{i}") })
        .collect();
    let pins = taskbar_pins(&entries);
    assert_eq!(pins.len(), 4);
    assert_eq!(pins[3], (3, "n3".to_string()));
    assert!(taskbar_pins(&vec![]).is_empty());
}

#[test]
fn popups_and_subsurfaces_hang_on_their_parents() {
    let mut g = three();
    let child = SurfaceCommit {
        role: SurfaceRole::Subsurface { parent: Some(1) },
        ..commit(21, 21, (64, 32))
    };
    g.handle_commit(&child);
    let v = g.scene.get(VisualId(21)).unwrap();
    assert_eq!(v.parent, Some(VisualId(1)));
    assert_eq!(v.transform.position, vec3(4.0, 5.0, 6.0));
    g.new_popup(31, Some(2));
    g.handle_commit(&commit(31, 31, (50, 40)));
    assert_eq!(g.scene.get(VisualId(31)).unwrap().parent, Some(VisualId(2)));
    g.popup_destroyed(31);
    assert!(g.scene.get(VisualId(31)).is_none());
    g.toplevel_destroyed(1, false, 0);
    assert!(g.scene.get(VisualId(21)).is_none(), "its subsurface goes with it");
}

#[test]
fn a_commit_without_a_buffer_shows_nothing() {
    let mut g = glass();
    g.new_toplevel(1, "foot".into(), "t".into());
    g.handle_commit(&SurfaceCommit { attached: false, ..commit(1, 1, (10, 10)) });
    assert!(g.scene.visuals.is_empty());
    g.handle_commit(&SurfaceCommit { texture: None, ..commit(1, 1, (10, 10)) });
    assert!(g.scene.visuals.is_empty());
    g.handle_commit(&commit(99, 1, (10, 10)));
    assert!(g.scene.visuals.is_empty(), "nobody knows the surface");
    g.handle_commit(&commit(1, 1, (10, 10)));
    assert_eq!(g.scene.visuals.len(), 1);
}

#[test]
fn committed_geometry_wins_and_the_pose_stays() {
    let mut g = three();
    let before = pose(&g, 1);
    g.handle_commit(&SurfaceCommit { buffer_scale: 2, ..commit(1, 999, (400, 300)) });
    let v = g.scene.get(VisualId(1)).unwrap();
    assert_eq!((v.width, v.height), (200, 150));
    assert_eq!(v.transform, before);
}

#[test]
fn helper_windows_of_x11_do_not_take_the_keyboard() {
    assert!(x11_focusable(false, None));
    assert!(x11_focusable(false, Some(WmWindowType::Normal)));
    assert!(x11_focusable(false, Some(WmWindowType::Dialog)));
    assert!(!x11_focusable(false, Some(WmWindowType::Tooltip)));
    assert!(!x11_focusable(true, Some(WmWindowType::Normal)));
}

#[test]
fn a_popup_grab_needs_a_recent_event_of_its_client() {
    let mut g = three();
    g.new_popup(11, Some(1));
    let mut l = ClientLedger::new();
    l.record_input_serial(5, 40);
    assert!(g.validate_popup_grab(&l, 11, Some(5), 40));
    assert_eq!(g.popups.len(), 1);
    assert!(!g.validate_popup_grab(&l, 11, Some(6), 40));
    assert!(g.popups.is_empty());
    assert!(!g.validate_popup_grab(&l, 11, None, 40));
    assert!(!g.validate_popup_grab(&l, 11, Some(5), 41));
}

#[test]
fn input_method_popups_hang_on_the_window_typed_into() {
    let mut g = three();
    assert_eq!(g.parent_geometry(77), ((0, 0), (1280, 800)));
    assert_eq!(g.parent_geometry(2), ((0, 0), (640, 480)));
    assert_eq!(g.ime_parent_vid, Some(VisualId(2)));
    let c = SurfaceCommit { role: SurfaceRole::InputPopup, ..commit(41, 41, (30, 20)) };
    g.handle_commit(&c);
    assert!(g.scene.get(VisualId(41)).is_none(), "no popup of the input method yet");
    g.new_ime_popup(&c);
    assert_eq!(g.scene.get(VisualId(41)).unwrap().parent, Some(VisualId(2)));
    g.dismiss_ime_popup(41);
    assert!(g.scene.get(VisualId(41)).is_none());
    assert!(g.ime_popups.is_empty());
}

#[test]
fn the_window_table_shows_each_visual() {
    let mut g = three();
    g.begin_minimize(VisualId(2), MinimizeSource::Client);
    let rows = g.debug_snapshot();
    assert_eq!(rows.len(), 3);
    assert_eq!(rows[0].app_id, "foot");
    assert_eq!(rows[0].workspace, Some(0));
    assert!(rows[1].minimized && !rows[1].focused);
    assert!(rows[2].focused && !rows[2].maximized);
}

#[test]
fn minimized_windows_are_not_switched_to() {
    let mut g = three();
    g.begin_minimize(VisualId(2), MinimizeSource::Compositor);
    g.set_keyboard_focus(Some(VisualId(3)));
    for _ in 0..3 {
        assert!(g.switch_app_focus(true));
        assert_ne!(g.scene.focused_id, Some(VisualId(2)));
    }
    g.begin_minimize(VisualId(1), MinimizeSource::Compositor);
    g.begin_minimize(VisualId(3), MinimizeSource::Compositor);
    assert!(!g.switch_app_focus(true));
    assert!(!g.cycle_visuals());
    assert_eq!(g.scene.focused_id, None);
}

#[test]
fn a_subsurface_is_on_the_workspace_of_its_parent() {
    let mut g = three();
    g.switch_workspace(1);
    g.handle_commit(&SurfaceCommit {
        role: SurfaceRole::Subsurface { parent: Some(1) },
        ..commit(21, 21, (64, 32))
    });
    assert!(g.workspace_manager.workspaces[0].contains(VisualId(21)));
    assert!(!g.workspace_manager.workspaces[1].contains(VisualId(21)));
}

#[test]
fn the_pose_to_give_back_is_that_of_the_request() {
    let mut g = three();
    let before = pose(&g, 1);
    g.begin_maximize(VisualId(1), MaximizeSource::Compositor);
    g.scene.visuals[0].transform.position = vec3(70.0, 80.0, 90.0);
    answer(&mut g, 1, (1280, 720));
    assert!(g.is_maximized(VisualId(1)));
    g.begin_unmaximize(VisualId(1), MaximizeSource::Compositor);
    answer(&mut g, 1, (640, 480));
    assert_eq!(pose(&g, 1).position, before.position);
}

#[test]
fn fullscreen_asked_for_twice_is_captured_once() {
    let mut g = three();
    g.begin_fullscreen(VisualId(1), FullscreenSource::Client);
    let captured = g.toplevels[0].fullscreen_snapshot;
    assert!(captured.is_some());
    g.scene.visuals[0].transform.position = vec3(70.0, 80.0, 90.0);
    let serial = g.configure_serial;
    g.ack_configure(1, serial, false);
    g.begin_fullscreen(VisualId(1), FullscreenSource::Client);
    assert_eq!(g.toplevels[0].fullscreen_snapshot, captured);
}

#[test]
fn a_resize_takes_the_window_from_layout_while_it_goes_on() {
    let mut g = three();
    let limits = SizeLimits { min: (0, 0), max: (0, 0) };
    assert!(g.begin_resize_session(VisualId(1), limits, true));
    assert_eq!(g.scene.detached_set, vec![VisualId(1)]);
    assert!(g.finish_resize_session());
    assert!(g.scene.detached_set.is_empty());
    g.scene.detached_set = vec![VisualId(2)];
    assert!(g.begin_resize_session(VisualId(2), limits, true));
    assert!(g.finish_resize_session());
    assert_eq!(g.scene.detached_set, vec![VisualId(2)], "it was detached before");
}

#[test]
fn a_selected_popup_that_goes_is_not_selected() {
    let mut g = three();
    g.new_popup(31, Some(2));
    g.handle_commit(&commit(31, 31, (50, 40)));
    g.scene.select(Some(VisualId(31)));
    g.popup_destroyed(31);
    assert_eq!(g.scene.selected_id, None);
}

#[test]
fn an_unknown_layout_leaves_the_configured_one() {
    let mut g = glass();
    g.workspace_manager.workspaces[1].layout_mode = LayoutMode::Grid { columns: 5 };
    let entry = |name: &str| SavedWorkspace {
        layout_mode: name.to_string(),
        camera: CameraView { position: vec3(1.0, 2.0, 3.0), yaw: 0, pitch: 0 },
    };
    g.load_saved_state(SavedState {
        workspaces: vec![entry("flat"), entry("spiral")],
        visuals: Vec::new(),
    });
    assert_eq!(g.workspace_manager.workspaces[0].layout_mode, LayoutMode::Flat);
    assert_eq!(g.workspace_manager.workspaces[1].layout_mode, LayoutMode::Grid { columns: 5 });
}
