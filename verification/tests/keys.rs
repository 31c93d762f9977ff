//! Keys, the pointer, menus and camera modes.
use veyra::compositor::commit::{SurfaceCommit, SurfaceRole};
use veyra::compositor::frame::{
    benchmark_cell, refresh_interval, BackendOrigin, FrameLoop, FrameOutcome, FrameResult,
    PacingStep, Recreation, SeatSession,
};
use veyra::compositor::keyboard::ConsumedKeys;
use veyra::compositor::ledger::ClientLedger;
use veyra::compositor::menu::Views;
use veyra::compositor::pointer::{
    ConstraintKind, ContentHit, ContentRouting, PointerMove, PointerPress, Under,
};
use veyra::compositor::resizing::SizeLimits;
use veyra::compositor::state::{Effect, LookingGlass};
use veyra::chrome::TitleButton;
use veyra::context_menu::MenuAction;
use veyra::focus::CameraMode;
use veyra::input::{Camera, CameraView};
use veyra::input_router::PointerEventKind;
use veyra::maximize::MinimizeSource;
use veyra::keys::{
    modifier_of, Modifier, ALT_L, CTRL_L, DOWN, ENTER, F1, F2, F3, META_L, SHIFT_L, TAB,
};
use veyra::navigation::{escape_chain, Binding, EscapeAction, KeyMeaning};
use veyra::scene::{Quat, Transform3D, Vec3, Visual, VisualId, WindowState};

fn vec3(x: f32, y: f32, z: f32) -> Vec3 {
    Vec3 { x: x.to_bits(), y: y.to_bits(), z: z.to_bits() }
}

fn view(z: f32) -> CameraView {
    CameraView { position: vec3(0.0, 0.0, z), yaw: 1, pitch: 2 }
}

fn camera(z: f32) -> Camera {
    Camera { position: vec3(0.0, 0.0, z), ..Camera::new() }
}

fn views() -> Views {
    Views {
        focused: camera(300.0),
        menu_target: camera(310.0),
        overview: Some(camera(2000.0)),
        selected: Some(view(400.0)),
        all: Some(view(900.0)),
        fitted: view(870.0),
        centre: (0, 0),
    }
}

const NOTHING: KeyMeaning = KeyMeaning { binding: None, bookmark: None };

fn bound(b: Binding) -> KeyMeaning {
    KeyMeaning { binding: Some(b), bookmark: None }
}

fn commit(surface: u64, fresh: u64) -> SurfaceCommit {
    SurfaceCommit {
        surface,
        role: SurfaceRole::Window,
        backend: true,
        attached: true,
        buffer_size: Some((640, 480)),
        texture: Some((640, 480)),
        buffer_scale: 1,
        viewport_dst: None,
        viewport_src: None,
        fresh: VisualId(fresh),
        place: vec3(0.0, 0.0, 0.0),
        tilt: Quat::identity(),
        child_place: vec3(0.0, 0.0, 0.0),
        x11_focusable: true,
    }
}

fn glass() -> LookingGlass {
    let mut g = LookingGlass::new(3, true);
    for id in [1u64, 2] {
        g.new_toplevel(id, format!("app{id}"), format!("title{id}"));
        let serial = g.configure_serial;
        g.ack_configure(id, serial, false);
        g.handle_commit(&commit(id, id));
    }
    g.take_effects();
    g
}

#[test]
fn keys_are_modifiers_or_not() {
    assert_eq!(modifier_of(CTRL_L), Some(Modifier::Ctrl));
    assert_eq!(modifier_of(SHIFT_L), Some(Modifier::Shift));
    assert_eq!(modifier_of(ALT_L), Some(Modifier::Alt));
    assert_eq!(modifier_of(TAB), None);
}

#[test]
fn a_duplicate_modifier_event_is_ignored() {
    let mut g = glass();
    let mut held = ConsumedKeys::new();
    g.handle_key(&mut held, CTRL_L, false, NOTHING, &views());
    assert!(g.take_effects().is_empty());
    g.handle_key(&mut held, CTRL_L, true, NOTHING, &views());
    assert!(g.input.ctrl_pressed);
    assert_eq!(g.take_effects().len(), 1);
    g.handle_key(&mut held, CTRL_L, true, NOTHING, &views());
    assert!(g.take_effects().is_empty());
    g.handle_key(&mut held, CTRL_L, false, NOTHING, &views());
    assert!(!g.input.ctrl_pressed);
    assert!(matches!(
        g.take_effects()[..],
        [Effect::FeedKey { key: CTRL_L, pressed: false, .. }]
    ));
}

#[test]
fn a_command_key_is_kept_from_the_client() {
    let mut g = glass();
    let mut held = ConsumedKeys::new();
    g.handle_key(&mut held, 40, true, bound(Binding::ToggleShelf), &views());
    assert!(g.shelf_visible);
    assert!(held.contains(40));
    assert!(g.take_effects().is_empty());
    g.handle_key(&mut held, 40, false, NOTHING, &views());
    assert!(g.take_effects().is_empty());
    assert!(!held.contains(40));
    g.handle_key(&mut held, 40, false, NOTHING, &views());
    assert!(!g.take_effects().is_empty(), "the next release is the client's");
    g.handle_key(&mut held, 40, true, bound(Binding::ToggleShelf), &views());
    assert!(!g.shelf_visible);
}

#[test]
fn plain_keys_go_to_the_focused_surface() {
    let mut g = glass();
    let mut held = ConsumedKeys::new();
    g.handle_key(&mut held, 38, true, NOTHING, &views());
    assert!(matches!(
        g.take_effects()[..],
        [Effect::DeliverKey { surface: 2, x11: false, key: 38, pressed: true, .. }]
    ));
    g.set_keyboard_focus(None);
    g.take_effects();
    g.handle_key(&mut held, 38, true, NOTHING, &views());
    assert_eq!(g.take_effects(), vec![Effect::CameraKey { key: 38, pressed: true }]);
}

#[test]
fn keys_of_a_visual_without_a_surface_go_to_its_sink() {
    let mut g = glass();
    g.scene.add(Visual {
        id: VisualId(50),
        width: 10,
        height: 10,
        transform: Transform3D::identity(),
        parent: None,
        window_state: WindowState::Normal,
        connected: true,
        chrome_focused: false,
    });
    g.register_input_sink(VisualId(50));
    g.set_keyboard_focus(Some(VisualId(50)));
    g.take_effects();
    g.route_keyboard(38, true);
    assert_eq!(
        g.take_effects(),
        vec![Effect::SinkKey { vid: VisualId(50), key: 0x04, pressed: true }]
    );
}

#[test]
fn alt_tab_switches_until_alt_is_let_go() {
    let mut g = glass();
    let mut held = ConsumedKeys::new();
    g.handle_key(&mut held, ALT_L, true, NOTHING, &views());
    g.handle_key(&mut held, TAB, true, NOTHING, &views());
    assert!(g.input.alt_tab_active);
    assert_eq!(g.scene.focused_id, Some(VisualId(1)));
    g.handle_key(&mut held, ALT_L, false, NOTHING, &views());
    assert!(!g.input.alt_tab_active);
}

#[test]
fn function_keys_name_workspaces() {
    let mut g = glass();
    let mut held = ConsumedKeys::new();
    g.handle_key(&mut held, F2, true, NOTHING, &views());
    assert_eq!(g.workspace_manager.active_id(), 1);
    g.handle_binding(Binding::WorkspacePrev, &views());
    g.handle_binding(Binding::WorkspacePrev, &views());
    assert_eq!(g.workspace_manager.active_id(), 2);
    g.handle_binding(Binding::WorkspaceNext, &views());
    assert_eq!(g.workspace_manager.active_id(), 0);
}

#[test]
fn spatial_mode_comes_back_to_its_view() {
    let mut g = glass();
    g.camera.move_to(view(333.0));
    g.handle_binding(Binding::ToggleSpatial, &views());
    assert!(!g.spatial.spatial_mode);
    g.prepare_camera((0, 0), view(1.0));
    assert_ne!(g.camera.view(), view(333.0));
    g.handle_binding(Binding::ToggleSpatial, &views());
    assert!(g.spatial.spatial_mode);
    assert_eq!(g.camera.view(), view(333.0));
}

#[test]
fn spatial_mode_is_fitted_once() {
    let mut g = glass();
    g.prepare_camera((0, 0), view(870.0));
    assert_eq!(g.camera.view(), view(870.0));
    g.camera.move_to(view(5.0));
    g.prepare_camera((0, 0), view(870.0));
    assert_eq!(g.camera.view(), view(5.0));
    g.workspace_manager.set_auto_orbit(true);
    g.prepare_camera((7, 8), view(870.0));
    assert_eq!((g.camera.yaw, g.camera.pitch), (7, 8));
}

#[test]
fn focus_mode_gives_the_camera_back() {
    let mut g = glass();
    g.camera.move_to(view(444.0));
    g.toggle_focus_mode(camera(300.0));
    assert_eq!(g.focus_manager.camera_mode, CameraMode::Focus(VisualId(2)));
    g.camera.move_to(view(1.0));
    g.toggle_focus_mode(camera(300.0));
    assert_eq!(g.focus_manager.camera_mode, CameraMode::Normal);
    assert_eq!(g.camera.view(), view(444.0));
}

#[test]
fn escape_undoes_the_most_immediate_thing() {
    assert_eq!(escape_chain(true, true, true, true), EscapeAction::CancelDrag);
    assert_eq!(escape_chain(false, true, true, true), EscapeAction::ExitWorkspaceOverview);
    assert_eq!(escape_chain(false, false, true, true), EscapeAction::ExitOverview);
    assert_eq!(escape_chain(false, false, false, true), EscapeAction::ExitFocus);
    assert_eq!(escape_chain(false, false, false, false), EscapeAction::ResetCamera);
    let mut g = glass();
    g.camera.move_to(view(9.0));
    g.pointer_constraints.pointer_locked = true;
    g.pointer_constraints.locked_surface = Some(2);
    g.handle_escape();
    assert!(!g.pointer_constraints.pointer_locked);
    assert_eq!(g.camera.view(), view(9.0));
    g.dnd_started();
    g.handle_escape();
    assert!(!g.input.dnd_active);
    assert_eq!(g.camera.view(), view(9.0));
    g.enter_overview(Some(camera(2000.0)));
    g.handle_escape();
    assert_eq!(g.focus_manager.camera_mode, CameraMode::Normal);
    g.handle_escape();
    assert_eq!(g.camera.position, vec3(0.0, 0.0, 800.0));
}

#[test]
fn bookmarks_are_saved_and_restored_by_keys() {
    let mut g = glass();
    let mut held = ConsumedKeys::new();
    let slot = KeyMeaning { binding: None, bookmark: Some(3) };
    g.camera.move_to(view(77.0));
    g.scene.select(Some(VisualId(1)));
    g.handle_key(&mut held, 12, true, slot, &views());
    g.camera.move_to(view(1.0));
    g.scene.select(None);
    g.handle_key(&mut held, 12, true, slot, &views());
    assert_eq!(g.camera.view(), view(77.0));
}

#[test]
fn the_menu_is_walked_and_confirmed_by_keys() {
    let mut g = glass();
    let mut held = ConsumedKeys::new();
    assert!(g.handle_context_menu(0, 0, Some(VisualId(1))));
    assert!(g.context_menu.visible);
    g.handle_key(&mut held, DOWN, true, NOTHING, &views());
    assert_eq!(g.context_menu.selected, Some(0));
    g.handle_key(&mut held, ENTER, true, NOTHING, &views());
    assert!(!g.context_menu.visible);
    assert_eq!(g.focus_manager.camera_mode, CameraMode::Focus(VisualId(1)));
    assert!(!g.handle_context_menu(0, 0, None));
}

#[test]
fn menu_entries_act_on_their_window() {
    let mut g = glass();
    g.handle_context_menu(0, 0, Some(VisualId(1)));
    g.execute_menu_action(MenuAction::MoveToWorkspace(2), &views());
    assert_eq!(g.workspace_for_visual(VisualId(1)), Some(2));
    g.handle_context_menu(0, 0, Some(VisualId(2)));
    g.execute_menu_action(MenuAction::Minimize, &views());
    assert!(g.is_minimized(VisualId(2)));
    g.handle_context_menu(0, 0, Some(VisualId(1)));
    g.take_effects();
    g.execute_menu_action(MenuAction::Close, &views());
    assert_eq!(g.take_effects(), vec![Effect::SendClose { surface: 1 }]);
}

fn hit() -> ContentHit {
    ContentHit { button: None, border: None, drawn: true, on_title: false, u: 0, v: 0 }
}

fn over(id: u64) -> Under {
    Under { picked: Some(VisualId(id)), on_content: true }
}

fn press(id: u64, hit: ContentHit) -> PointerPress {
    PointerPress {
        taskbar: None,
        under: over(id),
        grasped: Some(VisualId(id)),
        drags: false,
        hit: Some(hit),
        framing: camera(300.0),
    }
}

fn motion(id: u64) -> PointerMove {
    PointerMove { under: over(id), pending: None, resize: None, dragged: None }
}

#[test]
fn a_click_focuses_the_window_and_is_its_own() {
    let mut g = glass();
    g.handle_pointer_down(&press(1, hit()));
    assert_eq!(g.scene.focused_id, Some(VisualId(1)));
    assert!(g.take_effects().iter().any(|e| matches!(
        e,
        Effect::PointerButton { surface: Some(1), pressed: true, .. }
    )));
    g.handle_pointer_up(over(1), Some(hit()));
    assert!(g.take_effects().iter().any(|e| matches!(
        e,
        Effect::PointerButton { surface: Some(1), pressed: false, .. }
    )));
}

#[test]
fn the_title_bar_drags_the_window() {
    let mut g = glass();
    g.handle_pointer_down(&press(1, ContentHit { on_title: true, ..hit() }));
    assert_eq!(g.input.dragging, Some(VisualId(1)));
    let moved = Transform3D { position: vec3(5.0, 6.0, 7.0), ..Transform3D::identity() };
    g.handle_pointer_move(&PointerMove { dragged: Some(moved), ..motion(1) });
    assert_eq!(g.scene.get(VisualId(1)).unwrap().transform, moved);
    g.handle_pointer_up(over(1), None);
    assert_eq!(g.input.dragging, None);
}

#[test]
fn title_buttons_do_what_they_say() {
    let mut g = glass();
    g.handle_pointer_down(&press(1, ContentHit { button: Some(TitleButton::Close), ..hit() }));
    assert!(g.take_effects().contains(&Effect::SendClose { surface: 1 }));
    g.handle_pointer_down(&press(1, ContentHit { button: Some(TitleButton::Minimize), ..hit() }));
    assert!(g.is_minimized(VisualId(1)));
}

#[test]
fn the_border_resizes_the_window() {
    let mut g = glass();
    let limits = SizeLimits { min: (100, 100), max: (0, 0) };
    g.handle_pointer_down(&press(1, ContentHit { border: Some(limits), ..hit() }));
    assert!(g.resize_session.is_some());
    g.handle_pointer_move(&PointerMove {
        resize: Some(((700, 500), vec3(1.0, 0.0, 0.0))),
        ..motion(1)
    });
    assert!(g.client_resizes.entry(VisualId(1)).is_some());
    g.handle_pointer_up(over(1), None);
    assert!(g.resize_session.is_none());
    assert!(g.client_resizes.entry(VisualId(1)).is_none());
}

#[test]
fn hidden_windows_cannot_be_picked() {
    let mut g = glass();
    assert_eq!(g.pickable(), vec![VisualId(1), VisualId(2)]);
    g.handle_binding(Binding::MinimizeSelected, &views());
    assert_eq!(g.pickable(), vec![VisualId(1)]);
    assert_eq!(g.pick_wayland_target(over(1)), Some((VisualId(1), 1)));
    assert_eq!(g.pick_wayland_target(Under { picked: Some(VisualId(1)), on_content: false }), None);
}

#[test]
fn pointer_constraints_start_when_their_surface_is_reached() {
    let mut g = glass();
    g.handle_pointer_move(&PointerMove { pending: Some(ConstraintKind::Locked), ..motion(2) });
    assert!(g.pointer_constraints.pointer_locked);
    assert_eq!(g.pointer_constraints.locked_surface, Some(2));
    g.take_effects();
    g.handle_pointer_move(&motion(1));
    assert!(matches!(g.take_effects()[0], Effect::LockedMotion { surface: 2, .. }));
}

#[test]
fn events_of_nothing_selected_have_no_target() {
    let mut g = glass();
    g.scene.select(None);
    assert_eq!(
        g.route_to_content(PointerEventKind::Down, Some(hit())),
        ContentRouting::NoTarget
    );
}

#[test]
fn the_wheel_scrolls_a_window_or_moves_the_camera() {
    let mut g = glass();
    g.handle_axis(over(1), false);
    assert!(g.take_effects().contains(&Effect::PointerAxis { surface: 1 }));
    g.handle_axis(Under { picked: None, on_content: false }, true);
    assert!(g.take_effects().contains(&Effect::ZoomCamera { horizontal: true }));
}

#[test]
fn a_paused_session_renders_nothing() {
    let mut g = glass();
    let mut l = ClientLedger::new();
    let mut f = FrameLoop::new(true, Some(BackendOrigin::Drm));
    f.schedule_render();
    f.session_paused = true;
    assert!(!f.begin_render(&mut g, &mut l));
    assert!(!f.needs_render());
    f.session_paused = false;
    assert!(f.begin_render(&mut g, &mut l));
}

#[test]
fn focus_on_a_visual_that_is_gone_is_given_up_before_a_frame() {
    let mut g = glass();
    let mut l = ClientLedger::new();
    let mut f = FrameLoop::new(true, None);
    g.scene.remove(VisualId(2));
    assert!(f.begin_render(&mut g, &mut l));
    assert_eq!(g.scene.focused_id, None);
}

#[test]
fn a_lost_display_is_tried_for_again_after_a_while() {
    let mut f = FrameLoop::new(true, Some(BackendOrigin::Drm));
    assert_eq!(f.try_recreate_backend(SeatSession::Active, 0), Recreation::Leave);
    f.context_lost();
    assert_eq!(f.try_recreate_backend(SeatSession::Active, 100), Recreation::Attempt);
    assert_eq!(f.try_recreate_backend(SeatSession::Active, 2099), Recreation::Leave);
    assert_eq!(f.try_recreate_backend(SeatSession::Inactive, 2100), Recreation::Leave);
    assert_eq!(f.try_recreate_backend(SeatSession::Absent, 4100), Recreation::ReportLost);
    assert_eq!(f.try_recreate_backend(SeatSession::Absent, 9000), Recreation::Leave);
    f.backend_recreated();
    assert!(f.backend && !f.backend_lost_logged);
    assert_eq!(f.last_backend_attempt, None);
}

#[test]
fn a_lost_nested_window_is_reported_once() {
    let mut f = FrameLoop::new(false, Some(BackendOrigin::Winit));
    assert_eq!(f.try_recreate_backend(SeatSession::Absent, 0), Recreation::ReportLost);
    assert_eq!(f.try_recreate_backend(SeatSession::Absent, 9999), Recreation::Leave);
    let mut none = FrameLoop::new(false, None);
    assert_eq!(none.try_recreate_backend(SeatSession::Active, 0), Recreation::Leave);
}

#[test]
fn the_third_failure_to_begin_drops_the_backend() {
    let mut f = FrameLoop::new(true, Some(BackendOrigin::Winit));
    assert!(!f.begin_frame_failed());
    assert!(!f.begin_frame_failed());
    f.begin_frame_succeeded();
    assert!(!f.begin_frame_failed());
    assert!(!f.begin_frame_failed());
    assert!(f.backend);
    assert!(f.begin_frame_failed());
    assert!(!f.backend);
}

fn produced(id: u64) -> Visual {
    Visual {
        id: VisualId(id),
        width: 32,
        height: 32,
        transform: Transform3D::identity(),
        parent: None,
        window_state: WindowState::Normal,
        connected: true,
        chrome_focused: false,
    }
}

#[test]
fn a_producer_that_keeps_failing_is_disconnected() {
    let mut g = glass();
    let mut f = FrameLoop::new(true, None);
    assert_eq!(f.add_producer(&mut g, FrameResult::Error, produced(60), false), None);
    assert_eq!(
        f.add_producer(&mut g, FrameResult::Updated, produced(60), true),
        Some(VisualId(60))
    );
    assert_eq!(g.workspace_for_visual(VisualId(60)), Some(0));
    assert!(g.input_sinks.contains(&VisualId(60)));
    for _ in 0..59 {
        assert_eq!(f.producer_result(&mut g.scene, 0, FrameResult::Error), (1, false));
    }
    assert_eq!(f.producer_result(&mut g.scene, 0, FrameResult::Updated), (1, true));
    for _ in 0..59 {
        assert_eq!(f.producer_result(&mut g.scene, 0, FrameResult::Error), (1, false));
    }
    assert!(g.scene.is_active(VisualId(60)));
    assert_eq!(f.producer_result(&mut g.scene, 0, FrameResult::Error), (0, false));
    assert!(!g.scene.is_active(VisualId(60)));
    assert!(f.producers.is_empty());
}

#[test]
fn a_finished_producer_makes_room_for_the_last_one() {
    let mut g = glass();
    let mut f = FrameLoop::new(true, None);
    for id in [60, 61, 62] {
        assert!(f.add_benchmark_visual(&mut g.scene, FrameResult::Unchanged, produced(id)));
    }
    assert!(!f.add_benchmark_visual(&mut g.scene, FrameResult::Updated, produced(63)));
    assert_eq!(f.producer_result(&mut g.scene, 0, FrameResult::Finished), (0, false));
    assert_eq!(f.producers, vec![VisualId(62), VisualId(61)]);
    assert_eq!(f.producer_result(&mut g.scene, 0, FrameResult::Resized(64, 48)), (1, true));
    let v = g.scene.get(VisualId(62)).unwrap();
    assert_eq!((v.width, v.height), (64, 48));
    assert_eq!(f.producer_result(&mut g.scene, 1, FrameResult::Unchanged), (2, false));
}

#[test]
fn benchmark_visuals_stand_in_a_grid() {
    assert_eq!(benchmark_cell(0, 9, 3), (-240, -240, false));
    assert_eq!(benchmark_cell(4, 9, 3), (-80, -80, true));
    assert_eq!(benchmark_cell(8, 9, 3), (80, 80, false));
}

#[test]
fn an_idle_compositor_does_not_wake() {
    let mut g = glass();
    let mut f = FrameLoop::new(true, None);
    assert!(!f.should_render(&g, &vec![]));
    assert!(f.should_render(&g, &vec![1]));
    assert!(!f.should_render(&g, &vec![99]));
    assert!(f.pump_render_loop(true));
    assert!(!f.pump_render_loop(true));
    assert_eq!(f.pacing_fired(true), PacingStep::FireAgain);
    assert_eq!(f.pacing_fired(false), PacingStep::Drop);
    assert!(!f.pump_render_loop(false));
    f.note_animation(&g);
    assert!(!f.needs_render());
    g.enter_workspace_overview();
    f.note_animation(&g);
    assert!(f.needs_render());
    assert!(g.frame_visuals().is_none(), "all workspaces are shown");
}

#[test]
fn frames_show_the_workspace_and_are_numbered() {
    let g = glass();
    let mut f = FrameLoop::new(true, None);
    assert_eq!(g.frame_visuals(), Some(vec![VisualId(1), VisualId(2)]));
    assert_eq!(f.finish_frame(FrameOutcome::Presented), Some(1));
    assert_eq!(f.finish_frame(FrameOutcome::Failed), Some(2));
    f.presentation_seq = u64::MAX;
    assert_eq!(f.finish_frame(FrameOutcome::Presented), Some(0));
    assert_eq!(f.finish_frame(FrameOutcome::ContextLost), None);
    assert!(!f.backend);
    assert_eq!(g.answered_surfaces(), vec![1, 2]);
    assert_eq!(refresh_interval(60000), 16666);
    assert_eq!(refresh_interval(0), 16_000_000);
    assert_eq!(refresh_interval(-5), 16_000_000);
}

#[test]
fn an_automatic_fit_leaves_detached_windows_alone() {
    let mut g = glass();
    g.scene.detached_set = vec![VisualId(1)];
    let ids: Vec<VisualId> = g.fitted_visuals().iter().map(|v| v.id).collect();
    assert_eq!(ids, vec![VisualId(2)]);
}

#[test]
fn every_command_press_swallows_its_release() {
    let bookmark = KeyMeaning { binding: None, bookmark: Some(3) };
    let mut g = glass();
    let mut held = ConsumedKeys::new();
    for (key, meaning) in [(F1, NOTHING), (F2, NOTHING), (F3, NOTHING), (10, bookmark)] {
        g.handle_key(&mut held, key, true, meaning, &views());
        assert!(held.contains(key));
        g.take_effects();
        g.handle_key(&mut held, key, false, meaning, &views());
        assert!(g.take_effects().is_empty());
        assert!(!held.contains(key));
    }
    let mut g = glass();
    let mut held = ConsumedKeys::new();
    g.handle_key(&mut held, ALT_L, true, NOTHING, &views());
    g.handle_key(&mut held, TAB, true, NOTHING, &views());
    g.take_effects();
    g.handle_key(&mut held, TAB, false, NOTHING, &views());
    assert!(g.take_effects().is_empty(), "the window focused now hears no stray release");
}

#[test]
fn a_resize_is_a_delivery() {
    let mut g = glass();
    let mut f = FrameLoop::new(true, None);
    f.add_producer(&mut g, FrameResult::Updated, produced(60), false);
    for _ in 0..59 {
        assert_eq!(f.producer_result(&mut g.scene, 0, FrameResult::Error), (1, false));
    }
    assert_eq!(f.producer_result(&mut g.scene, 0, FrameResult::Resized(32, 32)), (1, true));
    assert_eq!(f.producer_result(&mut g.scene, 0, FrameResult::Error), (1, false));
    assert!(g.scene.is_active(VisualId(60)));
}

#[test]
fn a_window_moved_to_the_shown_workspace_stays() {
    let mut g = glass();
    g.handle_context_menu(0, 0, Some(VisualId(1)));
    g.take_effects();
    g.execute_menu_action(MenuAction::MoveToWorkspace(0), &views());
    assert_eq!(g.workspace_for_visual(VisualId(1)), Some(0));
    assert_eq!(g.take_effects(), vec![Effect::FitCamera]);
    g.handle_context_menu(0, 0, Some(VisualId(1)));
    g.execute_menu_action(MenuAction::MoveToWorkspace(1), &views());
    assert_eq!(g.workspace_for_visual(VisualId(1)), Some(1));
    assert!(!g.workspace_manager.active().contains(VisualId(1)));
}

#[test]
fn the_camera_glides_between_rooms() {
    let mut g = glass();
    g.prepare_camera((0, 0), view(870.0));
    g.camera.move_to(view(333.0));
    g.switch_workspace(1);
    let glide = g.focus_manager.transition.unwrap();
    assert_eq!(glide.source_camera.view(), view(333.0));
    assert_eq!(glide.target_camera.view(), g.camera.view());
    assert_eq!(g.focus_manager.camera_mode, CameraMode::Normal);
    let halfway = camera(600.0);
    let shown = g.focus_manager.interpolated_camera(&g.camera, Some(halfway), None);
    assert_eq!(shown.position, halfway.position);
    g.camera.move_to(view(40.0));
    g.prepare_camera((0, 0), view(870.0));
    assert_eq!(g.focus_manager.transition.unwrap().target_camera.view(), view(40.0));
    assert!(!g.focus_manager.update_transition(1.0f32.to_bits()));
    assert!(g.focus_manager.transition.is_none());
    g.switch_workspace(1);
    assert!(g.focus_manager.transition.is_none(), "it is there already");
    g.switch_workspace(0);
    assert!(g.focus_manager.transition.is_some());
    assert_eq!(g.camera.view(), view(333.0));
    g.spatial.spatial_mode = false;
    g.prepare_camera((0, 0), view(870.0));
    assert!(g.focus_manager.transition.is_none(), "the flat view is pinned");
}

#[test]
fn focus_arrives_at_a_window_that_is_there_to_be_seen() {
    let mut g = glass();
    g.switch_workspace(1);
    g.begin_minimize(VisualId(1), MinimizeSource::Compositor);
    g.focus_history.remove(VisualId(2));
    g.workspace_manager.switch(0);
    g.workspace_manager.keep(Camera::new(), None, &vec![], g.focus_manager);
    g.workspace_manager.switch(1);
    g.switch_workspace(0);
    assert_eq!(g.scene.focused_id, Some(VisualId(2)), "the first window is minimized");
}

#[test]
fn the_whole_room_is_one_key_away() {
    let mut g = glass();
    g.camera.move_to(view(99999.0));
    g.handle_binding(Binding::FrameAll, &views());
    assert_eq!(g.camera.view(), view(900.0));
    g.camera.move_to(view(99999.0));
    g.handle_binding(Binding::FrameAll, &Views { all: None, ..views() });
    assert_eq!(g.camera.position, vec3(0.0, 0.0, 800.0));
    let room: Vec<VisualId> = g.framed_visuals().iter().map(|v| v.id).collect();
    assert_eq!(room, vec![VisualId(1), VisualId(2)]);
    g.begin_minimize(VisualId(1), MinimizeSource::Compositor);
    let room: Vec<VisualId> = g.framed_visuals().iter().map(|v| v.id).collect();
    assert_eq!(room, vec![VisualId(2)]);
    g.switch_workspace(1);
    assert!(g.framed_visuals().is_empty());
}

#[test]
fn a_session_that_comes_back_is_drawn() {
    let mut f = FrameLoop::new(true, Some(BackendOrigin::Drm));
    f.session_changed(true);
    assert!(!f.needs_render());
    f.session_changed(false);
    assert!(f.session_paused);
    assert!(!f.needs_render());
    f.session_changed(true);
    assert!(!f.session_paused);
    assert!(f.needs_render());
}

#[test]
fn command_keys_held_together_are_all_swallowed() {
    let mut g = glass();
    let mut held = ConsumedKeys::new();
    g.handle_key(&mut held, F1, true, NOTHING, &views());
    g.handle_key(&mut held, F2, true, NOTHING, &views());
    g.switch_workspace(0);
    g.handle_key(&mut held, 30, true, NOTHING, &views());
    g.handle_key(&mut held, 30, false, NOTHING, &views());
    assert!(!held.contains(30));
    g.take_effects();
    g.handle_key(&mut held, F1, false, NOTHING, &views());
    assert!(g.take_effects().is_empty());
    assert!(held.contains(F2));
    g.handle_key(&mut held, F2, false, NOTHING, &views());
    assert!(g.take_effects().is_empty());
    assert!(!held.contains(F1) && !held.contains(F2));
    g.handle_key(&mut held, F1, false, NOTHING, &views());
    assert!(!g.take_effects().is_empty(), "a release that no command owes is passed on");
}

#[test]
fn alt_and_meta_move_windows() {
    let mut g = glass();
    let mut held = ConsumedKeys::new();
    assert!(!g.moves_windows());
    g.handle_key(&mut held, SHIFT_L, true, NOTHING, &views());
    g.handle_key(&mut held, CTRL_L, true, NOTHING, &views());
    assert!(!g.moves_windows());
    g.handle_key(&mut held, ALT_L, true, NOTHING, &views());
    assert!(g.moves_windows());
    g.handle_key(&mut held, ALT_L, false, NOTHING, &views());
    g.handle_key(&mut held, META_L, true, NOTHING, &views());
    assert!(g.moves_windows());
}
