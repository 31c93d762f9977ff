//! What the pointer is for: a press, a release, a motion or a turn of the
//! wheel reaches what is under the pointer, or moves what is held.
use vstd::prelude::*;

use crate::chrome::TitleButton;
use crate::compositor::command_laws::{is_ready, law_minimize_hides_the_window, lemma_focus};
use crate::compositor::focus_laws::{
    law_switch_leaves_camera_modes, law_taskbar_click_goes_to_the_window, law_travel_glides,
    lemma_switch_keeps_members,
};
use crate::compositor::mapping_laws::is_home;
use crate::compositor::pointer::{
    snaps, visible_in, ConstraintKind, ContentHit, PointerMove, PointerPress, TaskbarHit, Under,
};
use crate::compositor::state::{
    ConfigureChange, Effect, GlassModel, InputState, PointerConstraints, SurfaceId,
};
use crate::compositor::terms::{
    is_fresh_id, is_let_be, is_row, is_visual, lemma_changed, lemma_row, lemma_visual,
    one_or_more, owes_nothing, same_but, succ,
};
use crate::compositor::transition_laws::law_maximize_asks_for_the_view;
use crate::focus::CameraMode;
use crate::input_router::PointerEventKind;
use crate::scene::{SceneModel, Transform3D, Vec3, Visual, VisualId, WindowState};
use crate::workspace::lemma_home_index;

verus! {

/// A press in the normal view on a window of the shown workspace, with no
/// drag-and-drop going on.
pub open spec fn is_press_on(m: GlassModel, press: PointerPress, vid: VisualId, i: int) -> bool {
    &&& press.taskbar is None
    &&& !m.input.dnd_active
    &&& m.focus_manager.camera_mode == CameraMode::Normal
    &&& press.grasped == Some(vid)
    &&& m.workspaces.all[m.workspaces.active].visual_ids.contains(vid)
    &&& is_visual(m.scene, vid, i)
    &&& m.scene.visuals[i].connected
}

/// The state in which a press on a window is routed to it.
spec fn noted(m: GlassModel, press: PointerPress) -> GlassModel {
    m.event_counted().grasping(press).selection_checked().down_noted()
}

proof fn lemma_press(m: GlassModel, press: PointerPress, vid: VisualId, i: int)
    requires
        is_press_on(m, press, vid, i),
    ensures
        ({
            let a = noted(m, press);
            &&& a.scene == (SceneModel { selected_id: Some(vid), ..m.scene })
            &&& a.input == (InputState {
                event_serial: a.input.event_serial,
                last_down_vid: Some(vid),
                dragging: if press.drags {
                    Some(vid)
                } else {
                    None
                },
                ..m.input
            })
            &&& a.input.event_serial == succ(m.input.event_serial)
            &&& a == (GlassModel { scene: a.scene, input: a.input, ..m })
            &&& a.scene.is_active(vid)
            &&& press.drags ==> m.pointer_pressed(press) == a.ordering(Effect::FlushClients)
            &&& !press.drags ==> m.pointer_pressed(press) == a.content_pressed(press.hit).ordering(
                Effect::FlushClients,
            )
        }),
{
    let a = noted(m, press);
    lemma_visual(m.scene, vid, i);
    assert(m.workspaces.current().visual_ids.contains(vid));
    assert(is_visual(a.scene, vid, i));
    lemma_visual(a.scene, vid, i);
}

/// A press with a modifier that moves windows takes hold of the window and
/// says nothing to its client.
pub proof fn law_modified_press_drags(m: GlassModel, press: PointerPress, vid: VisualId, i: int)
    requires
        is_press_on(m, press, vid, i),
        press.drags,
    ensures
        ({
            let n = m.pointer_pressed(press);
            &&& n.input.dragging == Some(vid)
            &&& n.scene.selected_id == Some(vid)
            &&& n.scene.focused_id == m.scene.focused_id
            &&& n.scene.visuals == m.scene.visuals
            &&& n.outbox == m.outbox.push(Effect::FlushClients)
            &&& n.resize_session == m.resize_session
        }),
{
    lemma_press(m, press, vid, i);
}

/// A press on a title-bar button does what the button says to the window
/// it is on: close it, maximize it, or minimize it.
pub proof fn law_title_buttons_do_what_they_say(
    m: GlassModel,
    press: PointerPress,
    vid: VisualId,
    i: int,
    k: int,
    hit: ContentHit,
)
    requires
        is_press_on(m, press, vid, i),
        !press.drags,
        press.hit == Some(hit),
        is_row(m, vid, k),
    ensures
        hit.button == Some(TitleButton::Close) ==> {
            let n = m.pointer_pressed(press);
            &&& n.outbox == m.outbox.push(
                Effect::SendClose { surface: m.toplevels[k].surface },
            ).push(Effect::FlushClients)
            &&& n.scene.visuals == m.scene.visuals
            &&& n.toplevels == m.toplevels
        },
        hit.button == Some(TitleButton::Maximize) && is_ready(m, vid, k, i)
            && !m.toplevels[k].maximized && !m.toplevels[k].fullscreened ==> {
            let n = m.pointer_pressed(press);
            &&& n.outbox == m.outbox.push(
                Effect::Configure {
                    surface: m.toplevels[k].surface,
                    serial: n.configure_serial,
                    size: Some((one_or_more(m.view_size.0), one_or_more(m.view_size.1))),
                    change: ConfigureChange::Maximize,
                },
            ).push(Effect::FlushClients)
            &&& n.maximize.intent(vid) is Some
            &&& n.fullscreen == m.fullscreen
        },
        hit.button == Some(TitleButton::Minimize) && is_let_be(m, vid) && !m.toplevels[k].minimized
            ==> {
            let n = m.pointer_pressed(press);
            &&& n.toplevels[k].minimized
            &&& n.scene.visuals[i].window_state == WindowState::Minimized
            &&& n.scene.visuals[i].transform == m.scene.visuals[i].transform
        },
{
    lemma_press(m, press, vid, i);
    let a = noted(m, press);
    assert(is_row(a, vid, k));
    assert(is_visual(a.scene, vid, i));
    lemma_row(a, vid, k);
    if hit.button == Some(TitleButton::Maximize) && is_ready(m, vid, k, i)
        && !m.toplevels[k].maximized && !m.toplevels[k].fullscreened {
        assert(owes_nothing(a, vid, k));
        law_maximize_asks_for_the_view(
            a,
            vid,
            k,
            i,
            crate::maximize::MaximizeSource::Compositor,
        );
    }
    if hit.button == Some(TitleButton::Minimize) && is_let_be(m, vid) && !m.toplevels[k].minimized {
        law_minimize_hides_the_window(a, vid, k, i);
    }
}

/// A press on the border of a plain window starts a resize of it, from the
/// size it has; it has focus and is in front.
pub proof fn law_border_press_starts_a_resize(
    m: GlassModel,
    press: PointerPress,
    vid: VisualId,
    i: int,
    k: int,
    hit: ContentHit,
)
    requires
        is_press_on(m, press, vid, i),
        !press.drags,
        press.hit == Some(hit),
        hit.button is None,
        hit.border is Some,
        hit.drawn,
        is_row(m, vid, k),
        m.resize_session is None,
        !m.toplevels[k].maximized,
        !m.toplevels[k].fullscreened,
        m.scene.visuals[i].width > 0,
        m.scene.visuals[i].height > 0,
    ensures
        ({
            let n = m.pointer_pressed(press);
            &&& n.resize_session matches Some(s) && s.vid == vid && s.start_size == (
                m.scene.visuals[i].width,
                m.scene.visuals[i].height,
            ) && s.desired == s.start_size
            &&& n.input.dragging is None
            &&& n.scene.focused_id == Some(vid)
            &&& n.scene.detached_set.contains(vid)
            &&& n.outbox.contains(Effect::BringToFront { vid })
        }),
{
    lemma_press(m, press, vid, i);
    let a = noted(m, press);
    lemma_focus(a, Some(vid));
    let f = a.put_forward(vid);
    assert(is_row(f, vid, k));
    lemma_row(f, vid, k);
    assert(f.scene.visuals[i] == (Visual { chrome_focused: true, ..m.scene.visuals[i] }));
    assert forall|j: int| 0 <= j < f.scene.visuals.len() && j != i implies (
    #[trigger] f.scene.visuals[j]).id != vid by {
        assert(f.scene.visuals[j].id == m.scene.visuals[j].id);
    }
    assert(is_visual(f.scene, vid, i));
    lemma_visual(f.scene, vid, i);
    assert(f.border_grabbed(vid, hit));
    let n = m.pointer_pressed(press);
    assert(f.outbox[f.outbox.len() - 1] == (Effect::BringToFront { vid }));
    assert(n.outbox[f.outbox.len() - 1] == (Effect::BringToFront { vid }));
    let d = n.scene.detached_set;
    if !m.scene.detached_set.contains(vid) {
        assert(d[m.scene.detached_set.len() as int] == vid);
    }
}

/// A press on the title bar takes hold of the window, which has focus and
/// is in front; a press on the content is the client's.
pub proof fn law_press_goes_to_the_window(
    m: GlassModel,
    press: PointerPress,
    vid: VisualId,
    i: int,
    hit: ContentHit,
)
    requires
        is_press_on(m, press, vid, i),
        !press.drags,
        press.hit == Some(hit),
        hit.button is None,
        hit.border is None,
    ensures
        ({
            let n = m.pointer_pressed(press);
            &&& n.scene.focused_id == Some(vid)
            &&& n.scene.selected_id == Some(vid)
            &&& n.resize_session == m.resize_session
            &&& n.outbox.last() == Effect::FlushClients
            &&& hit.on_title ==> {
                &&& n.input.dragging == Some(vid)
                &&& n.outbox[n.outbox.len() - 2] == (Effect::StartDrag { vid })
                &&& n.outbox[n.outbox.len() - 3] == (Effect::BringToFront { vid })
            }
            &&& !hit.on_title ==> n.input.dragging is None
            &&& !hit.on_title && m.surface_of(vid) is Some ==> {
                &&& n.outbox[n.outbox.len() - 2] == (Effect::PointerButton {
                    surface: m.surface_of(vid),
                    pressed: true,
                    serial: n.input.event_serial,
                })
                &&& n.outbox[n.outbox.len() - 3] == (Effect::BringToFront { vid })
                &&& n.input.last_wayland_focus == m.surface_of(vid)
            }
            &&& !hit.on_title && m.surface_of(vid) is None && m.sinks.contains(vid)
                ==> n.outbox[n.outbox.len() - 2] == (Effect::SinkPointer {
                vid,
                kind: PointerEventKind::Down,
                u: hit.u,
                v: hit.v,
            })
        }),
{
    lemma_press(m, press, vid, i);
    let a = noted(m, press);
    lemma_focus(a, Some(vid));
    let f = a.put_forward(vid);
    assert(!f.border_grabbed(vid, hit));
    assert(f.surface_of(vid) == m.surface_of(vid));
    assert(f.sinks == m.sinks);
}

/// A press on nothing selects nothing and holds nothing.
pub proof fn law_press_on_nothing_lets_go(m: GlassModel, press: PointerPress)
    requires
        press.taskbar is None,
        !m.input.dnd_active,
        m.focus_manager.camera_mode == CameraMode::Normal,
        press.grasped is None,
        !press.drags,
    ensures
        ({
            let n = m.pointer_pressed(press);
            &&& n.scene.selected_id is None
            &&& n.input.dragging is None
            &&& n.scene.visuals == m.scene.visuals
            &&& n.scene.focused_id == m.scene.focused_id
            &&& n.outbox == m.outbox.push(Effect::FlushClients)
        }),
{
}

/// A click on a window in the overview lets the camera follow it, from the
/// camera that frames it.
pub proof fn law_click_in_the_overview_follows(m: GlassModel, press: PointerPress, vid: VisualId)
    requires
        press.taskbar is None,
        !m.input.dnd_active,
        m.focus_manager.camera_mode == CameraMode::Overview,
        press.grasped == Some(vid),
    ensures
        ({
            let n = m.pointer_pressed(press);
            &&& n.focus_manager.camera_mode == CameraMode::Focus(vid)
            &&& n.focus_manager.focus_target == Some(vid)
            &&& n.focus_manager.transition matches Some(t) && t.target_camera == press.framing
                && t.source_camera == m.camera
            &&& n.camera == m.camera
        }),
{
}

/// A click on the taskbar goes to the window or the workspace it shows, or
/// launches the application it shows, and to nothing in the scene.
pub proof fn law_taskbar_click_is_obeyed(
    m: GlassModel,
    press: PointerPress,
    vid: VisualId,
    at: usize,
)
    requires
        m.wf(),
    ensures
        press.taskbar == Some(TaskbarHit::Window(vid)) ==> {
            let n = m.pointer_pressed(press);
            &&& n.scene.focused_id == Some(vid)
            &&& m.workspaces.home(vid) matches Some(h) ==> n.workspaces.active == h
        },
        press.taskbar == Some(TaskbarHit::Workspace(at)) && at < m.workspaces.all.len()
            ==> m.pointer_pressed(press).workspaces.active == at,
        press.taskbar == Some(TaskbarHit::Launch(at)) ==> {
            let n = m.pointer_pressed(press);
            &&& n.outbox == m.outbox.push(Effect::Launch { index: at }).push(
                Effect::ScheduleRender,
            )
            &&& n.scene == m.scene
            &&& n.workspaces == m.workspaces
        },
{
    let a = m.event_counted();
    law_taskbar_click_goes_to_the_window(a, vid);
    lemma_switch_keeps_members(a, at as int, a.workspaces.active);
}

/// A release ends a resize, else belongs to a client's drag-and-drop, else
/// ends a drag, else is the window's that was selected.
pub proof fn law_release_ends_what_was_held(
    m: GlassModel,
    under: Under,
    hit: Option<ContentHit>,
    vid: VisualId,
    i: int,
)
    ensures
        ({
            let n = m.pointer_released(under, hit);
            &&& m.resize_session is Some ==> n.resize_session is None && n.outbox.last()
                == Effect::ScheduleRender && n.input.dragging == m.input.dragging
            &&& m.resize_session is None && !m.input.dnd_active && m.input.dragging is Some ==> {
                &&& n.input.dragging is None
                &&& n.outbox == m.outbox.push(Effect::EndDrag).push(Effect::FlushClients)
                &&& n.scene == m.scene
            }
            &&& m.resize_session is None && !m.input.dnd_active && m.input.dragging is None
                && m.scene.selected_id == Some(vid) && is_visual(m.scene, vid, i)
                && m.scene.visuals[i].connected && hit is Some && !hit.unwrap().on_title
                && m.surface_of(vid) is Some ==> {
                &&& n.outbox == m.outbox.push(
                    Effect::PointerButton {
                        surface: m.surface_of(vid),
                        pressed: false,
                        serial: n.input.event_serial,
                    },
                ).push(Effect::FlushClients)
                &&& n.scene == m.scene
            }
            &&& n.input.last_down_vid is None
        }),
{
    if is_visual(m.scene, vid, i) {
        lemma_visual(m.scene, vid, i);
    }
    if m.resize_session is Some {
        let a = m.event_counted();
        let b = GlassModel { input: InputState { last_down_vid: None, ..a.input }, ..a };
        assert(b.session_finished().input == b.input);
    }
}

/// During a client's drag-and-drop a press and a release go to the surface
/// under the pointer, or to none.
pub proof fn law_client_drag_hears_the_button(
    m: GlassModel,
    press: PointerPress,
    hit: Option<ContentHit>,
    vid: VisualId,
    i: int,
    s: SurfaceId,
)
    requires
        m.input.dnd_active,
        m.resize_session is None,
        press.taskbar is None,
        press.under.picked == Some(vid),
        press.under.on_content,
        is_visual(m.scene, vid, i),
        m.scene.visuals[i].connected,
        m.surface_of(vid) == Some(s),
    ensures
        ({
            let n = m.pointer_pressed(press);
            &&& n.outbox == m.outbox.push(
                Effect::PointerButton {
                    surface: Some(s),
                    pressed: true,
                    serial: n.input.event_serial,
                },
            ).push(Effect::FlushClients)
            &&& n.scene == m.scene
        }),
        ({
            let n = m.pointer_released(press.under, hit);
            &&& n.outbox == m.outbox.push(
                Effect::PointerButton {
                    surface: Some(s),
                    pressed: false,
                    serial: n.input.event_serial,
                },
            ).push(Effect::ScheduleRender).push(Effect::FlushClients)
            &&& n.scene == m.scene
        }),
{
    lemma_visual(m.scene, vid, i);
}

/// A pointer that no client holds and no button steers.
pub open spec fn is_free(m: GlassModel) -> bool {
    &&& !m.constraints.pointer_locked
    &&& m.constraints.confined_surface is None
    &&& m.input.nav_button != 2
    &&& m.input.nav_button != 3
}

/// While a client holds the pointer, its motions go to that client alone.
pub proof fn law_held_pointer_is_the_clients(
    m: GlassModel,
    motion: PointerMove,
    s: SurfaceId,
    shown: u64,
)
    ensures
        m.constraints.pointer_locked && m.constraints.locked_surface == Some(s) ==> {
            let n = m.pointer_moved(motion);
            &&& n.outbox == m.outbox.push(
                Effect::LockedMotion { surface: s, serial: n.input.event_serial },
            )
            &&& n.input.event_serial == succ(m.input.event_serial)
            &&& n.scene == m.scene && n.camera == m.camera
        },
        !m.constraints.pointer_locked && m.constraints.confined_surface == Some(s)
            && crate::table::key_of(m.surfaces, s) == Some(shown) && m.scene.has(VisualId(shown))
            ==> {
            let n = m.pointer_moved(motion);
            &&& n.outbox == m.outbox.push(
                Effect::ConfinedMotion { surface: s, serial: n.input.event_serial },
            )
            &&& n.input.event_serial == succ(m.input.event_serial)
            &&& n.scene == m.scene && n.camera == m.camera
        },
{
}

/// With the right button held the camera orbits, with the middle one it
/// pans, and the workspace stops turning by itself.
pub proof fn law_camera_buttons_steer(m: GlassModel, motion: PointerMove)
    requires
        m.wf(),
        !m.constraints.pointer_locked,
        m.constraints.confined_surface is None,
    ensures
        m.input.nav_button == 3 ==> {
            let n = m.pointer_moved(motion);
            &&& n.outbox == m.outbox.push(Effect::OrbitCamera)
            &&& !n.workspaces.all[m.workspaces.active].auto_orbit
            &&& n.scene == m.scene
        },
        m.input.nav_button == 2 ==> {
            let n = m.pointer_moved(motion);
            &&& n.outbox == m.outbox.push(Effect::PanCamera)
            &&& !n.workspaces.all[m.workspaces.active].auto_orbit
            &&& n.scene == m.scene
        },
{
}

/// A motion with a window held moves that window to the pose the motion
/// makes, and nothing else.
pub proof fn law_drag_moves_the_window(
    m: GlassModel,
    motion: PointerMove,
    vid: VisualId,
    i: int,
    t: Transform3D,
)
    requires
        is_free(m),
        !m.input.dnd_active,
        m.resize_session is None,
        m.input.dragging == Some(vid),
        is_visual(m.scene, vid, i),
    ensures
        motion.dragged == Some(t) ==> {
            let n = m.pointer_moved(motion);
            &&& n.scene.visuals[i] == (Visual { transform: t, ..m.scene.visuals[i] })
            &&& same_but(m.scene, n.scene, i)
            &&& n == (GlassModel { scene: n.scene, ..m })
        },
        motion.dragged is None ==> m.pointer_moved(motion) == m,
{
    lemma_visual(m.scene, vid, i);
    lemma_changed(m.scene, vid, i, Visual { transform: t, ..m.scene.visuals[i] });
}

/// A motion during a resize is the resize's: the session gets the size and
/// position it makes, and a frame is due.
pub proof fn law_motion_resizes(
    m: GlassModel,
    motion: PointerMove,
    size: (i32, i32),
    position: Vec3,
)
    requires
        is_free(m),
        !m.input.dnd_active,
        m.resize_session is Some,
    ensures
        motion.resize == Some((size, position)) ==> m.pointer_moved(motion) == m.session_updated(
            size,
            position,
        ).ordering(Effect::ScheduleRender),
        motion.resize is None ==> m.pointer_moved(motion) == m.ordering(Effect::ScheduleRender),
{
}

/// A motion over a client's content goes to the surface there and no
/// other; off every surface the client that had the pointer is told once.
pub proof fn law_hover_goes_to_what_is_under_the_pointer(
    m: GlassModel,
    motion: PointerMove,
    vid: VisualId,
    i: int,
    s: SurfaceId,
)
    requires
        is_free(m),
        !m.input.dnd_active,
        m.resize_session is None,
        m.input.dragging is None,
        motion.pending is None,
    ensures
        motion.under.picked == Some(vid) && motion.under.on_content && is_visual(m.scene, vid, i)
            && m.scene.visuals[i].connected && m.surface_of(vid) == Some(s) ==> {
            let n = m.pointer_moved(motion);
            &&& n.outbox == m.outbox.push(
                Effect::PointerMotion { surface: Some(s), serial: n.input.event_serial },
            )
            &&& n.scene.hovered_id == Some(vid)
            &&& n.scene.visuals == m.scene.visuals
            &&& n.input.last_wayland_focus == Some(s)
            &&& n.constraints == m.constraints
        },
        motion.under.picked is None || !motion.under.on_content ==> {
            let n = m.pointer_moved(motion);
            &&& n.scene.hovered_id is None
            &&& n.input.last_wayland_focus is None
            &&& m.input.last_wayland_focus is Some ==> n.outbox == m.outbox.push(
                Effect::PointerMotion { surface: None, serial: n.input.event_serial },
            )
            &&& m.input.last_wayland_focus is None ==> n.outbox == m.outbox
        },
{
    if is_visual(m.scene, vid, i) {
        lemma_visual(m.scene, vid, i);
    }
}

/// A constraint that waited starts when the pointer comes to its surface:
/// a lock locks, a confinement confines, each to that surface.
pub proof fn law_waiting_constraint_starts(
    m: GlassModel,
    under: Under,
    kind: ConstraintKind,
    vid: VisualId,
    i: int,
    s: SurfaceId,
)
    requires
        under.picked == Some(vid),
        under.on_content,
        is_visual(m.scene, vid, i),
        m.scene.visuals[i].connected,
        m.surface_of(vid) == Some(s),
    ensures
        ({
            let n = m.hovered(under, Some(kind));
            &&& n.outbox == m.outbox.push(
                Effect::PointerMotion { surface: Some(s), serial: n.input.event_serial },
            ).push(Effect::ActivateConstraint { surface: s })
            &&& kind == ConstraintKind::Locked ==> n.constraints == (PointerConstraints {
                pointer_locked: true,
                locked_surface: Some(s),
                ..m.constraints
            })
            &&& kind == ConstraintKind::Confined ==> n.constraints == (PointerConstraints {
                confined_surface: Some(s),
                ..m.constraints
            })
        }),
{
    lemma_visual(m.scene, vid, i);
}

/// The wheel scrolls the surface under the pointer, and anywhere else
/// zooms the camera.
pub proof fn law_wheel_scrolls_or_zooms(
    m: GlassModel,
    under: Under,
    horizontal: bool,
    vid: VisualId,
    i: int,
    s: SurfaceId,
)
    ensures
        under.picked == Some(vid) && under.on_content && is_visual(m.scene, vid, i)
            && m.scene.visuals[i].connected && m.surface_of(vid) == Some(s) ==> {
            let n = m.scrolled(under, horizontal);
            &&& n.outbox == m.outbox.push(
                Effect::PointerMotion { surface: Some(s), serial: n.input.event_serial },
            ).push(Effect::PointerAxis { surface: s })
            &&& n.scene == m.scene
        },
        under.picked is None || !under.on_content ==> m.scrolled(under, horizontal) == (GlassModel {
            outbox: m.outbox.push(Effect::ZoomCamera { horizontal }),
            ..m
        }),
{
    if is_visual(m.scene, vid, i) {
        lemma_visual(m.scene, vid, i);
    }
}

/// A press on something that is not on the shown workspace selects nothing
/// and takes the keyboard from everybody.
pub proof fn law_press_elsewhere_selects_nothing(m: GlassModel, press: PointerPress, vid: VisualId)
    requires
        m.wf(),
        press.taskbar is None,
        !m.input.dnd_active,
        m.focus_manager.camera_mode == CameraMode::Normal,
        press.grasped == Some(vid),
        !press.drags,
        !m.workspaces.all[m.workspaces.active].visual_ids.contains(vid),
    ensures
        ({
            let n = m.pointer_pressed(press);
            &&& n.scene.selected_id is None
            &&& n.scene.focused_id is None
            &&& n.input.last_down_vid is None
            &&& n.input.dragging is None
            &&& n.scene.visuals == m.scene.visuals
            &&& n.outbox == m.outbox.push(Effect::FlushClients)
        }),
{
}

/// A click on a window in the overview of the workspaces leaves the
/// overview for the window's workspace, and the window has the keyboard
/// there.
pub proof fn law_click_over_the_workspaces_goes_there(
    m: GlassModel,
    press: PointerPress,
    vid: VisualId,
    w: int,
)
    requires
        m.wf(),
        press.taskbar is None,
        !m.input.dnd_active,
        m.focus_manager.camera_mode == CameraMode::WorkspaceOverview,
        press.grasped == Some(vid),
        is_home(m.workspaces, vid, w),
        w != m.workspaces.active,
    ensures
        ({
            let n = m.pointer_pressed(press);
            &&& n.workspaces.active == w
            &&& n.camera == m.workspaces.all[w].camera
            &&& n.scene.focused_id == Some(vid)
            &&& n.focus_manager.camera_mode == CameraMode::Normal
        }),
{
    lemma_home_index(m.workspaces.all, vid, w);
    let a = m.event_counted().grasping(press);
    law_travel_glides(a, vid);
    law_switch_leaves_camera_modes(a.overview_left(), w);
    lemma_focus(a.overview_left().switched(w), Some(vid));
}

/// A dragged window snaps to the other windows of the workspace that
/// layout places, and to nothing else.
pub proof fn law_drag_snaps_to_its_neighbours(
    vid: VisualId,
    detached: Seq<VisualId>,
    shown: Seq<VisualId>,
    v: Visual,
)
    ensures
        v.id == vid ==> !snaps(vid, detached, shown)(v),
        detached.contains(v.id) ==> !snaps(vid, detached, shown)(v),
        !shown.contains(v.id) ==> !snaps(vid, detached, shown)(v),
        v.id != vid && !detached.contains(v.id) && shown.contains(v.id) ==> snaps(
            vid,
            detached,
            shown,
        )(v),
{
}

/// What can be picked is in the scene and not hidden there.
pub proof fn law_hidden_visual_is_not_picked(scene: SceneModel, vid: VisualId, i: int)
    ensures
        is_visual(scene, vid, i) ==> visible_in(scene)(vid) == (scene.visuals[i].window_state
            == WindowState::Normal),
        is_fresh_id(scene, vid) ==> !visible_in(scene)(vid),
{
    if is_visual(scene, vid, i) {
        lemma_visual(scene, vid, i);
    }
}

} // verus!
