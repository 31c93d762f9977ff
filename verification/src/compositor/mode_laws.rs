//! What camera modes are for: each shows what it says, and every way out
//! gives back the camera from before.
use vstd::prelude::*;

use crate::compositor::menu::Views;
use crate::compositor::state::{Effect, GlassModel, InputState};
use crate::focus::CameraMode;
use crate::input::{Camera, CameraView};
use crate::navigation::Binding;
use crate::scene::VisualId;

verus! {

/// Nothing but a camera mode is there for Escape to undo.
pub open spec fn is_at_rest(m: GlassModel) -> bool {
    &&& !m.constraints.pointer_locked
    &&& m.constraints.confined_surface is None
    &&& !m.input.dnd_active
    &&& m.input.dragging is None
}

/// The camera looks straight ahead from where a session starts, with the
/// settings and bookmarks of another.
pub open spec fn is_at_start(c: Camera, from: Camera) -> bool {
    &&& c.position.x == 0
    &&& c.position.y == 0
    &&& c.position.z == 0x4448_0000u32
    &&& c.yaw == 0
    &&& c.pitch == 0
    &&& c.speed == from.speed
    &&& c.sensitivity == from.sensitivity
    &&& c.zoom_speed == from.zoom_speed
    &&& c.bookmarks == from.bookmarks
}

/// The camera is at a view, with the settings and bookmarks of another.
pub open spec fn looks_at(c: Camera, view: CameraView, from: Camera) -> bool {
    &&& c.position == view.position
    &&& c.yaw == view.yaw
    &&& c.pitch == view.pitch
    &&& c.speed == from.speed
    &&& c.sensitivity == from.sensitivity
    &&& c.zoom_speed == from.zoom_speed
    &&& c.bookmarks == from.bookmarks
}

/// A camera mode was entered from `m`: it holds, the camera itself has not
/// moved, and what is shown goes from the camera to `target`.
pub open spec fn is_entered(m: GlassModel, n: GlassModel, mode: CameraMode, target: Camera) -> bool {
    &&& n.focus_manager.camera_mode == mode
    &&& n.camera == m.camera
    &&& n.focus_manager.saved_camera == Some(m.camera)
    &&& n.focus_manager.transition matches Some(t) && {
        &&& t.source_camera == m.camera
        &&& t.target_camera == target
        &&& t.progress == 0
    }
    &&& n == (GlassModel { focus_manager: n.focus_manager, ..m })
}

/// The camera mode was left with exactly this camera, and nothing else
/// changed.
pub open spec fn is_left(m: GlassModel, n: GlassModel, camera: Camera) -> bool {
    &&& n.focus_manager.camera_mode == CameraMode::Normal
    &&& n.focus_manager.transition is None
    &&& n.focus_manager.saved_camera is None
    &&& n.focus_manager.focus_target is None
    &&& n.camera == camera
    &&& n == (GlassModel { camera: n.camera, focus_manager: n.focus_manager, ..m })
}

/// Focus mode is entered for the window that has focus, and the camera
/// that frames it is approached.
pub proof fn law_focus_mode_follows_the_focused_window(m: GlassModel, views: Views, vid: VisualId)
    requires
        m.focus_manager.camera_mode == CameraMode::Normal,
        m.scene.focused_id == Some(vid),
    ensures
        is_entered(
            m,
            m.commanded_to(Binding::ToggleFocus, views),
            CameraMode::Focus(vid),
            views.focused,
        ),
        m.commanded_to(Binding::ToggleFocus, views).focus_manager.focus_target == Some(vid),
{
}

/// With nobody focused there is nothing to follow.
pub proof fn law_focus_mode_needs_a_window(m: GlassModel, views: Views)
    requires
        m.focus_manager.camera_mode == CameraMode::Normal,
        m.scene.focused_id is None,
    ensures
        m.commanded_to(Binding::ToggleFocus, views) == m,
{
}

/// The overview of the workspace is seen from the camera that shows all of
/// it; an empty workspace has none.
pub proof fn law_overview_shows_the_workspace(m: GlassModel, views: Views)
    requires
        m.focus_manager.camera_mode == CameraMode::Normal || m.focus_manager.camera_mode is Focus,
    ensures
        views.overview matches Some(c) ==> is_entered(
            m,
            m.commanded_to(Binding::ToggleOverview, views),
            CameraMode::Overview,
            c,
        ),
        views.overview is None ==> m.commanded_to(Binding::ToggleOverview, views) == m,
{
}

/// The overview of the workspaces is seen from far off, a little from
/// above.
pub proof fn law_workspace_overview_is_seen_from_far(m: GlassModel, views: Views)
    requires
        m.focus_manager.camera_mode != CameraMode::WorkspaceOverview,
    ensures
        ({
            let n = m.commanded_to(Binding::ToggleWorkspaceOverview, views);
            let c = n.focus_manager.transition.unwrap().target_camera;
            &&& is_entered(m, n, CameraMode::WorkspaceOverview, c)
            &&& c.position.x == 0
            &&& c.position.y == 0
            &&& c.position.z == 0x453b_8000u32
            &&& c.yaw == 0
            &&& c.pitch == 0xbe99_999au32
        }),
{
}

/// With no constraint, drag or client drag-and-drop going on, Escape in
/// focus mode ends in the normal mode with exactly the camera from before
/// the mode, wherever the camera went meanwhile.
pub proof fn law_escape_leaves_focus_mode(
    m: GlassModel,
    views: Views,
    vid: VisualId,
    meanwhile: Camera,
    later: Views,
)
    requires
        m.focus_manager.camera_mode == CameraMode::Normal,
        m.scene.focused_id == Some(vid),
        is_at_rest(m),
    ensures
        ({
            let n = GlassModel {
                camera: meanwhile,
                ..m.commanded_to(Binding::ToggleFocus, views)
            };
            &&& is_left(n, n.escaped(), m.camera)
            &&& is_left(n, n.commanded_to(Binding::Escape, later), m.camera)
            &&& is_left(n, n.commanded_to(Binding::ToggleFocus, later), m.camera)
        }),
{
}

/// The same of the overview of the workspace.
pub proof fn law_escape_leaves_the_overview(
    m: GlassModel,
    views: Views,
    meanwhile: Camera,
    later: Views,
)
    requires
        m.focus_manager.camera_mode == CameraMode::Normal,
        views.overview is Some,
        is_at_rest(m),
    ensures
        ({
            let n = GlassModel {
                camera: meanwhile,
                ..m.commanded_to(Binding::ToggleOverview, views)
            };
            &&& is_left(n, n.escaped(), m.camera)
            &&& is_left(n, n.commanded_to(Binding::Escape, later), m.camera)
            &&& is_left(n, n.commanded_to(Binding::ToggleOverview, later), m.camera)
            &&& is_left(n, n.commanded_to(Binding::ToggleFocus, later), m.camera)
        }),
{
}

/// The same of the overview of the workspaces.
pub proof fn law_escape_leaves_the_workspace_overview(
    m: GlassModel,
    views: Views,
    meanwhile: Camera,
    later: Views,
)
    requires
        m.focus_manager.camera_mode == CameraMode::Normal,
        is_at_rest(m),
    ensures
        ({
            let n = GlassModel {
                camera: meanwhile,
                ..m.commanded_to(Binding::ToggleWorkspaceOverview, views)
            };
            &&& is_left(n, n.escaped(), m.camera)
            &&& is_left(n, n.commanded_to(Binding::Escape, later), m.camera)
            &&& is_left(n, n.commanded_to(Binding::ToggleWorkspaceOverview, later), m.camera)
            &&& is_left(n, n.commanded_to(Binding::ToggleOverview, later), m.camera)
            &&& is_left(n, n.commanded_to(Binding::ToggleFocus, later), m.camera)
        }),
{
}

/// In whatever camera mode, Escape with nothing else going on gives back
/// the camera that the mode saved.
pub proof fn law_escape_gives_the_saved_camera_back(m: GlassModel)
    requires
        m.focus_manager.camera_mode != CameraMode::Normal,
        is_at_rest(m),
    ensures
        m.focus_manager.saved_camera matches Some(c) ==> is_left(m, m.escaped(), c),
        m.focus_manager.saved_camera is None ==> is_left(m, m.escaped(), m.camera),
{
}

/// Escape in the normal mode with nothing going on puts the camera where a
/// session starts, and changes nothing else.
pub proof fn law_escape_resets_the_camera_last(m: GlassModel)
    requires
        m.focus_manager.camera_mode == CameraMode::Normal,
        is_at_rest(m),
    ensures
        is_at_start(m.escaped().camera, m.camera),
        m.escaped() == (GlassModel { camera: m.escaped().camera, ..m }),
{
}

/// Escape ends a drag before it touches the camera or its mode.
pub proof fn law_escape_ends_a_drag_first(m: GlassModel, vid: VisualId)
    requires
        !m.constraints.pointer_locked,
        m.constraints.confined_surface is None,
        !m.input.dnd_active,
        m.input.dragging == Some(vid),
    ensures
        m.escaped() == (GlassModel {
            input: InputState { dragging: None, ..m.input },
            outbox: m.outbox.push(Effect::EndDrag),
            ..m
        }),
{
}

/// Escape cancels a client's drag-and-drop before it touches a drag, the
/// camera or its mode.
pub proof fn law_escape_cancels_a_client_drag_first(m: GlassModel)
    requires
        !m.constraints.pointer_locked,
        m.constraints.confined_surface is None,
        m.input.dnd_active,
    ensures
        m.escaped() == (GlassModel {
            input: InputState { dnd_active: false, ..m.input },
            outbox: m.outbox.push(Effect::UnsetGrab).push(Effect::ScheduleRender),
            ..m
        }),
{
}

/// Escape frees a pointer that a client holds before it does anything
/// else: no constraint is left, and each surface that had one is told.
pub proof fn law_escape_frees_the_pointer_before_all(m: GlassModel)
    requires
        m.constraints.pointer_locked || m.constraints.confined_surface is Some,
        m.constraints.pointer_locked ==> m.constraints.locked_surface is Some,
    ensures
        ({
            let n = m.escaped();
            &&& !n.constraints.pointer_locked
            &&& n.constraints.locked_surface is None
            &&& n.constraints.confined_surface is None
            &&& n == (GlassModel { constraints: n.constraints, outbox: n.outbox, ..m })
            &&& m.constraints.locked_surface matches Some(s) ==> n.outbox[m.outbox.len() as int] == (
            Effect::DeactivateConstraint { surface: s })
            &&& m.constraints.confined_surface matches Some(s) ==> n.outbox.last() == (
            Effect::DeactivateConstraint { surface: s })
            &&& n.outbox.len() == m.outbox.len() + (if m.constraints.locked_surface is Some {
                1int
            } else {
                0
            }) + (if m.constraints.confined_surface is Some {
                1int
            } else {
                0
            })
        }),
{
}

/// Framing what is selected, or the whole room, moves the camera to the
/// view that does so; without a selection nothing is framed.
pub proof fn law_framing_moves_to_the_view(m: GlassModel, views: Views)
    ensures
        m.scene.selected_id is Some && views.selected is Some ==> looks_at(
            m.commanded_to(Binding::FrameSelected, views).camera,
            views.selected.unwrap(),
            m.camera,
        ),
        m.scene.selected_id is None || views.selected is None ==> m.commanded_to(
            Binding::FrameSelected,
            views,
        ) == m,
        views.all is Some ==> looks_at(
            m.commanded_to(Binding::FrameAll, views).camera,
            views.all.unwrap(),
            m.camera,
        ),
        views.all is None ==> is_at_start(
            m.commanded_to(Binding::FrameAll, views).camera,
            m.camera,
        ),
        is_at_start(m.commanded_to(Binding::ResetCamera, views).camera, m.camera),
{
}

/// Spatial mode is left and entered again: at the view it was left with,
/// else once at the view that fits, else where the camera is.
pub proof fn law_spatial_mode_is_toggled(m: GlassModel, views: Views)
    ensures
        ({
            let n = m.commanded_to(Binding::ToggleSpatial, views);
            &&& n.spatial.spatial_mode == !m.spatial.spatial_mode
            &&& n == (GlassModel { spatial: n.spatial, camera: n.camera, ..m })
            &&& m.spatial.spatial_mode ==> {
                &&& n.camera == m.camera
                &&& n.spatial.spatial_cam_pose == Some(
                    CameraView {
                        position: m.camera.position,
                        yaw: m.camera.yaw,
                        pitch: m.camera.pitch,
                    },
                )
                &&& n.spatial.spatial_cam_adapted == m.spatial.spatial_cam_adapted
            }
            &&& !m.spatial.spatial_mode ==> {
                &&& n.spatial.spatial_cam_pose is None
                &&& n.spatial.spatial_cam_adapted
                &&& m.spatial.spatial_cam_pose matches Some(v) ==> looks_at(n.camera, v, m.camera)
                &&& m.spatial.spatial_cam_pose is None && m.spatial.spatial_cam_adapted
                    ==> n.camera == m.camera
                &&& m.spatial.spatial_cam_pose is None && !m.spatial.spatial_cam_adapted
                    ==> looks_at(n.camera, views.fitted, m.camera)
            }
        }),
{
}

/// A saved bookmark is the view of that moment and touches no other slot
/// nor the camera; a slot that was never saved leaves the camera alone.
pub proof fn law_bookmark_keeps_the_view(m: GlassModel, slot: int, other: int, vid: VisualId)
    requires
        0 <= slot < 10,
        0 <= other < 10,
    ensures
        m.scene.selected_id == Some(vid) ==> {
            let n = m.bookmark_used(slot);
            &&& n.camera.bookmarks@[slot] == Some(
                CameraView {
                    position: m.camera.position,
                    yaw: m.camera.yaw,
                    pitch: m.camera.pitch,
                },
            )
            &&& other != slot ==> n.camera.bookmarks@[other] == m.camera.bookmarks@[other]
            &&& n.camera.position == m.camera.position
            &&& n.camera.yaw == m.camera.yaw
            &&& n.camera.pitch == m.camera.pitch
        },
        m.scene.selected_id is None ==> {
            let n = m.bookmark_used(slot);
            &&& m.camera.bookmarks@[slot] matches Some(v) ==> looks_at(n.camera, v, m.camera)
            &&& m.camera.bookmarks@[slot] is None ==> n == m
        },
{
}

/// A frame is seen from the transition while there is one; without one,
/// from the camera, or in focus mode from the camera that frames the
/// window. A window that is gone is not looked at.
pub proof fn law_frame_is_seen_from(
    m: GlassModel,
    blended: Option<Camera>,
    framing: Option<Camera>,
)
    ensures
        ({
            let c = m.focus_manager.shown_camera(m.camera, blended, framing);
            &&& m.focus_manager.camera_mode is Focus ==> {
                &&& framing is None ==> c == m.camera
                &&& framing is Some && blended is Some ==> c == blended.unwrap()
                &&& framing is Some && blended is None ==> c == framing.unwrap()
            }
            &&& !(m.focus_manager.camera_mode is Focus) ==> {
                &&& blended is Some ==> c == blended.unwrap()
                &&& blended is None ==> c == m.camera
            }
        }),
{
}

/// A frame turns the camera only as the view demands: the flat view pins
/// it at its distance, an orbit turns it and moves nothing, and the first
/// spatial frame fits it once.
pub proof fn law_frame_prepares_the_camera(
    m: GlassModel,
    orbit: (u32, u32),
    fitted: CameraView,
)
    requires
        m.wf(),
    ensures
        ({
            let n = m.camera_prepared(orbit, fitted);
            let turns = m.workspaces.all[m.workspaces.active].auto_orbit;
            let fits = !m.spatial.spatial_cam_adapted && m.spatial.spatial_cam_pose is None
                && m.focus_manager.transition is None;
            &&& !m.spatial.spatial_mode ==> {
                &&& n.camera.position.x == 0 && n.camera.position.y == 0
                &&& n.camera.position.z == 0x43fa_0000u32
                &&& n.camera.yaw == 0 && n.camera.pitch == 0
                &&& n.camera.bookmarks == m.camera.bookmarks
            }
            &&& m.spatial.spatial_mode && turns ==> {
                &&& n.camera.position == m.camera.position
                &&& n.camera.yaw == orbit.0
                &&& n.camera.pitch == orbit.1
                &&& n.camera.bookmarks == m.camera.bookmarks
            }
            &&& m.spatial.spatial_mode && !turns && fits ==> looks_at(n.camera, fitted, m.camera)
                && n.spatial.spatial_cam_adapted
            &&& m.spatial.spatial_mode && !turns && !fits ==> n.camera == m.camera
                && n.spatial == m.spatial
            &&& n.scene == m.scene && n.workspaces == m.workspaces && n.outbox == m.outbox
        }),
{
}

} // verus!
