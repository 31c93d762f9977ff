//! What rooms are for: each keeps its own view and windows, is saved and
//! comes back so, and every window can be found from the taskbar.
use vstd::prelude::*;

use crate::closed::entry_matches;
use crate::compositor::command_laws::lemma_focus;
use crate::compositor::commit::map_angle;
use crate::compositor::focus_laws::{
    lemma_leaving_moves_nothing, lemma_switch_keeps_members, same_windows,
};
use crate::compositor::focusing::lemma_window_index;
use crate::compositor::keyboard::{launch_index, lemma_launch_index, LaunchEntry};
use crate::compositor::minimizing::held_windows;
use crate::compositor::resizing::SizeLimits;
use crate::compositor::session::{
    law_every_window_is_saved, SavedVisualModel, SavedWorkspace,
};
use crate::compositor::state::{Effect, GlassModel, SavedVisual, SurfaceId, ToplevelInfo};
use crate::compositor::taskbar::{law_every_window_has_a_button, pinned, ButtonModel};
use crate::compositor::terms::{is_row, is_visual, lemma_row, lemma_visual, one_or_more};
use crate::focus::CameraMode;
use crate::focus_history::{away, law_cycle_takes_the_first, law_cycle_takes_the_next};
use crate::scene::{Visual, VisualId, WindowState};
use crate::text::{trimmed, Margin};
use crate::workspace::{LayoutMode, WorkspaceModel};

verus! {

/// A window may have focus exactly if it is on the shown workspace, in the
/// scene and not hidden there, and not minimized.
pub proof fn law_who_may_have_focus(m: GlassModel, vid: VisualId, k: int, i: int)
    requires
        is_row(m, vid, k),
        is_visual(m.scene, vid, i),
    ensures
        m.focusable(vid) == (m.workspaces.all[m.workspaces.active].visual_ids.contains(vid)
            && m.scene.visuals[i].window_state == WindowState::Normal
            && !m.toplevels[k].minimized),
{
    lemma_row(m, vid, k);
    lemma_visual(m.scene, vid, i);
}

/// Showing another workspace keeps with the one that is left its camera,
/// its focused window and what layout leaves alone, and takes all of that
/// from the one that is shown; no pointer constraint, drag or resize
/// outlives it, and the camera glides from where it was to where it is.
pub proof fn law_switch_exchanges_the_rooms(m: GlassModel, idx: int)
    requires
        m.wf(),
        0 <= idx < m.workspaces.all.len(),
        idx != m.workspaces.active,
        m.resize_session is None,
    ensures
        ({
            let n = m.switched(idx);
            let left = n.workspaces.all[m.workspaces.active];
            &&& n.workspaces.active == idx
            &&& n.workspaces.all.len() == m.workspaces.all.len()
            &&& left.camera == m.camera
            &&& left.focused_id == m.scene.focused_id
            &&& left.detached_set == m.scene.detached_set
            &&& left.visual_ids == m.workspaces.all[m.workspaces.active].visual_ids
            &&& left.layout_mode == m.workspaces.all[m.workspaces.active].layout_mode
            &&& forall|j: int|
                0 <= j < n.workspaces.all.len() && j != m.workspaces.active
                    ==> #[trigger] n.workspaces.all[j] == m.workspaces.all[j]
            &&& n.camera == m.workspaces.all[idx].camera
            &&& n.scene.detached_set == m.workspaces.all[idx].detached_set
            &&& n.focus_manager.camera_mode == CameraMode::Normal
            &&& n.focus_manager.saved_camera is None
            &&& n.focus_manager.transition matches Some(t) && t.source_camera == m.camera
                && t.target_camera == n.camera && t.progress == 0
            &&& n.input.dragging is None
            &&& n.constraints.locked_surface is None
            &&& n.constraints.confined_surface is None
            &&& m.constraints.locked_surface matches Some(s) ==> n.outbox[m.outbox.len() as int]
                == (Effect::DeactivateConstraint { surface: s })
            &&& m.constraints.locked_surface is None && m.constraints.confined_surface is None
                && m.input.dragging is Some ==> n.outbox[m.outbox.len() as int]
                == Effect::EndDrag
            &&& n.outbox.last() == Effect::FitCamera
            &&& same_windows(m.scene.visuals, n.scene.visuals)
        }),
{
    lemma_leaving_moves_nothing(m);
    let l = m.workspace_left();
    let v = l.view_restored(idx);
    lemma_focus(v, v.arrival_focus());
    let n = m.switched(idx);
    assert forall|j: int| 0 <= j < n.workspaces.all.len() && j != m.workspaces.active implies
        #[trigger] n.workspaces.all[j] == m.workspaces.all[j] by {
        lemma_switch_keeps_members(m, idx, j);
    }
    assert forall|j: int| 0 <= j < m.scene.visuals.len() implies (#[trigger] m.scene.visuals[j]).id
        == n.scene.visuals[j].id && m.scene.visuals[j].transform == n.scene.visuals[j].transform
        && m.scene.visuals[j].window_state == n.scene.visuals[j].window_state by {
        assert(n.scene.visuals[j] == (Visual {
            chrome_focused: Some(v.scene.visuals[j].id) == v.arrival_focus(),
            ..v.scene.visuals[j]
        }));
    }
}

/// Focus on a workspace that is shown goes back to who had it there, if
/// that window may still have it.
pub proof fn law_focus_comes_back_to_the_room(
    m: GlassModel,
    idx: int,
    vid: VisualId,
    k: int,
    i: int,
)
    requires
        m.wf(),
        0 <= idx < m.workspaces.all.len(),
        idx != m.workspaces.active,
        m.workspaces.all[idx].focused_id == Some(vid),
        m.workspaces.all[idx].visual_ids.contains(vid),
        is_row(m, vid, k),
        is_visual(m.scene, vid, i),
        m.scene.visuals[i].window_state == WindowState::Normal,
        !m.toplevels[k].minimized,
        m.resize_session is None,
    ensures
        m.switched(idx).scene.focused_id == Some(vid),
{
    lemma_leaving_moves_nothing(m);
    let l = m.workspace_left();
    assert(l.toplevels == m.toplevels);
    let v = l.view_restored(idx);
    assert(is_row(v, vid, k));
    assert(is_visual(v.scene, vid, i));
    law_who_may_have_focus(v, vid, k, i);
    assert(v.workspaces.all[idx] == m.workspaces.all[idx]);
    assert(v.arrival_focus() == Some(vid));
}

/// A round of switching goes along the history from the window that has
/// focus to the next one that may have it: `d` steps on, with nobody in
/// between that may, forwards towards the less recent or backwards.
pub proof fn law_switching_goes_along_the_history(
    m: GlassModel,
    forward: bool,
    p: int,
    d: int,
)
    requires
        m.mru.no_duplicates(),
        0 <= p < m.mru.len(),
        m.scene.focused_id == Some(m.mru[p]),
        1 <= d < m.mru.len(),
        ({
            let at = away(m.mru.len() as int, p, d, forward);
            m.focusable(m.mru[at])
        }),
        forall|e: int|
            1 <= e < d ==> !m.focusable(
                m.mru[#[trigger] away(m.mru.len() as int, p, e, forward)],
            ),
    ensures
        m.app_switched(forward).scene.focused_id == Some(
            m.mru[away(m.mru.len() as int, p, d, forward)],
        ),
        m.app_switched(forward).scene.selected_id == m.app_switched(forward).scene.focused_id,
{
    law_cycle_takes_the_next(m.mru, p, d, forward, |v: VisualId| m.focusable(v));
    let at = away(m.mru.len() as int, p, d, forward);
    lemma_focus(m, Some(m.mru[at]));
}

/// Every window that is on a workspace is saved with its application, its
/// pose, that workspace, and whether layout leaves it alone there.
pub proof fn law_window_is_saved_as_it_is(m: GlassModel, w: int, vid: VisualId, k: int, i: int)
    requires
        0 <= w < m.workspaces.all.len(),
        m.workspaces.all[w].visual_ids.contains(vid),
        is_row(m, vid, k),
        is_visual(m.scene, vid, i),
    ensures
        m.saved_upto(m.workspaces.all.len() as int).contains(
            SavedVisualModel {
                app_id: m.toplevels[k].app_id@,
                workspace: w,
                transform: m.scene.visuals[i].transform,
                detached: m.workspaces.all[w].detached_set.contains(vid),
            },
        ),
{
    lemma_row(m, vid, k);
    lemma_visual(m.scene, vid, i);
    lemma_window_index(m.toplevels, vid, k);
    law_every_window_is_saved(m, w, vid);
}

/// Nothing else is saved: every entry is a window that is in the scene and
/// on the workspace it is saved with.
pub proof fn law_only_windows_are_saved(m: GlassModel, n: int, at: int)
    requires
        0 <= n <= m.workspaces.all.len(),
        0 <= at < m.saved_upto(n).len(),
    ensures
        ({
            let e = m.saved_upto(n)[at];
            exists|vid: VisualId|
                {
                    &&& 0 <= e.workspace < n
                    &&& #[trigger] m.workspaces.all[e.workspace].visual_ids.contains(vid)
                    &&& m.scene.has(vid)
                    &&& e.transform == m.scene.visual(vid).transform
                    &&& e.detached == m.workspaces.all[e.workspace].detached_set.contains(vid)
                }
        }),
    decreases n,
{
    let ids = m.workspaces.all[n - 1].visual_ids;
    if at < m.saved_upto(n - 1).len() {
        law_only_windows_are_saved(m, n - 1, at);
        assert(m.saved_upto(n)[at] == m.saved_upto(n - 1)[at]);
    } else {
        let j = at - m.saved_upto(n - 1).len();
        assert(m.saved_upto(n)[at] == m.saved_in(n - 1, ids.len() as int)[j]);
        lemma_saved_from(m, n - 1, ids.len() as int, j);
    }
}

proof fn lemma_saved_from(m: GlassModel, w: int, k: int, j: int)
    requires
        0 <= w < m.workspaces.all.len(),
        0 <= k <= m.workspaces.all[w].visual_ids.len(),
        0 <= j < m.saved_in(w, k).len(),
    ensures
        ({
            let e = m.saved_in(w, k)[j];
            &&& e.workspace == w
            &&& exists|vid: VisualId|
                {
                    &&& #[trigger] m.workspaces.all[w].visual_ids.contains(vid)
                    &&& m.scene.has(vid)
                    &&& e.transform == m.scene.visual(vid).transform
                    &&& e.detached == m.workspaces.all[w].detached_set.contains(vid)
                }
        }),
    decreases k,
{
    let vid = m.workspaces.all[w].visual_ids[k - 1];
    if m.is_saved(vid) && j == m.saved_in(w, k).len() - 1 {
        assert(m.workspaces.all[w].visual_ids.contains(vid));
    } else {
        lemma_saved_from(m, w, k - 1, j);
    }
}

/// A saved session is taken over: each workspace that is there gets the
/// view that was saved of it, the camera that of the first, and the saved
/// windows are waited for.
pub proof fn law_saved_session_is_taken_over(
    m: GlassModel,
    workspaces: Seq<SavedWorkspace>,
    visuals: Seq<SavedVisual>,
    w: int,
)
    requires
        0 <= w < m.workspaces.all.len(),
    ensures
        ({
            let n = m.with_saved(workspaces, visuals);
            let was = m.workspaces.all[w];
            let now = n.workspaces.all[w];
            &&& n.saved == visuals
            &&& n.workspaces.active == m.workspaces.active
            &&& n.workspaces.all.len() == m.workspaces.all.len()
            &&& w < workspaces.len() ==> {
                &&& now.camera.position == workspaces[w].camera.position
                &&& now.camera.yaw == workspaces[w].camera.yaw
                &&& now.camera.pitch == workspaces[w].camera.pitch
                &&& now.camera.bookmarks == was.camera.bookmarks
                &&& workspaces[w].layout_mode@ == "flat"@ ==> now.layout_mode
                    == LayoutMode::Flat
                &&& workspaces[w].layout_mode@ == "freeform"@ ==> now.layout_mode
                    == LayoutMode::Freeform
            }
            &&& w >= workspaces.len() ==> now == was
            &&& now.visual_ids == was.visual_ids
            &&& workspaces.len() > 0 ==> {
                &&& n.camera.position == workspaces[0].camera.position
                &&& n.camera.yaw == workspaces[0].camera.yaw
                &&& n.camera.pitch == workspaces[0].camera.pitch
            }
            &&& workspaces.len() == 0 ==> n.camera == m.camera
            &&& n.scene == m.scene
        }),
{
    reveal_strlit("flat");
    reveal_strlit("freeform");
    assert("flat"@.len() != "freeform"@.len());
}

/// The button of a window says which window it is, where it lives, whether
/// it has focus and whether it is minimized, and goes by its title, or
/// without one by its application.
pub proof fn law_button_shows_its_window(m: GlassModel, w: int, vid: VisualId, k: int)
    requires
        m.wf(),
        0 <= w < m.workspaces.all.len(),
        m.workspaces.all[w].visual_ids.contains(vid),
        is_row(m, vid, k),
    ensures
        exists|b: ButtonModel|
            {
                &&& #[trigger] m.taskbar().contains(b)
                &&& b.vid == vid
                &&& b.workspace == w
                &&& b.focused == (m.scene.focused_id == Some(vid))
                &&& b.minimized == m.toplevels[k].minimized
                &&& b.label == if trimmed(m.toplevels[k].title@, Margin::Blanks).len() > 0 {
                    trimmed(m.toplevels[k].title@, Margin::Blanks)
                } else {
                    m.toplevels[k].app_id@
                }
            },
{
    lemma_row(m, vid, k);
    law_every_window_has_a_button(m, w, vid);
    assert(m.taskbar().contains(m.button(vid, w)));
}

/// Every button is of a window that is on the workspace the button names.
pub proof fn law_buttons_are_of_windows(m: GlassModel, n: int, at: int)
    requires
        m.wf(),
        0 <= n <= m.workspaces.all.len(),
        0 <= at < m.buttons_upto(n).len(),
    ensures
        ({
            let b = m.buttons_upto(n)[at];
            &&& 0 <= b.workspace < n
            &&& m.workspaces.all[b.workspace as int].visual_ids.contains(b.vid)
            &&& b.focused == (m.scene.focused_id == Some(b.vid))
        }),
    decreases n,
{
    let ids = m.workspaces.all[n - 1].visual_ids;
    if at < m.buttons_upto(n - 1).len() {
        law_buttons_are_of_windows(m, n - 1, at);
        assert(m.buttons_upto(n)[at] == m.buttons_upto(n - 1)[at]);
    } else {
        let j = at - m.buttons_upto(n - 1).len();
        assert(m.buttons_upto(n)[at] == m.buttons_in(n - 1, ids.len() as int)[j]);
        lemma_buttons_from(m, n - 1, ids.len() as int, j);
    }
}

proof fn lemma_buttons_from(m: GlassModel, w: int, k: int, j: int)
    requires
        m.wf(),
        0 <= w < m.workspaces.all.len(),
        0 <= k <= m.workspaces.all[w].visual_ids.len(),
        0 <= j < m.buttons_in(w, k).len(),
    ensures
        ({
            let b = m.buttons_in(w, k)[j];
            &&& b.workspace == w
            &&& m.workspaces.all[w].visual_ids.contains(b.vid)
            &&& b.focused == (m.scene.focused_id == Some(b.vid))
        }),
    decreases k,
{
    let vid = m.workspaces.all[w].visual_ids[k - 1];
    if m.is_window(vid) && j == m.buttons_in(w, k).len() - 1 {
    } else {
        lemma_buttons_from(m, w, k - 1, j);
    }
}

/// The input method's popups hang on the window of the text field from
/// when it is asked about, and the answer is that window's size.
pub proof fn law_text_field_anchors_the_input_method(
    m: GlassModel,
    parent: SurfaceId,
    vid: VisualId,
    i: int,
)
    requires
        m.visual_of_surface(parent) == Some(vid),
        is_visual(m.scene, vid, i),
    ensures
        m.ime_anchored(parent) == (GlassModel { ime_parent: Some(vid), ..m }),
        m.parent_rectangle(parent) == (
            (0i32, 0i32),
            (m.scene.visuals[i].width, m.scene.visuals[i].height),
        ),
{
    lemma_visual(m.scene, vid, i);
}

/// A session starts with nothing open, straight in front of the room at
/// the default distance, in spatial mode, with no key or button held.
pub proof fn law_session_starts_with_nothing(m: GlassModel)
    requires
        m.is_fresh(),
    ensures
        m.toplevels.len() == 0,
        m.scene.visuals.len() == 0,
        m.scene.focused_id is None,
        m.outbox.len() == 0,
        m.camera.position.x == 0,
        m.camera.position.y == 0,
        m.camera.position.z == 0x4448_0000u32,
        m.camera.yaw == 0,
        m.camera.pitch == 0,
        m.spatial.spatial_mode,
        m.focus_manager.camera_mode == CameraMode::Normal,
        m.focus_manager.saved_camera is None,
        m.focus_manager.transition is None,
        !m.input.ctrl_pressed,
        !m.input.shift_pressed,
        !m.input.alt_pressed,
        !m.input.meta_pressed,
        m.input.dragging is None,
        !m.menu.visible,
        m.resize_session is None,
        m.closed.entries.len() == 0,
        m.closed.cap == 10,
{
}

/// A new room is empty, is seen from the default distance, and leaves its
/// windows where they are put.
pub proof fn law_new_room_is_empty(w: WorkspaceModel)
    requires
        w.is_fresh(),
    ensures
        w.visual_ids.len() == 0,
        w.focused_id is None,
        w.detached_set.len() == 0,
        w.layout_mode == LayoutMode::Freeform,
        !w.auto_orbit,
        w.camera.position.x == 0,
        w.camera.position.y == 0,
        w.camera.position.z == 0x4448_0000u32,
        w.camera.yaw == 0,
        w.camera.pitch == 0,
        w.focus_manager_state.camera_mode == CameraMode::Normal,
        w.focus_manager_state.saved_camera is None,
{
}

/// An arrangement leaves alone exactly the windows that are maximized,
/// minimized or fullscreen.
pub proof fn law_held_windows_are_left_alone(s: Seq<ToplevelInfo>, vid: VisualId)
    ensures
        held_windows(s).contains(vid) <==> exists|k: int|
            0 <= k < s.len() && (#[trigger] s[k]).visual_id == Some(vid) && (s[k].maximized
                || s[k].minimized || s[k].fullscreened),
    decreases s.len(),
{
    if s.len() > 0 {
        let rest = s.drop_last();
        let t = s.last();
        law_held_windows_are_left_alone(rest, vid);
        let n = s.len() - 1;
        assert(s[n] == t);
        let held = held_windows(s);
        let before = held_windows(rest);
        if before.contains(vid) {
            let i = choose|i: int| 0 <= i < before.len() && before[i] == vid;
            assert(held[i] == vid);
            let k = choose|k: int|
                0 <= k < rest.len() && (#[trigger] rest[k]).visual_id == Some(vid) && (
                rest[k].maximized || rest[k].minimized || rest[k].fullscreened);
            assert(s[k] == rest[k]);
        }
        if t.visual_id == Some(vid) && (t.maximized || t.minimized || t.fullscreened) {
            assert(held[held.len() - 1] == vid);
        }
        if held.contains(vid) && !before.contains(vid) {
            let i = choose|i: int| 0 <= i < held.len() && held[i] == vid;
            if i < before.len() {
                assert(before[i] == vid);
            }
        }
        if exists|k: int|
            0 <= k < s.len() && (#[trigger] s[k]).visual_id == Some(vid) && (s[k].maximized
                || s[k].minimized || s[k].fullscreened) {
            let k = choose|k: int|
                0 <= k < s.len() && (#[trigger] s[k]).visual_id == Some(vid) && (s[k].maximized
                    || s[k].minimized || s[k].fullscreened);
            if k < n {
                assert(rest[k] == s[k]);
            }
        }
    }
}

/// The entry that is launched for an application is the first that goes by
/// its name.
pub proof fn law_first_entry_is_launched(s: Seq<LaunchEntry>, app_id: Seq<char>, k: int)
    requires
        0 <= k <= s.len(),
        k < s.len() ==> entry_matches(app_id, s[k].app_id@, s[k].name@),
        forall|j: int|
            0 <= j < k ==> !entry_matches(app_id, (#[trigger] s[j]).app_id@, s[j].name@),
    ensures
        launch_index(s, app_id) == k,
{
    lemma_launch_index(s, app_id, k);
}

/// Up to four entries are pinned.
pub proof fn law_four_entries_are_pinned(n: nat)
    ensures
        n <= 4 ==> pinned(n) == n,
        n > 4 ==> pinned(n) == 4,
{
}

/// Saving keeps the live camera with the shown workspace, and nothing else
/// changes.
pub proof fn law_saving_records_the_live_camera(m: GlassModel, w: int)
    requires
        m.wf(),
        0 <= w < m.workspaces.all.len(),
    ensures
        ({
            let n = m.camera_recorded();
            &&& n.workspaces.all[m.workspaces.active] == (WorkspaceModel {
                camera: m.camera,
                ..m.workspaces.all[m.workspaces.active]
            })
            &&& w != m.workspaces.active ==> n.workspaces.all[w] == m.workspaces.all[w]
            &&& n.camera == m.camera
            &&& n.scene == m.scene
        }),
{
}

/// Of three new windows the outer ones are turned to the middle, the one
/// as far as the other, and all others face the front.
pub proof fn law_new_windows_face_the_middle(i: int)
    ensures
        map_angle(0) == 5,
        map_angle(2) == -map_angle(0),
        i != 0 && i != 2 ==> map_angle(i) == 0,
{
}

/// The limits of a resize are the client's own: at least one pixel, and no
/// limit where the client sets none on either side.
pub proof fn law_size_limits_are_the_clients(l: SizeLimits)
    ensures
        l.floor().0 == one_or_more(l.min.0),
        l.floor().1 == one_or_more(l.min.1),
        l.max.0 <= 0 && l.max.1 <= 0 ==> l.ceiling() is None,
        0 < l.max.0 < i32::MAX ==> (l.ceiling() matches Some(s) && s.0 == l.max.0 && s.1 == if l.max.1
            > 0 {
            l.max.1
        } else {
            i32::MAX
        }),
        0 < l.max.1 < i32::MAX ==> (l.ceiling() matches Some(s) && s.1 == l.max.1 && s.0 == if l.max.0
            > 0 {
            l.max.0
        } else {
            i32::MAX
        }),
{
}

/// Where nobody had focus on a workspace, its window that had focus most
/// recently gets it when the workspace is shown.
pub proof fn law_arrival_takes_the_most_recent(
    m: GlassModel,
    idx: int,
    p: int,
    k: int,
    i: int,
)
    requires
        m.wf(),
        0 <= idx < m.workspaces.all.len(),
        idx != m.workspaces.active,
        m.workspaces.all[idx].focused_id is None,
        m.resize_session is None,
        0 <= p < m.mru.len(),
        m.workspaces.all[idx].visual_ids.contains(m.mru[p]),
        is_row(m, m.mru[p], k),
        is_visual(m.scene, m.mru[p], i),
        m.scene.visuals[i].window_state == WindowState::Normal,
        !m.toplevels[k].minimized,
        forall|j: int|
            0 <= j < p ==> !m.workspaces.all[idx].visual_ids.contains(#[trigger] m.mru[j]),
    ensures
        m.switched(idx).scene.focused_id == Some(m.mru[p]),
{
    lemma_leaving_moves_nothing(m);
    let l = m.workspace_left();
    assert(l.toplevels == m.toplevels);
    let v = l.view_restored(idx);
    let vid = m.mru[p];
    assert(is_row(v, vid, k));
    assert(is_visual(v.scene, vid, i));
    law_who_may_have_focus(v, vid, k, i);
    assert(v.workspaces.all[idx] == m.workspaces.all[idx]);
    assert(v.mru == m.mru);
    let ok = |x: VisualId| v.focusable(x);
    assert(ok(v.mru[p]));
    assert forall|j: int| 0 <= j < p implies !ok(#[trigger] v.mru[j]) by {
        assert(!m.workspaces.all[idx].visual_ids.contains(m.mru[j]));
    }
    law_cycle_takes_the_first(v.mru, p, ok);
    assert(v.arrival_focus() == Some(vid));
}

/// Where the history knows no window of a workspace, its first window that
/// may have focus gets it when the workspace is shown.
pub proof fn law_arrival_takes_the_first(m: GlassModel, idx: int, k: int, i: int)
    requires
        m.wf(),
        0 <= idx < m.workspaces.all.len(),
        idx != m.workspaces.active,
        m.workspaces.all[idx].focused_id is None,
        m.resize_session is None,
        m.mru.len() == 0,
        m.workspaces.all[idx].visual_ids.len() > 0,
        is_row(m, m.workspaces.all[idx].visual_ids[0], k),
        is_visual(m.scene, m.workspaces.all[idx].visual_ids[0], i),
        m.scene.visuals[i].window_state == WindowState::Normal,
        !m.toplevels[k].minimized,
    ensures
        m.switched(idx).scene.focused_id == Some(m.workspaces.all[idx].visual_ids[0]),
{
    lemma_leaving_moves_nothing(m);
    let l = m.workspace_left();
    assert(l.toplevels == m.toplevels);
    let v = l.view_restored(idx);
    let ids = m.workspaces.all[idx].visual_ids;
    assert(v.workspaces.all[idx] == m.workspaces.all[idx]);
    assert(is_row(v, ids[0], k));
    assert(is_visual(v.scene, ids[0], i));
    law_who_may_have_focus(v, ids[0], k, i);
    let ok = |x: VisualId| v.focusable(x);
    assert(ids.contains(ids[0]));
    assert(ok(ids[0]));
    law_cycle_takes_the_first(ids, 0, ok);
    assert(v.first_choice() == Some(ids[0]));
    assert(v.arrival_focus() == Some(ids[0]));
}

} // verus!
