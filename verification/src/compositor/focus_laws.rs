//! What holds of keyboard focus: who has it, who is remembered, and where
//! it goes.
use vstd::prelude::*;

use crate::compositor::focusing::is_window;
use crate::compositor::resizing::lemma_surface_index_bounds;
use crate::compositor::state::{GlassModel, ToplevelInfo};
use crate::focus::{starting, CameraMode};
use crate::focus_history::{
    law_cycle_finds_a_candidate, law_cycle_returns_focusable_other,
    law_replacement_is_most_recent, law_touch_moves_to_front, other_than, touched,
};
use crate::scene::{lemma_visual_index, visual_index, SceneModel, Visual, VisualId};
use crate::workspace::lemma_home_bounds;

verus! {

/// The same visuals in the same order, with the same poses and window
/// states.
pub open spec fn same_windows(a: Seq<Visual>, b: Seq<Visual>) -> bool {
    &&& a.len() == b.len()
    &&& forall|i: int|
        0 <= i < a.len() ==> (#[trigger] a[i]).id == b[i].id && a[i].transform == b[i].transform
            && a[i].window_state == b[i].window_state
}

/// The same toplevels in the same order, shown by the same visuals and in
/// the same states.
pub open spec fn same_rows(a: Seq<ToplevelInfo>, b: Seq<ToplevelInfo>) -> bool {
    &&& a.len() == b.len()
    &&& forall|i: int|
        0 <= i < a.len() ==> (#[trigger] a[i]).visual_id == b[i].visual_id && a[i].minimized
            == b[i].minimized && a[i].maximized == b[i].maximized && a[i].fullscreened
            == b[i].fullscreened
}

pub proof fn lemma_same_windows(a: SceneModel, b: SceneModel, id: VisualId)
    requires
        same_windows(a.visuals, b.visuals),
    ensures
        visual_index(a.visuals, id) == visual_index(b.visuals, id),
        a.has(id) == b.has(id),
        a.is_visible(id) == b.is_visible(id),
        a.has(id) ==> a.visual(id).transform == b.visual(id).transform,
{
    lemma_visual_index(a.visuals, id);
    lemma_visual_index(b.visuals, id);
    let i = visual_index(a.visuals, id);
    let j = visual_index(b.visuals, id);
    if i < a.visuals.len() {
        assert(a.visuals[i].id == id);
        assert(b.visuals[i].id == id);
    }
    if j < b.visuals.len() {
        assert(a.visuals[j].id == b.visuals[j].id);
    }
}

pub proof fn lemma_same_rows_minimized(a: GlassModel, b: GlassModel, vid: VisualId)
    requires
        same_rows(a.toplevels, b.toplevels),
    ensures
        a.minimized(vid) == b.minimized(vid),
{
    if a.minimized(vid) {
        let i = choose|i: int|
            0 <= i < a.toplevels.len() && (#[trigger] a.toplevels[i]).visual_id == Some(vid)
                && a.toplevels[i].minimized;
        assert(b.toplevels[i].minimized);
    }
    if b.minimized(vid) {
        let i = choose|i: int|
            0 <= i < b.toplevels.len() && (#[trigger] b.toplevels[i]).visual_id == Some(vid)
                && b.toplevels[i].minimized;
        assert(a.toplevels[i].minimized);
    }
}

/// Giving focus touches neither poses nor window states, nor the
/// workspaces or the camera.
pub proof fn lemma_focus_moves_nothing(m: GlassModel, vid: Option<VisualId>)
    ensures
        same_windows(m.scene.visuals, m.keyboard_focused(vid).scene.visuals),
        m.keyboard_focused(vid).toplevels == m.toplevels,
        m.keyboard_focused(vid).workspaces == m.workspaces,
        m.keyboard_focused(vid).camera == m.camera,
        m.keyboard_focused(vid).scene.detached_set == m.scene.detached_set,
        m.keyboard_focused(vid).scene.focused_id == vid,
        m.keyboard_focused(vid).scene.selected_id == m.scene.selected_id,
{
}

/// Exactly the visual that has focus is drawn as focused.
pub proof fn law_focus_is_shown(m: GlassModel, vid: Option<VisualId>, i: int)
    requires
        0 <= i < m.scene.visuals.len(),
    ensures
        m.keyboard_focused(vid).scene.focused_id == vid,
        m.keyboard_focused(vid).scene.visuals.len() == m.scene.visuals.len(),
        m.keyboard_focused(vid).scene.visuals[i].chrome_focused == (Some(m.scene.visuals[i].id)
            == vid),
{
}

/// A pointer lock lasts only while its surface has focus.
pub proof fn law_lock_follows_focus(m: GlassModel, vid: Option<VisualId>)
    requires
        m.constraints.pointer_locked ==> m.constraints.locked_surface is Some,
    ensures
        ({
            let n = m.keyboard_focused(vid);
            n.constraints.pointer_locked ==> n.surface_shown(vid) is Some
                && n.constraints.locked_surface == n.surface_shown(vid)
        }),
{
}

/// A window that took focus is the most recent one, and the history stays
/// free of repetitions.
pub proof fn law_focused_window_leads_history(m: GlassModel, vid: VisualId)
    requires
        m.mru.no_duplicates(),
        is_window(m.toplevels, vid),
    ensures
        m.keyboard_focused(Some(vid)).mru[0] == vid,
        m.keyboard_focused(Some(vid)).mru.no_duplicates(),
{
    law_touch_moves_to_front(m.mru, vid);
    assert(m.keyboard_focused(Some(vid)).mru == touched(m.mru, vid));
}

/// A popup, or any visual that is no application's window, enters no
/// history by taking focus.
pub proof fn law_only_windows_are_remembered(m: GlassModel, vid: VisualId)
    requires
        !is_window(m.toplevels, vid),
    ensures
        m.keyboard_focused(Some(vid)).mru == m.mru,
{
}

/// When a window closes, focus goes to another window that is on the
/// shown workspace and visible.
pub proof fn law_refocus_goes_to_a_focusable_window(m: GlassModel, closed: Option<VisualId>)
    ensures
        m.refocused(closed).scene.focused_id == m.replacement(closed),
        m.refocused(closed).scene.selected_id == m.replacement(closed),
        m.replacement(closed) matches Some(v) ==> Some(v) != closed && m.focusable(v)
            && m.mru.contains(v),
{
    law_cycle_returns_focusable_other(
        m.mru,
        None,
        true,
        other_than(closed, |v: VisualId| m.focusable(v)),
    );
}

/// Focus is given up only when no other remembered window can have it.
pub proof fn law_refocus_finds_a_window(m: GlassModel, closed: Option<VisualId>, v: VisualId)
    requires
        m.mru.contains(v),
        Some(v) != closed,
        m.focusable(v),
    ensures
        m.replacement(closed) is Some,
{
    law_cycle_finds_a_candidate(
        m.mru,
        None,
        true,
        other_than(closed, |x: VisualId| m.focusable(x)),
        v,
    );
}

/// When a window closes, the most recently focused of the others that can
/// have focus gets it, wherever in the history the closed one stands.
pub proof fn law_refocus_takes_the_most_recent(m: GlassModel, closed: Option<VisualId>, k: int)
    requires
        0 <= k < m.mru.len(),
        Some(m.mru[k]) != closed,
        m.focusable(m.mru[k]),
        forall|j: int|
            0 <= j < k ==> Some(#[trigger] m.mru[j]) == closed || !m.focusable(m.mru[j]),
    ensures
        m.refocused(closed).scene.focused_id == Some(m.mru[k]),
{
    law_replacement_is_most_recent(m.mru, closed, |v: VisualId| m.focusable(v), k);
}

/// An application switch goes to a window of the shown workspace that is
/// live and not minimized, and leaves the window it starts from.
pub proof fn law_switch_stays_on_the_workspace(m: GlassModel, forward: bool)
    ensures
        match m.switch_choice(forward) {
            Some(v) => m.focusable(v) && Some(v) != m.scene.focused_id && m.app_switched(
                forward,
            ).scene.focused_id == Some(v),
            None => m.app_switched(forward) == m,
        },
{
    law_cycle_returns_focusable_other(
        m.mru,
        m.scene.focused_id,
        forward,
        |v: VisualId| m.focusable(v),
    );
}

pub proof fn lemma_leaving_moves_nothing(m: GlassModel)
    ensures
        ({
            let l = m.workspace_left();
            &&& l.scene == (SceneModel { detached_set: m.settled_detached(), ..m.scene })
            &&& same_rows(m.toplevels, l.toplevels)
            &&& l.mru == m.mru
            &&& l.camera == m.camera
            &&& l.workspaces == m.workspaces.kept(
                m.camera,
                m.scene.focused_id,
                m.settled_detached(),
                m.focus_manager,
            )
        }),
{
    let u = m.unlocked().drag_ended();
    assert(u.toplevels == m.toplevels);
    let s = u.session_finished();
    if let Some(r) = u.resize_session {
        if let Some(shown) = u.surface_of(r.vid) {
            lemma_surface_index_bounds(u.toplevels, shown);
        }
    }
    assert(same_rows(u.toplevels, s.toplevels));
}

/// Switching workspaces moves no window and changes no window's state.
pub proof fn law_switch_moves_no_window(m: GlassModel, idx: int)
    ensures
        same_windows(m.scene.visuals, m.switched(idx).scene.visuals),
        same_rows(m.toplevels, m.switched(idx).toplevels),
{
    lemma_leaving_moves_nothing(m);
    let l = m.workspace_left();
    if 0 <= idx < l.workspaces.all.len() {
        let n = l.view_restored(idx);
        lemma_focus_moves_nothing(n, n.arrival_focus());
    }
}

/// The members of a workspace stay the same through a switch.
pub proof fn lemma_switch_keeps_members(m: GlassModel, idx: int, k: int)
    requires
        m.wf(),
        0 <= k < m.workspaces.all.len(),
    ensures
        m.switched(idx).workspaces.all.len() == m.workspaces.all.len(),
        m.switched(idx).workspaces.all[k].visual_ids == m.workspaces.all[k].visual_ids,
        m.switched(idx).workspaces.active == if 0 <= idx < m.workspaces.all.len() {
            idx
        } else {
            m.workspaces.active
        },
        k != m.workspaces.active ==> m.switched(idx).workspaces.all[k] == m.workspaces.all[k],
        k == m.workspaces.active ==> m.switched(idx).workspaces.all[k].camera == m.camera
            && m.switched(idx).workspaces.all[k].focused_id == m.scene.focused_id
            && m.switched(idx).workspaces.all[k].detached_set == m.settled_detached(),
{
    lemma_leaving_moves_nothing(m);
    let l = m.workspace_left();
    if 0 <= idx < l.workspaces.all.len() {
        let n = l.view_restored(idx);
        lemma_focus_moves_nothing(n, n.arrival_focus());
    }
}

/// A workspace that is shown again is as it was left: the camera, what
/// layout leaves alone when no resize is going on, and the focused window,
/// if that can still have focus.
pub proof fn law_workspace_comes_back_as_left(m: GlassModel, away: int)
    requires
        m.wf(),
        0 <= away < m.workspaces.all.len(),
        away != m.workspaces.active,
    ensures
        ({
            let back = m.switched(away).switched(m.workspaces.active);
            &&& back.workspaces.active == m.workspaces.active
            &&& back.camera == m.camera
            &&& back.scene.detached_set == m.settled_detached()
            &&& m.scene.focused_id matches Some(v) ==> m.focusable(v)
                ==> back.scene.focused_id == Some(v)
        }),
{
    let here = m.workspaces.active;
    let there = m.switched(away);
    lemma_switch_keeps_members(m, away, here);
    lemma_switch_keeps_members(m, away, away);
    law_switch_moves_no_window(m, away);
    lemma_leaving_moves_nothing(there);
    let l = there.workspace_left();
    let n = l.view_restored(here);
    assert(l.workspaces.all[here] == there.workspaces.all[here]);
    lemma_focus_moves_nothing(n, n.arrival_focus());
    assert(n.workspaces.current() == there.workspaces.all[here]);
    if let Some(v) = m.scene.focused_id {
        if m.focusable(v) {
            lemma_same_windows(m.scene, there.scene, v);
            lemma_same_windows(m.scene, n.scene, v);
            assert(same_rows(m.toplevels, n.toplevels));
            lemma_same_rows_minimized(m, n, v);
            assert(n.focusable(v));
            assert(n.arrival_focus() == Some(v));
        }
    }
}

/// A workspace is shown in the normal camera mode after a switch, and no
/// drag or resize outlives it. From another workspace the camera glides
/// there.
pub proof fn law_switch_leaves_camera_modes(m: GlassModel, idx: int)
    requires
        m.wf(),
        0 <= idx < m.workspaces.all.len(),
    ensures
        m.switched(idx).focus_manager.camera_mode == CameraMode::Normal,
        m.switched(idx).focus_manager.gliding() == (idx != m.workspaces.active),
        m.switched(idx).resize_session is None,
        m.switched(idx).input.dragging is None,
{
}

/// The camera glides between workspaces: from the camera of the one that
/// is left to the camera of the one that is shown.
pub proof fn law_switch_glides(m: GlassModel, idx: int)
    requires
        m.wf(),
        0 <= idx < m.workspaces.all.len(),
        idx != m.workspaces.active,
    ensures
        m.switched(idx).focus_manager.gliding(),
        m.switched(idx).focus_manager.transition == Some(
            starting(m.camera, m.workspaces.all[idx].camera),
        ),
        m.switched(idx).camera == m.workspaces.all[idx].camera,
{
    lemma_leaving_moves_nothing(m);
    let n = m.workspace_left().view_restored(idx);
    lemma_focus_moves_nothing(n, n.arrival_focus());
}

/// A click in the overview of the workspaces leaves the overview for the
/// workspace of the visual under the pointer, and the camera glides there.
pub proof fn law_travel_glides(m: GlassModel, vid: VisualId)
    requires
        m.wf(),
        m.scene.selected_id == Some(vid),
        m.workspaces.home(vid) matches Some(i) && i < m.workspaces.all.len() && i
            != m.workspaces.active,
    ensures
        ({
            let i = m.workspaces.home(vid).unwrap() as int;
            &&& m.travelled().focus_manager.gliding()
            &&& m.travelled().workspaces.active == i
            &&& m.travelled().camera == m.workspaces.all[i].camera
            &&& m.travelled().scene.focused_id == Some(vid)
        }),
{
    let i = m.workspaces.home(vid).unwrap() as int;
    let n = m.overview_left();
    law_switch_glides(n, i);
    lemma_leaving_moves_nothing(n);
    let w = n.workspace_left().view_restored(i);
    lemma_focus_moves_nothing(w, w.arrival_focus());
    lemma_focus_moves_nothing(n.switched(i), Some(vid));
}

/// Focus on a workspace just shown goes to a window that may have it, and
/// to none only where no window of the workspace may.
pub proof fn law_arrival_focus_is_focusable(m: GlassModel, v: VisualId)
    requires
        m.wf(),
    ensures
        m.arrival_focus() matches Some(f) ==> m.focusable(f),
        m.focusable(v) ==> m.arrival_focus() is Some,
{
    let ids = m.workspaces.current().visual_ids;
    let ok = |x: VisualId| m.focusable(x);
    law_cycle_returns_focusable_other(m.mru, None, true, ok);
    law_cycle_returns_focusable_other(ids, None, true, ok);
    if m.focusable(v) {
        law_cycle_finds_a_candidate(ids, None, true, ok, v);
    }
}

/// A click on a window's taskbar button shows the workspace of the window,
/// focuses it, and never minimizes.
pub proof fn law_taskbar_click_goes_to_the_window(m: GlassModel, vid: VisualId)
    requires
        m.wf(),
        m.workspaces.all.len() <= usize::MAX,
    ensures
        m.window_activated(vid).scene.focused_id == Some(vid),
        m.workspaces.home(vid) matches Some(i) ==> m.window_activated(vid).workspaces.active == i,
        m.window_activated(vid).minimized(vid) ==> m.minimized(vid),
{
    lemma_brought_into_view(m, vid);
    let b = m.brought_into_view(vid);
    lemma_same_rows_minimized(m, b, vid);
    if m.minimized(vid) {
        let w = b.window_shown(vid);
        assert(w.scene.focused_id == Some(vid));
        assert(w.workspaces == b.workspaces);
    } else if b.scene.focused_id != Some(vid) {
        assert(b.selected_forward(vid).workspaces == b.workspaces);
        lemma_same_rows_minimized(b, b.selected_forward(vid), vid);
    }
}

pub proof fn lemma_brought_into_view(m: GlassModel, vid: VisualId)
    requires
        m.wf(),
        m.workspaces.all.len() <= usize::MAX,
    ensures
        same_windows(m.scene.visuals, m.brought_into_view(vid).scene.visuals),
        same_rows(m.toplevels, m.brought_into_view(vid).toplevels),
        m.workspaces.home(vid) matches Some(i) ==> m.brought_into_view(vid).workspaces.active == i,
{
    if let Some(i) = m.workspaces.home(vid) {
        lemma_home_bounds(m.workspaces, vid);
        law_switch_moves_no_window(m, i as int);
        lemma_switch_keeps_members(m, i as int, 0);
    }
}

} // verus!
