//! What becomes of a window that closes, hides or goes elsewhere: what is
//! remembered of it, who has the keyboard next, and what goes with it.
use vstd::prelude::*;

use crate::compositor::command_laws::lemma_focus;
use crate::compositor::focus_laws::{
    law_refocus_goes_to_a_focusable_window, law_refocus_takes_the_most_recent,
};
use crate::compositor::focusing::lemma_surface_index;
use crate::compositor::lifecycle::{
    hanging_visuals, is_alive, lemma_erased_keeps_workspaces, lemma_popup_index,
};
use crate::compositor::lifetime_laws::{
    law_erased_visual_leaves_no_trace, law_erasing_spares_the_others,
};
use crate::compositor::mapping_laws::is_home;
use crate::compositor::menu::Views;
use crate::compositor::minimizing::lemma_last_minimized;
use crate::compositor::state::{Effect, GlassModel, SurfaceId, ToplevelInfo};
use crate::compositor::terms::{
    is_fresh_id, is_let_be, is_row, is_visual, lemma_changed, lemma_row, lemma_visual,
};
use crate::context_menu::MenuAction;
use crate::focus::CameraMode;
use crate::focus_history::{shown_in, touched};
use crate::group::{lemma_member_index, GroupModel};
use crate::id_list::{lemma_without_members, with_member, without};
use crate::input::Camera;
use crate::navigation::Binding;
use crate::scene::{
    law_removed_visual_is_gone, lemma_visual_index, SceneModel, Visual, VisualId, WindowState,
};
use crate::table::{keys_of, law_dropped_key_is_gone, value_of};
use crate::workspace::{law_left_visual_is_on_no_workspace, lemma_home_index, WorkspacesModel};

verus! {

/// The toplevel at `k` is the first with the surface and is shown by the
/// visual.
pub open spec fn is_held_by(m: GlassModel, surface: SurfaceId, vid: VisualId, k: int) -> bool {
    &&& 0 <= k < m.toplevels.len()
    &&& m.toplevels[k].surface == surface
    &&& m.toplevels[k].visual_id == Some(vid)
    &&& forall|j: int| 0 <= j < k ==> (#[trigger] m.toplevels[j]).surface != surface
}

/// The visual is nowhere: not in the scene, on no workspace, not in the
/// history, and it has no focus.
pub open spec fn is_nowhere(m: GlassModel, vid: VisualId) -> bool {
    &&& is_fresh_id(m.scene, vid)
    &&& m.scene.focused_id != Some(vid)
    &&& m.scene.selected_id != Some(vid)
    &&& !m.mru.contains(vid)
    &&& m.input.dragging != Some(vid)
    &&& forall|w: int|
        0 <= w < m.workspaces.all.len() ==> !(
        #[trigger] m.workspaces.all[w]).visual_ids.contains(vid)
}

proof fn lemma_touched(s: Seq<VisualId>, v: VisualId, x: VisualId)
    requires
        v != x,
        !s.contains(x),
    ensures
        !touched(s, v).contains(x),
{
    lemma_without_members(s, v);
    let t = touched(s, v);
    if t.contains(x) {
        let i = choose|i: int| 0 <= i < t.len() && t[i] == x;
        assert(without(s, v)[i - 1] == x);
        assert(without(s, v).contains(x));
    }
}

proof fn lemma_absent(s: SceneModel, vid: VisualId)
    requires
        !s.has(vid),
    ensures
        is_fresh_id(s, vid),
{
    lemma_visual_index(s.visuals, vid);
}

proof fn lemma_nowhere(w: WorkspacesModel, vid: VisualId)
    requires
        w.home(vid) is None,
        w.all.len() <= usize::MAX,
    ensures
        forall|j: int| 0 <= j < w.all.len() ==> !(#[trigger] w.all[j]).visual_ids.contains(vid),
{
    assert forall|j: int| 0 <= j < w.all.len() implies !(
    #[trigger] w.all[j]).visual_ids.contains(vid) by {
        if w.all[j].visual_ids.contains(vid) {
            lemma_found(w, vid, j);
        }
    }
}

proof fn lemma_found(w: WorkspacesModel, vid: VisualId, j: int)
    requires
        0 <= j < w.all.len(),
        w.all.len() <= usize::MAX,
        w.all[j].visual_ids.contains(vid),
    ensures
        w.home(vid) is Some,
    decreases j,
{
    if exists|i: int| 0 <= i < j && (#[trigger] w.all[i]).visual_ids.contains(vid) {
        let i = choose|i: int| 0 <= i < j && (#[trigger] w.all[i]).visual_ids.contains(vid);
        lemma_found(w, vid, i);
    } else {
        lemma_home_index(w.all, vid, j);
    }
}

/// The parts of the state that popups and subsurfaces take nothing of.
pub open spec fn same_windows_known(a: GlassModel, b: GlassModel) -> bool {
    &&& b.toplevels == a.toplevels
    &&& b.closed == a.closed
    &&& b.announced == a.announced
    &&& b.mru == a.mru
    &&& b.scene.focused_id == a.scene.focused_id
    &&& b.camera == a.camera
    &&& b.focus_manager == a.focus_manager
    &&& b.workspaces.active == a.workspaces.active
}

proof fn lemma_popups_known(m: GlassModel, ids: Seq<VisualId>)
    ensures
        same_windows_known(m, m.popups_unshown(ids)),
    decreases ids.len(),
{
    if ids.len() > 0 {
        lemma_popups_known(m, ids.drop_last());
    }
}

proof fn lemma_subsurfaces_known(m: GlassModel, surfaces: Seq<u64>)
    ensures
        same_windows_known(m, m.subsurfaces_unshown(surfaces)),
    decreases surfaces.len(),
{
    if surfaces.len() > 0 {
        lemma_subsurfaces_known(m, surfaces.drop_last());
    }
}

proof fn lemma_erased_known(m: GlassModel, vid: VisualId)
    ensures
        ({
            let e = m.erased(vid);
            &&& e.toplevels == m.toplevels
            &&& e.closed == m.closed
            &&& e.mru == without(m.mru, vid)
            &&& e.scene.focused_id == m.scene.focused_id || e.scene.focused_id is None
            &&& e.workspaces.active == m.workspaces.active
            &&& m.announced.contains(vid) ==> exists|j: int|
                0 <= j < e.outbox.len() && #[trigger] e.outbox[j] == (Effect::WithdrawWindow { vid })
            &&& m.focus_manager.focus_target != Some(vid) && m.focus_manager.camera_mode
                != CameraMode::Focus(vid) ==> e.camera == m.camera
                && e.focus_manager == m.focus_manager
        }),
{
    let ids = hanging_visuals(m.popups, vid);
    lemma_popups_known(m, ids);
    let a = m.popups_cleaned(vid);
    let b = a.children_cleaned(vid);
    if let Some(s) = a.surface_of(vid) {
        lemma_subsurfaces_known(a, keys_of(a.subsurface_parents, s));
    }
    assert(same_windows_known(m, b));
    let e = m.erased(vid);
    if m.announced.contains(vid) {
        assert(b.withdrawn(vid).outbox.last() == (Effect::WithdrawWindow { vid }));
        assert(e.outbox[b.outbox.len() as int] == (Effect::WithdrawWindow { vid }));
    }
}

/// The state in which the focus of a closed window moves on.
spec fn before_refocus(
    m: GlassModel,
    surface: SurfaceId,
    vid: VisualId,
    k: int,
    participates: bool,
    now: u64,
) -> GlassModel {
    let a = (GlassModel { toplevels: m.toplevels.remove(k), ..m }).constraint_dropped(surface);
    let b = if participates {
        a.dnd_cancelled()
    } else {
        a
    };
    let c = (GlassModel {
        resizes: crate::client_resize::requests_without(b.resizes, vid),
        maximize: b.maximize.aborted(vid),
        ..b
    }).tombstoned(m.toplevels[k], vid, now);
    (GlassModel { shelved: without(c.shelved, vid), ..c })
}

proof fn lemma_before(
    m: GlassModel,
    surface: SurfaceId,
    vid: VisualId,
    k: int,
    participates: bool,
    now: u64,
)
    requires
        is_held_by(m, surface, vid, k),
    ensures
        ({
            let d = before_refocus(m, surface, vid, k, participates, now);
            &&& m.toplevel_gone(surface, participates, now) == if m.scene.focused_id == Some(vid)
                || m.scene.selected_id == Some(vid) {
                d.erased(vid).refocused(Some(vid))
            } else {
                d.erased(vid)
            }
            &&& d.toplevels == m.toplevels.remove(k)
            &&& d.scene == m.scene
            &&& d.workspaces == m.workspaces
            &&& d.mru == m.mru
            &&& d.announced == m.announced
            &&& d.popups == m.popups
            &&& d.subsurfaces == m.subsurfaces
            &&& d.camera == m.camera
            &&& d.focus_manager == m.focus_manager
        }),
{
    lemma_surface_index(m.toplevels, surface, k);
}

/// A destroyed window is gone from everywhere, whoever lists windows is
/// told, and no other window's record changes.
pub proof fn law_destroyed_window_is_gone(
    m: GlassModel,
    surface: SurfaceId,
    vid: VisualId,
    k: int,
    participates: bool,
    now: u64,
)
    requires
        m.wf(),
        is_held_by(m, surface, vid, k),
    ensures
        ({
            let n = m.toplevel_gone(surface, participates, now);
            &&& is_nowhere(n, vid)
            &&& n.toplevels == m.toplevels.remove(k)
            &&& n.workspaces.active == m.workspaces.active
            &&& m.scene.focused_id != Some(vid) && m.scene.selected_id != Some(vid)
                && m.scene.focused_id is Some ==> n.scene.focused_id == m.scene.focused_id
                || n.scene.focused_id is None
            &&& m.announced.contains(vid) ==> exists|j: int|
                0 <= j < n.outbox.len() && #[trigger] n.outbox[j] == (Effect::WithdrawWindow { vid })
        }),
{
    lemma_before(m, surface, vid, k, participates, now);
    let d = before_refocus(m, surface, vid, k, participates, now);
    let e = d.erased(vid);
    lemma_erased_known(d, vid);
    lemma_erased_keeps_workspaces(d, vid);
    law_erased_visual_leaves_no_trace(d, vid);
    lemma_absent(e.scene, vid);
    lemma_nowhere(e.workspaces, vid);
    let n = m.toplevel_gone(surface, participates, now);
    if m.scene.focused_id == Some(vid) || m.scene.selected_id == Some(vid) {
        law_refocus_goes_to_a_focusable_window(e, Some(vid));
        let to = e.replacement(Some(vid));
        let s = GlassModel { scene: e.scene.selected(to), ..e };
        lemma_focus(s, to);
        assert(!n.mru.contains(vid)) by {
            if n.mru.contains(vid) {
                if let Some(v) = to {
                    lemma_touched(e.mru, v, vid);
                }
            }
        }
        if m.announced.contains(vid) {
            let j = choose|j: int|
                0 <= j < e.outbox.len() && #[trigger] e.outbox[j] == (Effect::WithdrawWindow {
                    vid,
                });
            assert(n.outbox[j] == e.outbox[j]);
        }
    }
}

/// A closed window is what is reopened first: by its application, with
/// the title, the pose and the workspace that it had.
pub proof fn law_destroyed_window_is_remembered(
    m: GlassModel,
    surface: SurfaceId,
    vid: VisualId,
    k: int,
    i: int,
    w: int,
    participates: bool,
    now: u64,
)
    requires
        m.wf(),
        is_held_by(m, surface, vid, k),
        is_visual(m.scene, vid, i),
        is_home(m.workspaces, vid, w),
        0 < m.closed.cap,
        m.closed.entries.len() <= m.closed.cap,
    ensures
        ({
            let all = m.toplevel_gone(surface, participates, now).closed.entries;
            let last = all.last();
            &&& all.len() > 0
            &&& last.app_id == m.toplevels[k].app_id
            &&& last.title == m.toplevels[k].title
            &&& last.transform == m.scene.visuals[i].transform
            &&& last.workspace == w
            &&& last.closed_at_ms == now
            &&& m.closed.entries.len() < m.closed.cap ==> all.drop_last() == m.closed.entries
        }),
{
    lemma_before(m, surface, vid, k, participates, now);
    lemma_visual(m.scene, vid, i);
    lemma_home_index(m.workspaces.all, vid, w);
    let d = before_refocus(m, surface, vid, k, participates, now);
    lemma_erased_known(d, vid);
    let e = d.erased(vid);
    assert(e.refocused(Some(vid)).closed == e.closed);
}

/// When the focused window closes, the one that had focus before it gets
/// it back, if it is still there to be seen.
pub proof fn law_focus_goes_back_when_a_window_closes(
    m: GlassModel,
    surface: SurfaceId,
    vid: VisualId,
    k: int,
    other: VisualId,
    l: int,
    i: int,
    participates: bool,
    now: u64,
)
    requires
        m.wf(),
        is_held_by(m, surface, vid, k),
        m.scene.focused_id == Some(vid),
        m.mru.no_duplicates(),
        m.mru.len() >= 2,
        m.mru[0] == vid,
        m.mru[1] == other,
        is_row(m, other, l),
        !m.toplevels[l].minimized,
        is_visual(m.scene, other, i),
        m.scene.visuals[i].window_state == WindowState::Normal,
        m.workspaces.all[m.workspaces.active].visual_ids.contains(other),
        !hanging_visuals(m.popups, vid).contains(other),
        forall|s: u64| #[trigger] value_of(m.subsurfaces, s) != Some(other.0),
    ensures
        m.toplevel_gone(surface, participates, now).scene.focused_id == Some(other),
        m.toplevel_gone(surface, participates, now).scene.selected_id == Some(other),
{
    assert(other != vid);
    lemma_before(m, surface, vid, k, participates, now);
    let d = before_refocus(m, surface, vid, k, participates, now);
    lemma_erased_known(d, vid);
    law_erasing_spares_the_others(d, vid, other);
    let e = d.erased(vid);
    lemma_next_in_line(m.mru, vid);
    assert(e.mru[0] == other);
    lemma_visual(m.scene, other, i);
    lemma_erased_visual_is_kept(d, vid, other);
    lemma_visual_index(e.scene.visuals, other);
    assert(e.scene.is_visible(other));
    assert(!e.minimized(other)) by {
        if e.minimized(other) {
            let j = choose|j: int|
                0 <= j < e.toplevels.len() && (#[trigger] e.toplevels[j]).visual_id == Some(other)
                    && e.toplevels[j].minimized;
            let j0 = if j < k {
                j
            } else {
                j + 1
            };
            assert(m.toplevels[j0] == e.toplevels[j]);
        }
    }
    assert(e.focusable(other));
    law_refocus_takes_the_most_recent(e, Some(vid), 0);
    law_refocus_goes_to_a_focusable_window(e, Some(vid));
}

proof fn lemma_next_in_line(s: Seq<VisualId>, v: VisualId)
    requires
        s.len() >= 2,
        s[0] == v,
        s[1] != v,
    ensures
        without(s, v).len() > 0,
        without(s, v)[0] == s[1],
    decreases s.len(),
{
    reveal(Seq::filter);
    if s.len() > 2 {
        let rest = s.drop_last();
        assert(rest[0] == v);
        assert(rest[1] == s[1]);
        lemma_next_in_line(rest, v);
        assert(without(s, v) == if s.last() != v {
            without(rest, v).push(s.last())
        } else {
            without(rest, v)
        });
    } else {
        let one = s.drop_last();
        let none = one.drop_last();
        assert(none =~= Seq::<VisualId>::empty());
        assert(without(none, v) =~= Seq::<VisualId>::empty());
        assert(one.last() == v);
        assert(without(one, v) == without(none, v));
        assert(without(s, v) == without(one, v).push(s.last()));
        assert(s.last() == s[1]);
    }
}

/// The visual is in the scene and not hidden there.
spec fn is_seen(s: SceneModel, vid: VisualId) -> bool {
    &&& s.has(vid)
    &&& forall|j: int|
        0 <= j < s.visuals.len() && (#[trigger] s.visuals[j]).id == vid
            ==> s.visuals[j].window_state == WindowState::Normal
}

/// Where a visual stays in the scene, it stays visible.
proof fn lemma_erased_visual_is_kept(m: GlassModel, vid: VisualId, other: VisualId)
    requires
        other != vid,
        is_seen(m.scene, other),
        !hanging_visuals(m.popups, vid).contains(other),
        forall|s: u64| #[trigger] value_of(m.subsurfaces, s) != Some(other.0),
    ensures
        is_seen(m.erased(vid).scene, other),
{
    lemma_popups_keep_visible(m, hanging_visuals(m.popups, vid), other);
    let a = m.popups_cleaned(vid);
    let b = a.children_cleaned(vid);
    if let Some(s) = a.surface_of(vid) {
        lemma_subsurfaces_keep_visible(a, keys_of(a.subsurface_parents, s), other);
    }
    let d = b.withdrawn(vid).undertakings_dropped(vid);
    lemma_removed_keeps_visible(d.scene, vid, other);
    assert(m.erased(vid).scene.visuals == d.unshown(vid).scene.visuals);
}

proof fn lemma_removed_keeps_visible(s: SceneModel, vid: VisualId, other: VisualId)
    requires
        other != vid,
        is_seen(s, other),
    ensures
        is_seen(s.removed(vid), other),
{
    law_removed_visual_is_gone(s, vid, other);
    let p = |v: Visual| v.id != vid;
    let f = s.visuals.filter(p);
    assert forall|j: int| 0 <= j < f.len() && (#[trigger] f[j]).id == other implies f[j].window_state
        == WindowState::Normal by {
        assert(f.contains(f[j]));
        s.visuals.lemma_filter_contains_rev(p, f[j]);
    }
}

proof fn lemma_popups_keep_visible(m: GlassModel, ids: Seq<VisualId>, other: VisualId)
    requires
        !ids.contains(other),
        is_seen(m.scene, other),
    ensures
        is_seen(m.popups_unshown(ids).scene, other),
        m.popups_unshown(ids).subsurfaces == m.subsurfaces,
    decreases ids.len(),
{
    if ids.len() > 0 {
        let rest = ids.drop_last();
        assert(!rest.contains(other)) by {
            if rest.contains(other) {
                let i = choose|i: int| 0 <= i < rest.len() && rest[i] == other;
                assert(ids[i] == other);
            }
        }
        lemma_popups_keep_visible(m, rest, other);
        assert(ids[ids.len() - 1] == ids.last());
        lemma_removed_keeps_visible(m.popups_unshown(rest).scene, ids.last(), other);
        assert(m.popups_unshown(ids).scene.visuals
            == m.popups_unshown(rest).scene.removed(ids.last()).visuals);
    }
}

proof fn lemma_subsurfaces_keep_visible(m: GlassModel, surfaces: Seq<u64>, other: VisualId)
    requires
        is_seen(m.scene, other),
        forall|s: u64| #[trigger] value_of(m.subsurfaces, s) != Some(other.0),
    ensures
        is_seen(m.subsurfaces_unshown(surfaces).scene, other),
        forall|s: u64| #[trigger]
            value_of(m.subsurfaces_unshown(surfaces).subsurfaces, s) != Some(other.0),
    decreases surfaces.len(),
{
    if surfaces.len() > 0 {
        let n = m.subsurfaces_unshown(surfaces.drop_last());
        lemma_subsurfaces_keep_visible(m, surfaces.drop_last(), other);
        let last = surfaces.last();
        if let Some(v) = value_of(n.subsurfaces, last) {
            lemma_removed_keeps_visible(n.scene, VisualId(v), other);
            let z = m.subsurfaces_unshown(surfaces);
            assert forall|s: u64| #[trigger] value_of(z.subsurfaces, s) != Some(other.0) by {
                law_dropped_key_is_gone(n.subsurfaces, last, s);
                assert(value_of(n.subsurfaces, s) != Some(other.0));
            }
        }
    }
}

/// A window that is not the focused or selected one closes without the
/// keyboard going anywhere, and a camera that does not follow it stays.
pub proof fn law_closing_in_the_background_disturbs_nobody(
    m: GlassModel,
    surface: SurfaceId,
    vid: VisualId,
    k: int,
    participates: bool,
    now: u64,
)
    requires
        is_held_by(m, surface, vid, k),
        m.scene.focused_id != Some(vid),
        m.scene.selected_id != Some(vid),
        m.focus_manager.focus_target != Some(vid),
        m.focus_manager.camera_mode != CameraMode::Focus(vid),
    ensures
        m.toplevel_gone(surface, participates, now).camera == m.camera,
        m.toplevel_gone(surface, participates, now).focus_manager == m.focus_manager,
        m.toplevel_gone(surface, participates, now).mru == without(m.mru, vid),
{
    lemma_before(m, surface, vid, k, participates, now);
    lemma_erased_known(before_refocus(m, surface, vid, k, participates, now), vid);
}

/// A destroyed popup takes its visual with it, and nothing else: no window
/// loses focus or is forgotten.
pub proof fn law_destroyed_popup_is_gone(m: GlassModel, surface: SurfaceId, vid: VisualId, k: int)
    requires
        m.wf(),
        0 <= k < m.popups.len(),
        m.popups[k].surface == surface,
        m.popups[k].visual_id == Some(vid),
        forall|j: int| 0 <= j < k ==> (#[trigger] m.popups[j]).surface != surface,
    ensures
        ({
            let n = m.popup_gone(surface);
            &&& n.popups == m.popups.remove(k)
            &&& is_fresh_id(n.scene, vid)
            &&& n.scene.selected_id != Some(vid)
            &&& n.scene.selected_id != m.scene.selected_id ==> m.scene.selected_id == Some(vid)
                && n.scene.selected_id is None
            &&& n.input.dragging == if m.input.dragging == Some(vid) {
                None
            } else {
                m.input.dragging
            }
            &&& !n.sinks.contains(vid)
            &&& forall|w: int|
                0 <= w < n.workspaces.all.len() ==> !(
                #[trigger] n.workspaces.all[w]).visual_ids.contains(vid)
            &&& n.toplevels == m.toplevels
            &&& n.mru == m.mru
            &&& n.closed == m.closed
            &&& n.camera == m.camera
        }),
{
    lemma_popup_index(m.popups, surface, k);
    let a = GlassModel { popups: m.popups.remove(k), ..m };
    law_removed_visual_is_gone(a.scene, vid, vid);
    law_left_visual_is_on_no_workspace(a.workspaces, vid);
    lemma_without_members(a.sinks, vid);
    let n = m.popup_gone(surface);
    assert(n.scene.visuals == a.scene.removed(vid).visuals);
    lemma_absent(a.scene.removed(vid), vid);
    assert(n.workspaces == a.workspaces.left_everywhere(vid));
    lemma_nowhere(n.workspaces, vid);
}

/// An X11 window that is no longer mapped is gone from the scene, the
/// workspaces, the history and the docks, and the frame is drawn anew.
pub proof fn law_unmapped_x11_window_is_gone(m: GlassModel, vid: VisualId)
    requires
        m.wf(),
    ensures
        ({
            let n = m.x11_unshown(vid);
            &&& is_nowhere(n, vid)
            &&& !n.sinks.contains(vid)
            &&& !n.announced.contains(vid)
            &&& n.toplevels == m.toplevels
            &&& n.closed == m.closed
            &&& n.outbox.last() == Effect::ScheduleRender
        }),
{
    let a = m.children_cleaned(vid);
    if let Some(s) = m.surface_of(vid) {
        lemma_subsurfaces_known(m, keys_of(m.subsurface_parents, s));
    }
    crate::compositor::lifecycle::lemma_children_cleaned_keeps_workspaces(m, vid);
    lemma_without_members(a.announced, vid);
    let b = a.withdrawn(vid);
    law_removed_visual_is_gone(b.scene, vid, vid);
    law_left_visual_is_on_no_workspace(b.workspaces, vid);
    let c = b.unshown(vid);
    lemma_without_members(c.sinks, vid);
    lemma_without_members(c.mru, vid);
    let e = GlassModel { sinks: without(c.sinks, vid), mru: without(c.mru, vid), ..c };
    lemma_absent(e.scene, vid);
    lemma_nowhere(e.workspaces, vid);
    law_refocus_goes_to_a_focusable_window(e, Some(vid));
    lemma_x11_refocus(e, vid);
    assert(m.x11_unshown(vid) == x11_settled(e, vid));
}

/// The focus, the selection and a drag of a visual that is gone moved on.
spec fn x11_settled(e: GlassModel, vid: VisualId) -> GlassModel {
    let m = if e.scene.focused_id == Some(vid) {
        e.refocused(Some(vid))
    } else {
        e
    };
    let m = if m.scene.selected_id == Some(vid) {
        GlassModel { scene: m.scene.selected(None), ..m }
    } else {
        m
    };
    m.drag_of_ended(vid).ordering(Effect::ScheduleRender)
}

proof fn lemma_x11_refocus(e: GlassModel, vid: VisualId)
    requires
        is_fresh_id(e.scene, vid),
        !e.mru.contains(vid),
        forall|w: int|
            0 <= w < e.workspaces.all.len() ==> !(
            #[trigger] e.workspaces.all[w]).visual_ids.contains(vid),
    ensures
        is_nowhere(x11_settled(e, vid), vid),
        x11_settled(e, vid).sinks == e.sinks,
        x11_settled(e, vid).announced == e.announced,
        x11_settled(e, vid).toplevels == e.toplevels,
        x11_settled(e, vid).closed == e.closed,
        x11_settled(e, vid).outbox.last() == Effect::ScheduleRender,
{
    if e.scene.focused_id == Some(vid) {
        law_refocus_goes_to_a_focusable_window(e, Some(vid));
        let to = e.replacement(Some(vid));
        lemma_focus(GlassModel { scene: e.scene.selected(to), ..e }, to);
        if let Some(v) = to {
            lemma_touched(e.mru, v, vid);
        }
    }
}

/// Restoring without a target brings back the minimized window that was
/// opened last.
pub proof fn law_restore_command_takes_the_last(
    m: GlassModel,
    vid: VisualId,
    k: int,
    i: int,
    w: int,
    views: Views,
)
    requires
        m.wf(),
        is_row(m, vid, k),
        is_visual(m.scene, vid, i),
        m.toplevels[k].minimized,
        forall|j: int| k < j < m.toplevels.len() ==> !(#[trigger] m.toplevels[j]).minimized,
        is_home(m.workspaces, vid, w),
        w == m.workspaces.active,
    ensures
        ({
            let n = m.commanded_to(Binding::RestoreSelected, views);
            &&& n.scene.focused_id == Some(vid)
            &&& n.toplevels == m.toplevels.update(
                k,
                ToplevelInfo { minimized: false, ..m.toplevels[k] },
            )
            &&& n.scene.visuals[i].window_state == WindowState::Normal
            &&& n.scene.visuals[i].transform == m.scene.visuals[i].transform
            &&& n.outbox[m.outbox.len() as int] == (Effect::RaiseToTop { vid })
            &&& n.outbox.last() == Effect::ScheduleRender
        }),
{
    lemma_row(m, vid, k);
    lemma_last_minimized(m.toplevels, k + 1);
    lemma_home_index(m.workspaces.all, vid, w);
    assert(m.minimized(vid));
    lemma_visual(m.scene, vid, i);
    lemma_changed(
        m.scene,
        vid,
        i,
        Visual { window_state: WindowState::Normal, ..m.scene.visuals[i] },
    );
    let s = m.window_shown(vid);
    let a = m.with_row(vid, ToplevelInfo { minimized: false, ..m.row(vid) });
    let b = (GlassModel { scene: a.scene.hidden(vid, false), ..a }).ordering(
        Effect::RaiseToTop { vid },
    );
    lemma_focus(b, Some(vid));
    assert(m.commanded_to(Binding::RestoreSelected, views) == s);
}

/// A camera that follows a window that closes goes back to where it was
/// before it followed, in the normal mode.
pub proof fn law_followed_window_gives_the_camera_back(
    m: GlassModel,
    surface: SurfaceId,
    vid: VisualId,
    k: int,
    before: Camera,
    participates: bool,
    now: u64,
)
    requires
        is_held_by(m, surface, vid, k),
        m.focus_manager.focus_target == Some(vid),
        m.focus_manager.saved_camera == Some(before),
    ensures
        ({
            let n = m.toplevel_gone(surface, participates, now);
            &&& n.camera == before
            &&& n.focus_manager.camera_mode == CameraMode::Normal
            &&& n.focus_manager.focus_target is None
            &&& n.focus_manager.saved_camera is None
            &&& n.focus_manager.transition is None
        }),
{
    lemma_before(m, surface, vid, k, participates, now);
    let d = before_refocus(m, surface, vid, k, participates, now);
    let ids = hanging_visuals(d.popups, vid);
    lemma_popups_known(d, ids);
    let a = d.popups_cleaned(vid);
    if let Some(s) = a.surface_of(vid) {
        lemma_subsurfaces_known(a, keys_of(a.subsurface_parents, s));
    }
    let e = d.erased(vid);
    assert(e.camera == before);
    let to = e.replacement(Some(vid));
    lemma_focus(GlassModel { scene: e.scene.selected(to), ..e }, to);
}

/// A window that held the pointer lets it go when it closes, and a client
/// drag that it takes part in is cancelled before that is told.
pub proof fn law_closing_frees_the_pointer(
    m: GlassModel,
    surface: SurfaceId,
    k: int,
    participates: bool,
    now: u64,
)
    requires
        0 <= k < m.toplevels.len(),
        m.toplevels[k].surface == surface,
        m.toplevels[k].visual_id is None,
        forall|j: int| 0 <= j < k ==> (#[trigger] m.toplevels[j]).surface != surface,
    ensures
        ({
            let n = m.toplevel_gone(surface, participates, now);
            let held = m.constraints.locked_surface == Some(surface)
                || m.constraints.confined_surface == Some(surface);
            &&& held ==> n.constraints.locked_surface is None && n.constraints.confined_surface
                is None && !n.constraints.pointer_locked
            &&& m.constraints.locked_surface == Some(surface) ==> n.outbox[m.outbox.len() as int]
                == (Effect::DeactivateConstraint { surface })
            &&& !held ==> n.constraints == m.constraints
            &&& participates ==> !n.input.dnd_active
            &&& participates && m.input.dnd_active && !held ==> n.outbox == m.outbox.push(
                Effect::UnsetGrab,
            ).push(Effect::ScheduleRender)
            &&& !participates && !held ==> n.outbox == m.outbox && n.input == m.input
            &&& n.toplevels == m.toplevels.remove(k)
        }),
{
    lemma_surface_index(m.toplevels, surface, k);
}

/// Toplevels that their clients gave up are forgotten, and exactly those.
pub proof fn law_dead_toplevels_are_forgotten(m: GlassModel, row: ToplevelInfo)
    ensures
        m.swept().toplevels.contains(row) <==> m.toplevels.contains(row) && row.alive,
{
    broadcast use vstd::seq_lib::group_filter_ensures;

    let s = m.toplevels;
    let p = is_alive();
    let f = s.filter(p);
    if f.contains(row) {
        let i = choose|i: int| 0 <= i < f.len() && f[i] == row;
        s.lemma_filter_pred(p, i);
        s.lemma_filter_contains_rev(p, row);
    }
    if s.contains(row) && row.alive {
        let i = choose|i: int| 0 <= i < s.len() && s[i] == row;
        assert(p(s[i]));
        assert(f.contains(s[i]));
    }
}

/// The visual of a popup's parent is that of the first toplevel with the
/// parent's surface, or else of the first popup with it.
pub proof fn law_parent_is_found_by_its_surface(m: GlassModel, surface: SurfaceId, k: int, p: int)
    ensures
        m.parent_visual(None) is None,
        0 <= k < m.toplevels.len() && m.toplevels[k].surface == surface && (forall|j: int|
            0 <= j < k ==> (#[trigger] m.toplevels[j]).surface != surface) ==> m.parent_visual(
            Some(surface),
        ) == m.toplevels[k].visual_id,
        (forall|j: int|
            0 <= j < m.toplevels.len() ==> (#[trigger] m.toplevels[j]).surface != surface) && 0
            <= p < m.popups.len() && m.popups[p].surface == surface && (forall|j: int|
            0 <= j < p ==> (#[trigger] m.popups[j]).surface != surface) ==> m.parent_visual(
            Some(surface),
        ) == m.popups[p].visual_id,
{
    if 0 <= k < m.toplevels.len() && m.toplevels[k].surface == surface && (forall|j: int|
        0 <= j < k ==> (#[trigger] m.toplevels[j]).surface != surface) {
        lemma_surface_index(m.toplevels, surface, k);
    }
    if forall|j: int|
        0 <= j < m.toplevels.len() ==> (#[trigger] m.toplevels[j]).surface != surface {
        lemma_surface_index(m.toplevels, surface, m.toplevels.len() as int);
    }
    if 0 <= p < m.popups.len() && m.popups[p].surface == surface && (forall|j: int|
        0 <= j < p ==> (#[trigger] m.popups[j]).surface != surface) {
        lemma_popup_index(m.popups, surface, p);
    }
}

/// A dismissed popup of the input method is gone from the scene, and the
/// frame is drawn anew.
pub proof fn law_dismissed_input_popup_is_unseen(m: GlassModel, surface: SurfaceId, vid: VisualId)
    requires
        value_of(m.ime_visuals, surface) == Some(vid.0),
    ensures
        ({
            let n = m.ime_popup_dismissed(surface);
            &&& is_fresh_id(n.scene, vid)
            &&& value_of(n.ime_visuals, surface) is None
            &&& n.outbox == m.outbox.push(Effect::ScheduleRender)
            &&& n.toplevels == m.toplevels
        }),
{
    law_removed_visual_is_gone(m.scene, vid, vid);
    lemma_absent(m.scene.removed(vid), vid);
    law_dropped_key_is_gone(m.ime_visuals, surface, 0);
}

/// A closed window that was on no workspace is remembered with the one
/// that is shown.
pub proof fn law_homeless_window_is_remembered_here(
    m: GlassModel,
    surface: SurfaceId,
    vid: VisualId,
    k: int,
    i: int,
    participates: bool,
    now: u64,
)
    requires
        m.wf(),
        is_held_by(m, surface, vid, k),
        is_visual(m.scene, vid, i),
        forall|w: int|
            0 <= w < m.workspaces.all.len() ==> !(
            #[trigger] m.workspaces.all[w]).visual_ids.contains(vid),
        0 < m.closed.cap,
        m.closed.entries.len() <= m.closed.cap,
    ensures
        m.toplevel_gone(surface, participates, now).closed.entries.last().workspace
            == m.workspaces.active,
{
    lemma_before(m, surface, vid, k, participates, now);
    lemma_visual(m.scene, vid, i);
    lemma_home_index(m.workspaces.all, vid, m.workspaces.all.len() as int);
    let d = before_refocus(m, surface, vid, k, participates, now);
    lemma_erased_known(d, vid);
    let e = d.erased(vid);
    assert(e.refocused(Some(vid)).closed == e.closed);
}

/// A minimized window is out of the history of focus, so that no round of
/// switching comes by it.
pub proof fn law_minimized_window_is_forgotten(m: GlassModel, vid: VisualId, k: int, i: int)
    requires
        is_row(m, vid, k),
        is_visual(m.scene, vid, i),
        is_let_be(m, vid),
        !m.toplevels[k].minimized,
    ensures
        !m.minimize_begun(vid).mru.contains(vid),
{
    lemma_row(m, vid, k);
    lemma_visual(m.scene, vid, i);
    let h = m.window_hidden(vid);
    lemma_changed(
        m.scene,
        vid,
        i,
        Visual { window_state: WindowState::Minimized, ..m.scene.visuals[i] },
    );
    lemma_visual(h.scene, vid, i);
    let p = shown_in(h.scene);
    assert(!h.mru.contains(vid)) by {
        if h.mru.contains(vid) {
            let j = choose|j: int| 0 <= j < h.mru.len() && h.mru[j] == vid;
            m.mru.lemma_filter_pred(p, j);
        }
    }
    if m.scene.focused_id == Some(vid) {
        law_refocus_goes_to_a_focusable_window(h, Some(vid));
        if let Some(v) = h.replacement(Some(vid)) {
            lemma_touched(h.mru, v, vid);
        }
    }
}

/// The menu moves its window to the workspace it names: there, and no
/// longer on the shown one. Moved to the shown workspace it stays, and the
/// camera is fitted; to one that does not exist it does not go.
pub proof fn law_menu_moves_to_the_workspace(
    m: GlassModel,
    vid: VisualId,
    views: Views,
    to: usize,
    w: int,
)
    requires
        m.wf(),
        m.menu.target == Some(vid),
        0 <= w < m.workspaces.all.len(),
    ensures
        ({
            let n = m.menu_executed(MenuAction::MoveToWorkspace(to), views);
            &&& n.workspaces.active == m.workspaces.active
            &&& n.scene == m.scene
            &&& to < m.workspaces.all.len() ==> n.workspaces.all[to as int].visual_ids.contains(vid)
            &&& to < m.workspaces.all.len() && to != m.workspaces.active ==> {
                &&& !n.workspaces.all[m.workspaces.active].visual_ids.contains(vid)
                &&& n.outbox == m.outbox
            }
            &&& to == m.workspaces.active ==> n.outbox == m.outbox.push(Effect::FitCamera)
            &&& to >= m.workspaces.all.len() ==> n.workspaces == m.workspaces && n.outbox
                == m.outbox
            &&& w != to && w != m.workspaces.active ==> n.workspaces.all[w] == m.workspaces.all[w]
        }),
{
    lemma_without_members(m.workspaces.all[m.workspaces.active].visual_ids, vid);
    if to < m.workspaces.all.len() {
        let ids = m.workspaces.all[to as int].visual_ids;
        let joined = with_member(ids, vid);
        assert(joined.contains(vid)) by {
            if !ids.contains(vid) {
                assert(joined[joined.len() - 1] == vid);
            }
        }
    }
}

/// The menu makes a group of its window alone, and ungrouping dissolves
/// the first group that has the window and no group of another id.
pub proof fn law_menu_groups_and_ungroups(
    m: GlassModel,
    vid: VisualId,
    views: Views,
    k: int,
    other: GroupModel,
)
    requires
        m.menu.target == Some(vid),
    ensures
        ({
            let n = m.menu_executed(MenuAction::Group, views).scene;
            &&& n.groups.len() == m.scene.groups.len() + 1
            &&& n.groups.drop_last() == m.scene.groups
            &&& n.groups.last().members == seq![vid]
            &&& n.groups.last().id.0 == m.scene.next_group
            &&& n.visuals == m.scene.visuals
        }),
        0 <= k < m.scene.groups.len() && m.scene.groups[k].members.contains(vid) && (forall|j: int|
            0 <= j < k ==> !(#[trigger] m.scene.groups[j]).members.contains(vid)) ==> {
            let n = m.menu_executed(MenuAction::Ungroup, views).scene;
            &&& n.groups.contains(other) <==> m.scene.groups.contains(other) && other.id
                != m.scene.groups[k].id
            &&& n.visuals == m.scene.visuals
        },
        (forall|j: int|
            0 <= j < m.scene.groups.len() ==> !(#[trigger] m.scene.groups[j]).members.contains(vid))
            ==> m.menu_executed(MenuAction::Ungroup, views).scene == m.scene,
{
    broadcast use vstd::seq_lib::group_filter_ensures;

    let g = m.menu_executed(MenuAction::Group, views).scene.groups;
    assert(g.drop_last() =~= m.scene.groups);
    let s = m.scene.groups;
    if 0 <= k < s.len() && s[k].members.contains(vid) && (forall|j: int|
        0 <= j < k ==> !(#[trigger] s[j]).members.contains(vid)) {
        lemma_member_index(s, vid, k);
        let id = s[k].id;
        let p = |g: GroupModel| g.id != id;
        let f = s.filter(p);
        assert(m.menu_executed(MenuAction::Ungroup, views).scene.groups == f);
        if f.contains(other) {
            let j = choose|j: int| 0 <= j < f.len() && f[j] == other;
            s.lemma_filter_pred(p, j);
            s.lemma_filter_contains_rev(p, other);
        }
        if s.contains(other) && other.id != id {
            let j = choose|j: int| 0 <= j < s.len() && s[j] == other;
            assert(p(s[j]));
            assert(f.contains(s[j]));
        }
    }
    if forall|j: int| 0 <= j < s.len() ==> !(#[trigger] s[j]).members.contains(vid) {
        lemma_member_index(s, vid, s.len() as int);
    }
}

} // verus!
