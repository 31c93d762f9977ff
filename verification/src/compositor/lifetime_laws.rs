//! What holds when windows come and go: a window that is gone leaves no
//! trace, and one that returns is put back where it was.
use vstd::prelude::*;

use crate::client_resize::{law_aborted_request_is_gone, request_for};
use crate::compositor::commit::{is_helper, saved_index, SurfaceCommit, WmWindowType};
use crate::compositor::damage::SourceUv;
use crate::compositor::lifecycle::{hanging_visuals, hangs_elsewhere, hangs_on};
use crate::compositor::state::{Effect, GlassModel, SavedVisual, ToplevelInfo};
use crate::compositor::terms::{is_fresh_id, is_visual};
use crate::focus::CameraMode;
use crate::fullscreen::law_aborted_fullscreen_is_gone;
use crate::id_list::{lemma_without_members, with_member};
use crate::maximize::law_aborted_maximize_is_gone;
use crate::scene::{
    law_removed_visual_is_gone, lemma_resized_has, lemma_visual_index, VisualId,
};
use crate::table::{dropped, keys_of, law_dropped_key_is_gone, value_of};
use crate::workspace::{law_left_visual_is_on_no_workspace, lemma_home_index_bounds};

verus! {

proof fn lemma_subsurfaces_keep_popups(m: GlassModel, surfaces: Seq<u64>)
    ensures
        m.subsurfaces_unshown(surfaces).popups == m.popups,
    decreases surfaces.len(),
{
    if surfaces.len() > 0 {
        lemma_subsurfaces_keep_popups(m, surfaces.drop_last());
    }
}

/// An erased visual is nowhere any more: not in the scene, on a workspace,
/// in a group or behind a surface, not in the focus history, an input sink,
/// a dock's list, a resize or a transition, not in a drag, the selection,
/// the camera, or a popup. What layout is to leave alone may still name it;
/// that means nothing for a visual that is not there.
pub proof fn law_erased_visual_leaves_no_trace(m: GlassModel, vid: VisualId)
    ensures
        ({
            let e = m.erased(vid);
            &&& !e.scene.has(vid)
            &&& e.workspaces.home(vid) is None
            &&& value_of(e.surfaces, vid.0) is None
            &&& !e.mru.contains(vid)
            &&& !e.sinks.contains(vid)
            &&& !e.announced.contains(vid)
            &&& request_for(e.resizes, vid) is None
            &&& e.maximize.intent(vid) is None
            &&& e.fullscreen.intent(vid) is None
            &&& !e.in_session(vid)
            &&& e.input.dragging != Some(vid)
            &&& e.scene.selected_id != Some(vid)
            &&& e.focus_manager.focus_target != Some(vid)
            &&& e.focus_manager.camera_mode != CameraMode::Focus(vid)
            &&& forall|i: int|
                0 <= i < e.scene.groups.len() ==> !(#[trigger] e.scene.groups[i]).members.contains(
                    vid,
                )
            &&& forall|i: int| 0 <= i < e.popups.len() ==> !hangs_on(#[trigger] e.popups[i], vid)
        }),
{
    let a = m.popups_cleaned(vid);
    let unhung = m.popups_unshown(hanging_visuals(m.popups, vid));
    assert forall|i: int| 0 <= i < a.popups.len() implies !hangs_on(#[trigger] a.popups[i], vid) by {
        unhung.popups.lemma_filter_pred(hangs_elsewhere(vid), i);
    }
    let b = a.children_cleaned(vid);
    if let Some(s) = a.surface_of(vid) {
        lemma_subsurfaces_keep_popups(a, keys_of(a.subsurface_parents, s));
    }
    assert(b.popups == a.popups);
    let c = b.withdrawn(vid);
    lemma_without_members(b.announced, vid);
    let d = c.undertakings_dropped(vid);
    law_aborted_request_is_gone(c.resizes, vid);
    law_aborted_maximize_is_gone(c.maximize, vid);
    law_aborted_fullscreen_is_gone(c.fullscreen, vid);
    lemma_without_members(c.mru, vid);
    let e = d.unshown(vid);
    law_removed_visual_is_gone(d.scene, vid, vid);
    law_dropped_key_is_gone(d.surfaces, vid.0, 0);
    law_left_visual_is_on_no_workspace(d.workspaces, vid);
    lemma_without_members(e.sinks, vid);
    let z = m.erased(vid);
    assert(z.scene.visuals == e.scene.visuals);
    assert forall|i: int| 0 <= i < z.scene.groups.len() implies !(
    #[trigger] z.scene.groups[i]).members.contains(vid) by {
        lemma_without_members(e.scene.groups[i].members, vid);
    }
}

/// The visual is in the scene and on its workspaces as before.
pub open spec fn spared(a: GlassModel, b: GlassModel, other: VisualId) -> bool {
    &&& b.scene.has(other) == a.scene.has(other)
    &&& b.workspaces.all.len() == a.workspaces.all.len()
    &&& forall|i: int|
        0 <= i < a.workspaces.all.len() ==> (#[trigger] b.workspaces.all[i]).visual_ids.contains(
            other,
        ) == a.workspaces.all[i].visual_ids.contains(other)
}

proof fn lemma_unshown_spares(m: GlassModel, v: VisualId, other: VisualId)
    requires
        v != other,
    ensures
        spared(m, m.unshown(v), other),
{
    law_removed_visual_is_gone(m.scene, v, other);
    law_left_visual_is_on_no_workspace(m.workspaces, v);
    let n = m.unshown(v);
    assert forall|i: int| 0 <= i < m.workspaces.all.len() implies (
    #[trigger] n.workspaces.all[i]).visual_ids.contains(other)
        == m.workspaces.all[i].visual_ids.contains(other) by {
        assert(m.workspaces.left_everywhere(v).all[i].visual_ids.contains(other)
            <==> m.workspaces.all[i].visual_ids.contains(other));
    }
}

proof fn lemma_popups_spare(m: GlassModel, ids: Seq<VisualId>, other: VisualId)
    requires
        !ids.contains(other),
    ensures
        spared(m, m.popups_unshown(ids), other),
        m.popups_unshown(ids).subsurfaces == m.subsurfaces,
    decreases ids.len(),
{
    if ids.len() > 0 {
        let rest = ids.drop_last();
        assert(!rest.contains(other)) by {
            if rest.contains(other) {
                let i = choose|i: int| 0 <= i < rest.len() && rest[i] == other;
                assert(ids[i] == other);
            }
        }
        lemma_popups_spare(m, rest, other);
        assert(ids[ids.len() - 1] == ids.last());
        lemma_unshown_spares(m.popups_unshown(rest), ids.last(), other);
    }
}

proof fn lemma_subsurfaces_spare(m: GlassModel, surfaces: Seq<u64>, other: VisualId)
    requires
        forall|s: u64| #[trigger] value_of(m.subsurfaces, s) != Some(other.0),
    ensures
        spared(m, m.subsurfaces_unshown(surfaces), other),
        forall|s: u64| #[trigger]
            value_of(m.subsurfaces_unshown(surfaces).subsurfaces, s) != Some(other.0),
    decreases surfaces.len(),
{
    if surfaces.len() > 0 {
        let n = m.subsurfaces_unshown(surfaces.drop_last());
        lemma_subsurfaces_spare(m, surfaces.drop_last(), other);
        let last = surfaces.last();
        if let Some(v) = value_of(n.subsurfaces, last) {
            assert(v != other.0);
            let k = GlassModel {
                subsurface_parents: dropped(n.subsurface_parents, last),
                ..n
            };
            lemma_unshown_spares(k, VisualId(v), other);
            let z = m.subsurfaces_unshown(surfaces);
            assert forall|s: u64| #[trigger] value_of(z.subsurfaces, s) != Some(other.0) by {
                law_dropped_key_is_gone(n.subsurfaces, last, s);
                assert(value_of(n.subsurfaces, s) != Some(other.0));
            }
        }
    }
}

/// Erasing one visual leaves every other window on its workspaces and in
/// the scene, but for the popups that hang on it and its subsurfaces.
pub proof fn law_erasing_spares_the_others(m: GlassModel, vid: VisualId, other: VisualId)
    requires
        other != vid,
        !hanging_visuals(m.popups, vid).contains(other),
        forall|s: u64| #[trigger] value_of(m.subsurfaces, s) != Some(other.0),
    ensures
        spared(m, m.erased(vid), other),
{
    lemma_popups_spare(m, hanging_visuals(m.popups, vid), other);
    let a = m.popups_cleaned(vid);
    assert(spared(m, a, other));
    let b = a.children_cleaned(vid);
    if let Some(s) = a.surface_of(vid) {
        lemma_subsurfaces_spare(a, keys_of(a.subsurface_parents, s), other);
    }
    assert(spared(a, b, other));
    let d = b.withdrawn(vid).undertakings_dropped(vid);
    assert(spared(b, d, other));
    lemma_unshown_spares(d, vid, other);
    let z = m.erased(vid);
    assert(z.scene.visuals == d.unshown(vid).scene.visuals);
    assert(z.workspaces == d.unshown(vid).workspaces);
}

/// A closed window is the first to be reopened, with the pose and the
/// workspace it had.
pub proof fn law_closed_window_is_remembered(
    m: GlassModel,
    row: ToplevelInfo,
    vid: VisualId,
    now: u64,
)
    requires
        m.scene.has(vid),
        m.closed.cap > 0,
        m.closed.entries.len() <= m.closed.cap,
    ensures
        ({
            let e = m.tombstoned(row, vid, now).closed.entries;
            &&& e.len() > 0
            &&& e[e.len() - 1].app_id == row.app_id
            &&& e[e.len() - 1].title == row.title
            &&& e[e.len() - 1].transform == m.scene.visual(vid).transform
            &&& e[e.len() - 1].closed_at_ms == now
            &&& m.workspaces.home(vid) matches Some(i) ==> e[e.len() - 1].workspace == i
        }),
{
}

/// A window of an application that was saved comes back in the pose it
/// was saved with.
pub proof fn law_saved_window_comes_back(m: GlassModel, app: Seq<char>, c: SurfaceCommit)
    requires
        saved_index(m.saved, app) < m.saved.len(),
    ensures
        m.placement(app, c) == m.saved[saved_index(m.saved, app)].transform,
{
}

proof fn lemma_saved_index_bounds(s: Seq<SavedVisual>, app: Seq<char>)
    ensures
        0 <= saved_index(s, app) <= s.len(),
        saved_index(s, app) < s.len() ==> s[saved_index(s, app)].app_id@ == app,
        forall|j: int| 0 <= j < saved_index(s, app) ==> (#[trigger] s[j]).app_id@ != app,
    decreases s.len(),
{
    if s.len() > 0 && s[0].app_id@ != app {
        let rest = s.drop_first();
        lemma_saved_index_bounds(rest, app);
        assert forall|j: int| 0 <= j < saved_index(s, app) implies (#[trigger] s[j]).app_id@
            != app by {
            if j > 0 {
                assert(s[j] == rest[j - 1]);
            }
        }
    }
}

/// Of several saved windows of one application, each is taken once, in
/// the order in which they were saved.
pub proof fn law_saved_duplicates_return_in_order(m: GlassModel, app: Seq<char>, vid: VisualId, k: int)
    requires
        0 <= k < m.saved.len(),
        m.saved[k].app_id@ == app,
        saved_index(m.saved, app) < k,
    ensures
        ({
            let first = saved_index(m.saved, app);
            let n = m.arrivals_taken(app, vid);
            &&& n.saved == m.saved.remove(first)
            &&& saved_index(n.saved, app) <= k - 1
            &&& n.saved[k - 1] == m.saved[k]
        }),
{
    lemma_saved_index_bounds(m.saved, app);
    let first = saved_index(m.saved, app);
    let n = m.arrivals_taken(app, vid).saved;
    assert(n == m.saved.remove(first));
    assert(n[k - 1] == m.saved[k]);
    lemma_saved_index_bounds(n, app);
}

/// A window that was saved on another workspace goes there, and leaves
/// the shown one.
pub proof fn law_saved_window_goes_home(m: GlassModel, vid: VisualId, idx: int)
    requires
        m.wf(),
        0 <= idx < m.workspaces.all.len(),
        idx != m.workspaces.active,
    ensures
        m.rehomed(vid, idx).workspaces.all[idx].visual_ids.contains(vid),
        !m.rehomed(vid, idx).workspaces.current().visual_ids.contains(vid),
{
    let ids = m.workspaces.all[idx].visual_ids;
    let joined = with_member(ids, vid);
    assert(joined.contains(vid)) by {
        if !ids.contains(vid) {
            assert(joined[joined.len() - 1] == vid);
        }
    }
    lemma_without_members(m.workspaces.current().visual_ids, vid);
}

/// What hangs on a visual is on its workspace: the first that has the
/// visual, or the shown one when none has it.
pub proof fn law_child_joins_its_parent(m: GlassModel, vid: VisualId, parent: VisualId)
    requires
        m.wf(),
        m.workspaces.all.len() <= usize::MAX,
    ensures
        m.joined_with(vid, parent).workspaces.all[match m.workspaces.home(parent) {
            Some(k) => k as int,
            None => m.workspaces.active,
        }].visual_ids.contains(vid),
{
    lemma_home_index_bounds(m.workspaces.all, parent);
    let k = match m.workspaces.home(parent) {
        Some(k) => k as int,
        None => m.workspaces.active,
    };
    let ids = m.workspaces.all[k].visual_ids;
    let joined = with_member(ids, vid);
    assert(joined.contains(vid)) by {
        if !ids.contains(vid) {
            assert(joined[joined.len() - 1] == vid);
        }
    }
}

/// What a client commits changes the size of its window, never the pose.
pub proof fn law_adopted_commit_keeps_the_pose(
    m: GlassModel,
    vid: VisualId,
    size: (i32, i32),
    crop: Option<SourceUv>,
)
    requires
        m.scene.has(vid),
    ensures
        ({
            let n = m.adopted(vid, size, crop).scene;
            &&& n.has(vid)
            &&& n.visual(vid).transform == m.scene.visual(vid).transform
            &&& n.visual(vid).width == size.0
            &&& n.visual(vid).height == size.1
        }),
{
    lemma_resized_has(m.scene, vid, size.0, size.1);
    lemma_visual_index(m.scene.visuals, vid);
}

/// Escape frees a locked pointer before it leaves any camera mode.
pub proof fn law_escape_frees_the_pointer_first(m: GlassModel)
    requires
        m.constraints.pointer_locked,
        m.constraints.locked_surface is Some,
    ensures
        !m.escaped().constraints.pointer_locked,
        m.escaped().camera == m.camera,
        m.escaped().focus_manager == m.focus_manager,
        m.escaped().input == m.input,
{
}

/// New text of a window is told: its decorations are lettered where it is
/// shown, and then whoever lists windows hears of it where it is announced.
pub proof fn law_new_text_is_told(m: GlassModel, vid: VisualId, i: int)
    ensures
        is_visual(m.scene, vid, i) && m.announced.contains(vid) ==> m.relettered(vid).outbox
            == m.outbox.push(Effect::LetterChrome { vid }).push(Effect::UpdateWindow { vid }),
        is_visual(m.scene, vid, i) && !m.announced.contains(vid) ==> m.relettered(vid).outbox
            == m.outbox.push(Effect::LetterChrome { vid }),
        is_fresh_id(m.scene, vid) && !m.announced.contains(vid) ==> m.relettered(vid) == m,
        m.relettered(vid).toplevels == m.toplevels,
        m.relettered(vid).scene == m.scene,
{
}

/// The title and the application that a client states are its window's,
/// each in its own place, and no other window's.
pub proof fn law_stated_names_are_kept(m: GlassModel, k: int, j: int, title: String, app_id: String)
    requires
        0 <= k < m.toplevels.len(),
        0 <= j < m.toplevels.len(),
    ensures
        m.named(k, title, app_id).toplevels[k].title == title,
        m.named(k, title, app_id).toplevels[k].app_id == app_id,
        m.named(k, title, app_id).toplevels[k].surface == m.toplevels[k].surface,
        j != k ==> m.named(k, title, app_id).toplevels[j] == m.toplevels[j],
{
}

/// Dialogs and ordinary windows may take the keyboard; menus, tooltips and
/// the like leave it with their application.
pub proof fn law_helpers_leave_the_keyboard(t: WmWindowType)
    ensures
        t == WmWindowType::Dialog || t == WmWindowType::Normal ==> !is_helper(t),
        t == WmWindowType::DropdownMenu || t == WmWindowType::Menu || t
            == WmWindowType::Notification || t == WmWindowType::PopupMenu || t
            == WmWindowType::Splash || t == WmWindowType::Toolbar || t == WmWindowType::Tooltip
            || t == WmWindowType::Utility ==> is_helper(t),
{
}

} // verus!
