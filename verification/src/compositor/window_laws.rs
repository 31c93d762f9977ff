//! What holds of a window through its states: hidden, maximized or
//! fullscreen, it comes back as it was.
use vstd::prelude::*;

use crate::compositor::focus_laws::{
    law_refocus_goes_to_a_focusable_window, lemma_brought_into_view, lemma_focus_moves_nothing,
    lemma_same_rows_minimized, lemma_same_windows, same_windows,
};
use crate::compositor::focusing::{
    is_window, lemma_window_index, lemma_window_index_bounds, window_index,
};
use crate::compositor::state::{ConfigureChange, GlassModel, ToplevelInfo};
use crate::compositor::transitions::{given_back, pose_of};
use crate::fullscreen::{
    law_begun_fullscreen_replaces, snapshot_of, FullscreenIntent, FullscreenKind, FullscreenSource,
};
use crate::maximize::{
    law_begun_maximize_replaces, MaximizeIntent, MaximizeKind, MaximizeSource,
};
use crate::scene::{
    centred, lemma_visual_index, visual_index, SceneModel, Visual, VisualId, WindowState,
};

verus! {

/// The visual of a window replaced is found where it was.
proof fn lemma_with_visual(m: SceneModel, id: VisualId, v: Visual)
    requires
        m.has(id),
        v.id == id,
    ensures
        m.with_visual(id, v).has(id),
        visual_index(m.with_visual(id, v).visuals, id) == visual_index(m.visuals, id),
        m.with_visual(id, v).visual(id) == v,
{
    lemma_visual_index(m.visuals, id);
    let k = visual_index(m.visuals, id);
    let u = m.with_visual(id, v).visuals;
    assert(u[k].id == id);
    lemma_visual_index(u, id);
    let j = visual_index(u, id);
    if j < k {
        assert(u[j] == m.visuals[j]);
    }
    if k < j {
        assert(u[k].id != id);
    }
}

/// The row of a window replaced is found where it was, if the new row
/// shows the same visual.
proof fn lemma_with_row(m: GlassModel, vid: VisualId, row: ToplevelInfo)
    requires
        is_window(m.toplevels, vid),
        row.visual_id == Some(vid),
    ensures
        window_index(m.with_row(vid, row).toplevels, vid) == window_index(m.toplevels, vid),
        is_window(m.with_row(vid, row).toplevels, vid),
        m.with_row(vid, row).row(vid) == row,
        m.row(vid).visual_id == Some(vid),
{
    lemma_window_index_bounds(m.toplevels, vid);
    let k = window_index(m.toplevels, vid);
    let u = m.with_row(vid, row).toplevels;
    assert forall|j: int| 0 <= j < k implies (#[trigger] u[j]).visual_id != Some(vid) by {
        assert(u[j] == m.toplevels[j]);
    }
    lemma_window_index(u, vid, k);
}

/// Minimizing hides the window and takes focus from it. No window moves,
/// and no workspace changes.
pub proof fn law_minimize_only_hides(m: GlassModel, vid: VisualId, other: VisualId)
    requires
        m.may_minimize(vid),
    ensures
        ({
            let n = m.minimize_begun(vid);
            &&& n.minimized(vid)
            &&& !n.scene.is_visible(vid)
            &&& n.scene.focused_id != Some(vid)
            &&& n.workspaces == m.workspaces
            &&& n.camera == m.camera
            &&& n.scene.has(other) == m.scene.has(other)
            &&& m.scene.has(other) ==> n.scene.visual(other).transform == m.scene.visual(
                other,
            ).transform
        }),
{
    let h = m.window_hidden(vid);
    let row = ToplevelInfo { minimized: true, ..m.row(vid) };
    lemma_window_index_bounds(m.toplevels, vid);
    lemma_with_row(m, vid, row);
    assert(h.toplevels == m.with_row(vid, row).toplevels);
    let k = window_index(h.toplevels, vid);
    assert(h.toplevels[k].minimized && h.toplevels[k].visual_id == Some(vid));
    let v = Visual {
        window_state: WindowState::Minimized,
        ..m.scene.visual(vid)
    };
    lemma_visual_index(m.scene.visuals, vid);
    lemma_with_visual(m.scene, vid, v);
    if other == vid {
    } else {
        lemma_elsewhere(m.scene, vid, v, other);
    }
    let r = h.replacement(Some(vid));
    law_refocus_goes_to_a_focusable_window(h, Some(vid));
    let s = GlassModel { scene: h.scene.selected(r), ..h };
    lemma_focus_moves_nothing(s, r);
    let n = m.minimize_begun(vid);
    assert(same_windows(h.scene.visuals, n.scene.visuals));
    assert(n.toplevels == h.toplevels);
    lemma_same_windows(h.scene, n.scene, vid);
    lemma_same_windows(h.scene, n.scene, other);
    assert(n.toplevels[k].minimized);
}

/// Replacing one visual changes no other.
proof fn lemma_elsewhere(m: SceneModel, id: VisualId, v: Visual, other: VisualId)
    requires
        m.has(id),
        v.id == id,
        other != id,
    ensures
        m.with_visual(id, v).has(other) == m.has(other),
        m.has(other) ==> m.with_visual(id, v).visual(other) == m.visual(other),
{
    lemma_visual_index(m.visuals, id);
    lemma_visual_index(m.visuals, other);
    let k = visual_index(m.visuals, id);
    let u = m.with_visual(id, v).visuals;
    lemma_visual_index(u, other);
    let a = visual_index(m.visuals, other);
    let b = visual_index(u, other);
    assert(u[k].id == id);
    if m.has(other) {
        assert(u[a].id == other);
    }
    if m.with_visual(id, v).has(other) {
        assert(m.visuals[b].id == other);
    }
    if m.has(other) {
        if a < b {
            assert(u[a].id != other);
        }
        if b < a {
            assert(m.visuals[b].id != other);
        }
    }
}

/// A window that was minimized comes back in the pose it had, on the
/// workspace it was on, visible and focused.
pub proof fn law_minimized_window_comes_back(m: GlassModel, vid: VisualId)
    requires
        m.wf(),
        m.workspaces.all.len() <= usize::MAX,
        m.may_minimize(vid),
        forall|i: int, j: int|
            0 <= i < m.toplevels.len() && 0 <= j < m.toplevels.len() && (
            #[trigger] m.toplevels[i]).visual_id == Some(vid) && (
            #[trigger] m.toplevels[j]).visual_id == Some(vid) ==> i == j,
    ensures
        ({
            let back = m.minimize_begun(vid).minimize_restored(vid);
            &&& !back.minimized(vid)
            &&& back.scene.is_visible(vid)
            &&& back.scene.visual(vid).transform == m.scene.visual(vid).transform
            &&& back.scene.focused_id == Some(vid)
            &&& m.workspaces.home(vid) matches Some(i) ==> back.workspaces.active == i
        }),
{
    law_minimize_only_hides(m, vid, vid);
    let n = m.minimize_begun(vid);
    lemma_brought_into_view(n, vid);
    let b = n.brought_into_view(vid);
    lemma_same_windows(n.scene, b.scene, vid);
    lemma_same_rows_minimized(n, b, vid);
    let h = m.window_hidden(vid);
    let hidden_row = ToplevelInfo { minimized: true, ..m.row(vid) };
    lemma_window_index_bounds(m.toplevels, vid);
    lemma_with_row(m, vid, hidden_row);
    assert(n.toplevels == h.toplevels);
    let k = window_index(m.toplevels, vid);
    assert(b.toplevels[k].visual_id == Some(vid));
    assert forall|j: int| 0 <= j < b.toplevels.len() && j != k implies (
    #[trigger] b.toplevels[j]).visual_id != Some(vid) by {
        assert(n.toplevels[j].visual_id == b.toplevels[j].visual_id);
        assert(n.toplevels[j] == m.toplevels[j]);
        assert(m.toplevels[k].visual_id == Some(vid));
    }
    lemma_window_index(b.toplevels, vid, k);
    let row = ToplevelInfo { minimized: false, ..b.row(vid) };
    lemma_with_row(b, vid, row);
    let shown = GlassModel {
        scene: b.scene.hidden(vid, false),
        ..b.with_row(vid, row)
    };
    lemma_visual_index(b.scene.visuals, vid);
    lemma_with_visual(
        b.scene,
        vid,
        Visual { window_state: WindowState::Normal, ..b.scene.visual(vid) },
    );
    let back = n.minimize_restored(vid);
    assert(same_windows(shown.scene.visuals, back.scene.visuals));
    lemma_same_windows(shown.scene, back.scene, vid);
    assert(back.toplevels == shown.toplevels);
    assert forall|j: int| 0 <= j < back.toplevels.len() && (
    #[trigger] back.toplevels[j]).visual_id == Some(vid) implies !back.toplevels[j].minimized by {
        if j != k {
            assert(back.toplevels[j] == b.toplevels[j]);
        }
    }
}

/// A second request to minimize a minimized window changes nothing, nor
/// does one to restore a window that is not minimized.
pub proof fn law_minimize_is_idempotent(m: GlassModel, vid: VisualId)
    ensures
        m.minimized(vid) ==> m.minimize_begun(vid) == m,
        !m.minimized(vid) ==> m.minimize_restored(vid) == m,
{
}

/// A begun maximize asks for the view, remembers how the window is turned,
/// and a further commit at the size from before leaves it pending.
pub proof fn law_begun_maximize_waits_for_the_client(m: GlassModel, vid: VisualId, source: MaximizeSource)
    requires
        m.may_maximize(vid),
        !m.must_wait(vid),
    ensures
        ({
            let b = m.maximize_begun(vid, source);
            let v = m.scene.visual(vid);
            &&& b.maximize.intent(vid) matches Some(i) && i.target == m.view_target()
                && i.restore_rot == pose_of(v.transform).1 && i.restore == (v.width, v.height)
            &&& b.scene == m.scene
            &&& (v.width, v.height) != m.view_target() ==> b.maximize_completed(
                vid,
                (v.width, v.height),
            ) == b
        }),
{
    let v = m.scene.visual(vid);
    let s = m.size_sent(vid, m.view_target(), ConfigureChange::Maximize);
    let intent = MaximizeIntent {
        vid,
        kind: MaximizeKind::Maximize,
        source,
        serial: s.configure_serial,
        target: m.view_target(),
        restore: (v.width, v.height),
        previous: (v.width, v.height),
        restore_pos: pose_of(v.transform).0,
        restore_rot: pose_of(v.transform).1,
    };
    law_begun_maximize_replaces(s.maximize, intent);
}

/// A maximized window that is restored has the pose it had when it was
/// asked to maximize, and nothing of the maximized state is left with it.
pub proof fn law_maximize_gives_the_pose_back(
    m: GlassModel,
    up: MaximizeIntent,
    down: MaximizeIntent,
)
    requires
        up.vid == down.vid,
        is_window(m.toplevels, up.vid),
        m.scene.has(up.vid),
    ensures
        ({
            let vid = up.vid;
            let big = m.maximize_applied(up);
            let back = big.unmaximize_applied(down);
            &&& big.row(vid).maximized
            &&& big.scene.visual(vid).transform == centred(m.scene.visual(vid).transform)
            &&& back.scene.visual(vid).transform == given_back(
                m.scene.visual(vid).transform,
                (up.restore_pos, up.restore_rot),
            )
            &&& pose_of(back.scene.visual(vid).transform) == (up.restore_pos, up.restore_rot)
            &&& !back.row(vid).maximized
            &&& back.row(vid).restore_pose is None
            &&& back.row(vid).restore_size is None
        }),
{
    let vid = up.vid;
    let t = m.scene.visual(vid).transform;
    lemma_window_index_bounds(m.toplevels, vid);
    lemma_visual_index(m.scene.visuals, vid);
    let row = ToplevelInfo {
        maximized: true,
        restore_size: Some(up.restore),
        restore_pose: Some((up.restore_pos, up.restore_rot)),
        ..m.row(vid)
    };
    lemma_with_row(m, vid, row);
    lemma_with_visual(m.scene, vid, Visual { transform: centred(t), ..m.scene.visual(vid) });
    let big = m.maximize_applied(up);
    assert(big.row(vid) == row);
    lemma_visual_index(big.scene.visuals, vid);
    let r2 = ToplevelInfo { maximized: false, restore_size: None, restore_pose: None, ..row };
    lemma_with_row(big, vid, r2);
    let back_t = given_back(big.scene.visual(vid).transform, row.restore_pose.unwrap());
    assert(back_t == given_back(t, (up.restore_pos, up.restore_rot)));
    lemma_with_visual(
        big.scene,
        vid,
        Visual { transform: back_t, ..big.scene.visual(vid) },
    );
}

/// A begun fullscreen keeps the window as it is, to give back: it is
/// captured here once. To ask again on the way there leaves the capture
/// alone, and so does a further commit at the size from before, which
/// leaves the transition pending.
pub proof fn law_fullscreen_captures_once(m: GlassModel, vid: VisualId, source: FullscreenSource)
    requires
        m.may_fullscreen(vid),
        !m.must_wait(vid),
    ensures
        ({
            let b = m.fullscreen_begun(vid, source);
            let v = m.scene.visual(vid);
            &&& !m.fullscreen_pending(vid) ==> b.row(vid).fullscreen_snapshot == Some(
                snapshot_of(
                    (v.width, v.height),
                    v.transform.position,
                    v.transform.rotation,
                    m.maximized(vid),
                ),
            )
            &&& m.fullscreen_pending(vid) && m.row(vid).fullscreen_snapshot is Some ==> b.row(
                vid,
            ).fullscreen_snapshot == m.row(vid).fullscreen_snapshot
            &&& b.fullscreen_pending(vid)
            &&& b.scene == m.scene
            &&& (v.width, v.height) != m.view_target() ==> b.fullscreen_completed(
                vid,
                (v.width, v.height),
            ) == b
        }),
{
    let v = m.scene.visual(vid);
    let a = GlassModel { maximize: m.maximize.aborted(vid), ..m };
    let s = a.size_sent(
        vid,
        m.view_target(),
        ConfigureChange::Fullscreen { keep_maximized: m.maximized(vid) },
    );
    let intent = FullscreenIntent {
        vid,
        kind: FullscreenKind::Fullscreen,
        source,
        serial: s.configure_serial,
        target: m.view_target(),
        previous: (v.width, v.height),
        snapshot: None,
    };
    law_begun_fullscreen_replaces(s.fullscreen, intent);
    lemma_window_index_bounds(m.toplevels, vid);
    let k = window_index(m.toplevels, vid);
    assert forall|j: int| 0 <= j < k implies (#[trigger] s.toplevels[j]).visual_id != Some(
        vid,
    ) by {
        assert(s.toplevels[j] == m.toplevels[j]);
    }
    lemma_window_index(s.toplevels, vid, k);
    let n = GlassModel { fullscreen: s.fullscreen.begun(intent), ..s };
    lemma_with_row(
        n,
        vid,
        ToplevelInfo {
            fullscreen_snapshot: Some(m.captured_for_fullscreen(vid)),
            ..n.row(vid)
        },
    );
}

/// A window that leaves fullscreen has the pose it was captured with. One
/// that was maximized is maximized again, and keeps what unmaximizing will
/// give back.
pub proof fn law_fullscreen_gives_the_pose_back(m: GlassModel, vid: VisualId)
    requires
        is_window(m.toplevels, vid),
        m.scene.has(vid),
        m.row(vid).fullscreen_snapshot matches Some(s) && s == snapshot_of(
            s.restore_size,
            m.scene.visual(vid).transform.position,
            m.scene.visual(vid).transform.rotation,
            s.was_maximized,
        ),
    ensures
        ({
            let full = m.fullscreen_applied(vid);
            let back = full.unfullscreen_applied(vid);
            let s = m.row(vid).fullscreen_snapshot.unwrap();
            let t = m.scene.visual(vid).transform;
            &&& full.row(vid).fullscreened
            &&& full.scene.visual(vid).transform == centred(t)
            &&& !back.row(vid).fullscreened
            &&& back.row(vid).fullscreen_snapshot is None
            &&& back.row(vid).maximized == s.was_maximized
            &&& s.was_maximized ==> back.row(vid).restore_pose == m.row(vid).restore_pose
                && back.row(vid).restore_size == m.row(vid).restore_size
                && back.scene.visual(vid).transform == centred(t)
            &&& !s.was_maximized ==> back.scene.visual(vid).transform == t
        }),
{
    let t = m.scene.visual(vid).transform;
    lemma_window_index_bounds(m.toplevels, vid);
    lemma_visual_index(m.scene.visuals, vid);
    let row = ToplevelInfo { fullscreened: true, ..m.row(vid) };
    lemma_with_row(m, vid, row);
    lemma_with_visual(m.scene, vid, Visual { transform: centred(t), ..m.scene.visual(vid) });
    let full = m.fullscreen_applied(vid);
    lemma_visual_index(full.scene.visuals, vid);
    let s = row.fullscreen_snapshot.unwrap();
    let back = given_back(full.scene.visual(vid).transform, (s.restore_pos, s.restore_rot));
    assert(back == t);
    let r2 = ToplevelInfo {
        fullscreened: false,
        fullscreen_snapshot: None,
        maximized: s.was_maximized,
        restore_size: if s.was_maximized {
            row.restore_size
        } else {
            None
        },
        restore_pose: if s.was_maximized {
            row.restore_pose
        } else {
            None
        },
        ..row
    };
    lemma_with_row(full, vid, r2);
    lemma_with_visual(
        full.scene,
        vid,
        Visual {
            transform: if s.was_maximized {
                centred(back)
            } else {
                back
            },
            ..full.scene.visual(vid)
        },
    );
}

/// A fullscreen window stays fullscreen: a request to maximize it changes
/// nothing.
pub proof fn law_fullscreen_refuses_maximize(m: GlassModel, vid: VisualId, source: MaximizeSource)
    requires
        m.fullscreened(vid),
    ensures
        m.maximize_begun(vid, source) == m,
{
}

/// While a client owes an acknowledgement no configure goes out to
/// maximize it: the request waits, and nothing else changes.
pub proof fn law_maximize_waits_for_acknowledgement(
    m: GlassModel,
    vid: VisualId,
    source: MaximizeSource,
)
    requires
        m.may_maximize(vid),
        m.must_wait(vid),
    ensures
        m.maximize_begun(vid, source).outbox == m.outbox,
        m.maximize_begun(vid, source).maximize.deferred == Some(
            (vid, MaximizeKind::Maximize, source),
        ),
{
}

} // verus!
