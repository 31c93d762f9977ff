//! What maximizing and fullscreen are for: the client is asked for the
//! right size, a window is given back the size and the pose it had, and a
//! request that has to wait is made in the end.
use vstd::prelude::*;

use crate::client_resize::{lemma_requests_without, requests_without, ClientResizeRequest};
use crate::compositor::state::{ConfigureChange, Effect, GlassModel, ToplevelInfo};
use crate::compositor::terms::{
    faces_front, is_let_be, is_row, is_visual, lemma_changed, lemma_row, lemma_visual,
    one_or_more, owes_nothing, same_but, succ,
};
use crate::compositor::transitions::{given_back, pose_of};
use crate::fullscreen::{
    law_begun_fullscreen_replaces, FullscreenIntent, FullscreenKind, FullscreenSource,
};
use crate::maximize::{
    law_begun_maximize_replaces, MaximizeIntent, MaximizeKind, MaximizeSource,
};
use crate::scene::{centred, Transform3D, Visual, VisualId};

verus! {

/// One configure went to the window at `k`, and nothing else went out: it
/// asks for this size and this change, under the next serial, and an
/// answer of that size is awaited.
pub open spec fn asked(
    before: GlassModel,
    after: GlassModel,
    vid: VisualId,
    k: int,
    size: (i32, i32),
    change: ConfigureChange,
) -> bool {
    &&& after.outbox == before.outbox.push(
        Effect::Configure {
            surface: before.toplevels[k].surface,
            serial: after.configure_serial,
            size: Some(size),
            change,
        },
    )
    &&& after.configure_serial == succ(before.configure_serial)
    &&& after.toplevels[k].owes_ack
    &&& after.resizes.len() > 0 && after.resizes.last() == (ClientResizeRequest {
        vid,
        serial: after.configure_serial,
        requested: size,
        acknowledged: false,
    })
    &&& forall|i: int|
        0 <= i < after.resizes.len() - 1 ==> (#[trigger] after.resizes[i]).vid != vid
            && before.resizes.contains(after.resizes[i])
}

/// Nothing but whether the client of the window at `k` owes an answer,
/// and what fullscreen will give back, differs between the toplevels.
pub open spec fn same_rows_but(a: GlassModel, b: GlassModel, k: int) -> bool {
    &&& a.toplevels.len() == b.toplevels.len()
    &&& forall|j: int|
        0 <= j < a.toplevels.len() && j != k ==> #[trigger] a.toplevels[j] == b.toplevels[j]
}

proof fn lemma_sent(
    m: GlassModel,
    vid: VisualId,
    k: int,
    size: (i32, i32),
    change: ConfigureChange,
)
    requires
        is_row(m, vid, k),
    ensures
        asked(m, m.size_sent(vid, size, change), vid, k, size, change),
        m.size_sent(vid, size, change).toplevels == m.toplevels.update(
            k,
            ToplevelInfo { owes_ack: true, ..m.toplevels[k] },
        ),
        is_row(m.size_sent(vid, size, change), vid, k),
{
    lemma_row(m, vid, k);
    lemma_requests_without(m.resizes, vid);
    let n = m.size_sent(vid, size, change);
    let w = requests_without(m.resizes, vid);
    assert forall|i: int| 0 <= i < n.resizes.len() - 1 implies (#[trigger] n.resizes[i]).vid != vid
        && m.resizes.contains(n.resizes[i]) by {
        assert(n.resizes[i] == w[i]);
        assert(w.contains(w[i]));
    }
}

/// A window that is asked to maximize is sent the size of the view, and
/// what it will be given back is its size and pose of this moment. Nothing
/// is moved or resized before the client answers.
pub proof fn law_maximize_asks_for_the_view(
    m: GlassModel,
    vid: VisualId,
    k: int,
    i: int,
    source: MaximizeSource,
)
    requires
        is_row(m, vid, k),
        is_visual(m.scene, vid, i),
        owes_nothing(m, vid, k),
        is_let_be(m, vid),
        !m.toplevels[k].maximized,
        !m.toplevels[k].fullscreened,
        m.scene.visuals[i].width > 0,
        m.scene.visuals[i].height > 0,
    ensures
        ({
            let n = m.maximize_begun(vid, source);
            let v = m.scene.visuals[i];
            let view = (one_or_more(m.view_size.0), one_or_more(m.view_size.1));
            &&& asked(m, n, vid, k, view, ConfigureChange::Maximize)
            &&& n.maximize.intent(vid) matches Some(t) && {
                &&& t.vid == vid
                &&& t.kind == MaximizeKind::Maximize
                &&& t.source == source
                &&& t.serial == n.configure_serial
                &&& t.target == view
                &&& t.previous == (v.width, v.height)
                &&& t.restore == (v.width, v.height)
                &&& t.restore_pos == (
                    v.transform.position.x,
                    v.transform.position.y,
                    v.transform.position.z,
                )
                &&& t.restore_rot == (
                    v.transform.rotation.x,
                    v.transform.rotation.y,
                    v.transform.rotation.z,
                    v.transform.rotation.s,
                )
            }
            &&& n.scene == m.scene
            &&& n.fullscreen == m.fullscreen
            &&& n.maximize.deferred == m.maximize.deferred
            &&& n.toplevels == m.toplevels.update(
                k,
                ToplevelInfo { owes_ack: true, ..m.toplevels[k] },
            )
        }),
{
    lemma_row(m, vid, k);
    lemma_visual(m.scene, vid, i);
    let view = m.view_target();
    lemma_sent(m, vid, k, view, ConfigureChange::Maximize);
    let s = m.size_sent(vid, view, ConfigureChange::Maximize);
    let v = m.scene.visuals[i];
    let intent = MaximizeIntent {
        vid,
        kind: MaximizeKind::Maximize,
        source,
        serial: s.configure_serial,
        target: view,
        restore: (v.width, v.height),
        previous: (v.width, v.height),
        restore_pos: pose_of(v.transform).0,
        restore_rot: pose_of(v.transform).1,
    };
    law_begun_maximize_replaces(s.maximize, intent);
}

/// A window is not maximized that is so already, or is fullscreen, or is
/// being resized, or has nothing to show: the request changes nothing.
pub proof fn law_maximize_is_refused(
    m: GlassModel,
    vid: VisualId,
    k: int,
    i: int,
    source: MaximizeSource,
)
    requires
        is_row(m, vid, k),
        is_visual(m.scene, vid, i),
        m.toplevels[k].maximized || m.toplevels[k].fullscreened || !is_let_be(m, vid)
            || m.scene.visuals[i].width <= 0 || m.scene.visuals[i].height <= 0,
    ensures
        m.maximize_begun(vid, source) == m,
{
    lemma_row(m, vid, k);
    lemma_visual(m.scene, vid, i);
}

/// Once the client has answered a request to maximize, the window is
/// maximized: it faces the viewer from the middle of the view, and keeps
/// for later the size and pose that the request recorded.
pub proof fn law_maximize_is_carried_out(
    m: GlassModel,
    vid: VisualId,
    k: int,
    i: int,
    t: MaximizeIntent,
    size: (i32, i32),
)
    requires
        is_row(m, vid, k),
        is_visual(m.scene, vid, i),
        m.maximize.intent(vid) == Some(t),
        t.vid == vid,
        t.kind == MaximizeKind::Maximize,
        size != t.previous || size == t.target,
        m.maximize.deferred is None,
    ensures
        ({
            let n = m.maximize_completed(vid, size);
            &&& n.toplevels[k] == (ToplevelInfo {
                maximized: true,
                restore_size: Some(t.restore),
                restore_pose: Some((t.restore_pos, t.restore_rot)),
                ..m.toplevels[k]
            })
            &&& same_rows_but(m, n, k)
            &&& faces_front(n.scene.visuals[i].transform, m.scene.visuals[i].transform)
            &&& n.scene.visuals[i].width == m.scene.visuals[i].width
            &&& n.scene.visuals[i].height == m.scene.visuals[i].height
            &&& same_but(m.scene, n.scene, i)
            &&& n.outbox == m.outbox
        }),
{
    lemma_row(m, vid, k);
    lemma_visual(m.scene, vid, i);
    let a = GlassModel { maximize: m.maximize.taken(vid), ..m };
    lemma_row(a, vid, k);
    lemma_changed(
        m.scene,
        vid,
        i,
        Visual { transform: centred(m.scene.visuals[i].transform), ..m.scene.visuals[i] },
    );
}

/// A maximized window that is asked to stop being so is sent the size it
/// was maximized from.
pub proof fn law_unmaximize_asks_for_the_former_size(
    m: GlassModel,
    vid: VisualId,
    k: int,
    i: int,
    source: MaximizeSource,
    former: (i32, i32),
)
    requires
        is_row(m, vid, k),
        is_visual(m.scene, vid, i),
        owes_nothing(m, vid, k),
        m.toplevels[k].maximized,
        m.toplevels[k].restore_size == Some(former),
    ensures
        ({
            let n = m.unmaximize_begun(vid, source);
            &&& asked(m, n, vid, k, former, ConfigureChange::Unmaximize)
            &&& n.maximize.intent(vid) matches Some(t) && {
                &&& t.vid == vid
                &&& t.kind == MaximizeKind::Unmaximize
                &&& t.source == source
                &&& t.serial == n.configure_serial
                &&& t.target == former
                &&& t.previous == (m.scene.visuals[i].width, m.scene.visuals[i].height)
            }
            &&& n.scene == m.scene
            &&& n.fullscreen == m.fullscreen
            &&& n.toplevels == m.toplevels.update(
                k,
                ToplevelInfo { owes_ack: true, ..m.toplevels[k] },
            )
        }),
{
    lemma_row(m, vid, k);
    lemma_visual(m.scene, vid, i);
    lemma_sent(m, vid, k, former, ConfigureChange::Unmaximize);
    let s = m.size_sent(vid, former, ConfigureChange::Unmaximize);
    let intent = MaximizeIntent {
        vid,
        kind: MaximizeKind::Unmaximize,
        source,
        serial: s.configure_serial,
        target: former,
        restore: former,
        previous: m.committed_or(vid, former),
        restore_pos: m.unmaximize_pose(vid).0,
        restore_rot: m.unmaximize_pose(vid).1,
    };
    law_begun_maximize_replaces(s.maximize, intent);
}

/// A window that is not maximized has nothing to undo.
pub proof fn law_unmaximize_is_refused(
    m: GlassModel,
    vid: VisualId,
    k: int,
    source: MaximizeSource,
)
    requires
        is_row(m, vid, k),
        !m.toplevels[k].maximized,
    ensures
        m.unmaximize_begun(vid, source) == m,
{
    lemma_row(m, vid, k);
}

/// The transform has this position and this rotation, and the scale of
/// another.
pub open spec fn has_pose(
    t: Transform3D,
    pos: (u32, u32, u32),
    rot: (u32, u32, u32, u32),
    from: Transform3D,
) -> bool {
    &&& t.position.x == pos.0
    &&& t.position.y == pos.1
    &&& t.position.z == pos.2
    &&& t.rotation.x == rot.0
    &&& t.rotation.y == rot.1
    &&& t.rotation.z == rot.2
    &&& t.rotation.s == rot.3
    &&& t.scale == from.scale
}

/// Once the client has answered a request to unmaximize, the window has
/// the pose that was kept for it and is no longer maximized, and nothing
/// is kept any more.
pub proof fn law_unmaximize_is_carried_out(
    m: GlassModel,
    vid: VisualId,
    k: int,
    i: int,
    t: MaximizeIntent,
    size: (i32, i32),
    pos: (u32, u32, u32),
    rot: (u32, u32, u32, u32),
)
    requires
        is_row(m, vid, k),
        is_visual(m.scene, vid, i),
        m.maximize.intent(vid) == Some(t),
        t.vid == vid,
        t.kind == MaximizeKind::Unmaximize,
        size != t.previous || size == t.target,
        m.maximize.deferred is None,
        m.toplevels[k].restore_pose == Some((pos, rot)),
    ensures
        ({
            let n = m.maximize_completed(vid, size);
            &&& n.toplevels[k] == (ToplevelInfo {
                maximized: false,
                restore_size: None,
                restore_pose: None,
                ..m.toplevels[k]
            })
            &&& same_rows_but(m, n, k)
            &&& has_pose(n.scene.visuals[i].transform, pos, rot, m.scene.visuals[i].transform)
            &&& same_but(m.scene, n.scene, i)
            &&& n.outbox == m.outbox
        }),
{
    lemma_row(m, vid, k);
    lemma_visual(m.scene, vid, i);
    let a = GlassModel { maximize: m.maximize.taken(vid), ..m };
    lemma_row(a, vid, k);
    lemma_changed(
        m.scene,
        vid,
        i,
        Visual {
            transform: given_back(m.scene.visuals[i].transform, (pos, rot)),
            ..m.scene.visuals[i]
        },
    );
}

/// A window that was maximized and is asked to stop is asked for exactly
/// the size it had when the maximize was begun, whatever happened in
/// between to anything else.
pub proof fn law_maximize_gives_the_size_back(
    m: GlassModel,
    vid: VisualId,
    k: int,
    i: int,
    source: MaximizeSource,
    size: (i32, i32),
    later: GlassModel,
    j: int,
    h: int,
    by: MaximizeSource,
)
    requires
        is_row(m, vid, k),
        is_visual(m.scene, vid, i),
        owes_nothing(m, vid, k),
        is_let_be(m, vid),
        !m.toplevels[k].maximized,
        !m.toplevels[k].fullscreened,
        m.scene.visuals[i].width > 0,
        m.scene.visuals[i].height > 0,
        m.maximize.deferred is None,
        size != (m.scene.visuals[i].width, m.scene.visuals[i].height),
        is_row(later, vid, j),
        is_visual(later.scene, vid, h),
        owes_nothing(later, vid, j),
        ({
            let big = m.maximize_begun(vid, source).maximize_completed(vid, size).toplevels[k];
            &&& later.toplevels[j].maximized == big.maximized
            &&& later.toplevels[j].restore_size == big.restore_size
            &&& later.toplevels[j].restore_pose == big.restore_pose
        }),
    ensures
        asked(
            later,
            later.unmaximize_begun(vid, by),
            vid,
            j,
            (m.scene.visuals[i].width, m.scene.visuals[i].height),
            ConfigureChange::Unmaximize,
        ),
{
    law_maximize_asks_for_the_view(m, vid, k, i, source);
    let b = m.maximize_begun(vid, source);
    let t = b.maximize.intent(vid).unwrap();
    law_maximize_is_carried_out(b, vid, k, i, t, size);
    law_unmaximize_asks_for_the_former_size(
        later,
        vid,
        j,
        h,
        by,
        (m.scene.visuals[i].width, m.scene.visuals[i].height),
    );
}

/// A window that was maximized and stopped being so has exactly the pose
/// it had when the maximize was begun.
pub proof fn law_unmaximized_window_is_where_it_was(
    m: GlassModel,
    vid: VisualId,
    k: int,
    i: int,
    source: MaximizeSource,
    size: (i32, i32),
    later: GlassModel,
    j: int,
    h: int,
    t: MaximizeIntent,
    back: (i32, i32),
)
    requires
        is_row(m, vid, k),
        is_visual(m.scene, vid, i),
        owes_nothing(m, vid, k),
        is_let_be(m, vid),
        !m.toplevels[k].maximized,
        !m.toplevels[k].fullscreened,
        m.scene.visuals[i].width > 0,
        m.scene.visuals[i].height > 0,
        m.maximize.deferred is None,
        size != (m.scene.visuals[i].width, m.scene.visuals[i].height),
        is_row(later, vid, j),
        is_visual(later.scene, vid, h),
        later.maximize.intent(vid) == Some(t),
        t.vid == vid,
        t.kind == MaximizeKind::Unmaximize,
        back != t.previous || back == t.target,
        later.maximize.deferred is None,
        later.toplevels[j].restore_pose == m.maximize_begun(vid, source).maximize_completed(
            vid,
            size,
        ).toplevels[k].restore_pose,
        later.scene.visuals[h].transform.scale == m.scene.visuals[i].transform.scale,
    ensures
        later.maximize_completed(vid, back).scene.visuals[h].transform
            == m.scene.visuals[i].transform,
        !later.maximize_completed(vid, back).toplevels[j].maximized,
{
    law_maximize_asks_for_the_view(m, vid, k, i, source);
    let b = m.maximize_begun(vid, source);
    let up = b.maximize.intent(vid).unwrap();
    law_maximize_is_carried_out(b, vid, k, i, up, size);
    law_unmaximize_is_carried_out(later, vid, j, h, t, back, up.restore_pos, up.restore_rot);
    let a = later.maximize_completed(vid, back).scene.visuals[h].transform;
    let o = m.scene.visuals[i].transform;
    assert(a.position == o.position && a.rotation == o.rotation);
}

/// A window that is asked to become fullscreen is sent the size of the
/// view, stays maximized if it was, and is recorded with the size and pose
/// it has. Nothing is moved before the client answers, and a maximize on
/// its way is given up.
pub proof fn law_fullscreen_asks_for_the_view(
    m: GlassModel,
    vid: VisualId,
    k: int,
    i: int,
    source: FullscreenSource,
)
    requires
        is_row(m, vid, k),
        is_visual(m.scene, vid, i),
        owes_nothing(m, vid, k),
        is_let_be(m, vid),
        !m.toplevels[k].fullscreened,
        m.scene.visuals[i].width > 0,
        m.scene.visuals[i].height > 0,
        m.fullscreen.intent(vid) is None,
    ensures
        ({
            let n = m.fullscreen_begun(vid, source);
            let v = m.scene.visuals[i];
            let view = (one_or_more(m.view_size.0), one_or_more(m.view_size.1));
            &&& asked(
                m,
                n,
                vid,
                k,
                view,
                ConfigureChange::Fullscreen { keep_maximized: m.toplevels[k].maximized },
            )
            &&& n.fullscreen.intent(vid) matches Some(t) && {
                &&& t.vid == vid
                &&& t.kind == FullscreenKind::Fullscreen
                &&& t.source == source
                &&& t.serial == n.configure_serial
                &&& t.target == view
                &&& t.previous == (v.width, v.height)
            }
            &&& n.toplevels[k].fullscreen_snapshot matches Some(s) && {
                &&& s.restore_size == (v.width, v.height)
                &&& s.restore_pos == (
                    v.transform.position.x,
                    v.transform.position.y,
                    v.transform.position.z,
                )
                &&& s.restore_rot == (
                    v.transform.rotation.x,
                    v.transform.rotation.y,
                    v.transform.rotation.z,
                    v.transform.rotation.s,
                )
                &&& s.was_maximized == m.toplevels[k].maximized
            }
            &&& n.toplevels[k].maximized == m.toplevels[k].maximized
            &&& n.toplevels[k].fullscreened == m.toplevels[k].fullscreened
            &&& n.toplevels[k].restore_size == m.toplevels[k].restore_size
            &&& n.toplevels[k].restore_pose == m.toplevels[k].restore_pose
            &&& same_rows_but(m, n, k)
            &&& is_row(n, vid, k)
            &&& n.scene == m.scene
            &&& n.maximize.intent(vid) is None
            &&& n.fullscreen.deferred == m.fullscreen.deferred
        }),
{
    lemma_row(m, vid, k);
    lemma_visual(m.scene, vid, i);
    let view = m.view_target();
    let change = ConfigureChange::Fullscreen { keep_maximized: m.toplevels[k].maximized };
    let a = GlassModel { maximize: m.maximize.aborted(vid), ..m };
    crate::maximize::law_aborted_maximize_is_gone(m.maximize, vid);
    lemma_sent(a, vid, k, view, change);
    let s = a.size_sent(vid, view, change);
    let v = m.scene.visuals[i];
    let intent = FullscreenIntent {
        vid,
        kind: FullscreenKind::Fullscreen,
        source,
        serial: s.configure_serial,
        target: view,
        previous: (v.width, v.height),
        snapshot: None,
    };
    law_begun_fullscreen_replaces(s.fullscreen, intent);
    lemma_row(s, vid, k);
}

/// A window that is fullscreen or being resized, or has nothing to show,
/// does not start to become fullscreen.
pub proof fn law_fullscreen_is_refused(
    m: GlassModel,
    vid: VisualId,
    k: int,
    i: int,
    source: FullscreenSource,
)
    requires
        is_row(m, vid, k),
        is_visual(m.scene, vid, i),
        m.toplevels[k].fullscreened || !is_let_be(m, vid) || m.scene.visuals[i].width <= 0
            || m.scene.visuals[i].height <= 0,
    ensures
        m.fullscreen_begun(vid, source) == m,
{
    lemma_row(m, vid, k);
    lemma_visual(m.scene, vid, i);
}

/// Once the client has answered a request to become fullscreen, the window
/// is so: it faces the viewer from the middle of the view, and what it
/// will be given back is as it was captured.
pub proof fn law_fullscreen_is_carried_out(
    m: GlassModel,
    vid: VisualId,
    k: int,
    i: int,
    t: FullscreenIntent,
    size: (i32, i32),
)
    requires
        is_row(m, vid, k),
        is_visual(m.scene, vid, i),
        m.fullscreen.intent(vid) == Some(t),
        t.kind == FullscreenKind::Fullscreen,
        size != t.previous || size == t.target,
    ensures
        ({
            let n = m.fullscreen_completed(vid, size);
            &&& n.toplevels[k] == (ToplevelInfo { fullscreened: true, ..m.toplevels[k] })
            &&& same_rows_but(m, n, k)
            &&& faces_front(n.scene.visuals[i].transform, m.scene.visuals[i].transform)
            &&& n.scene.visuals[i].width == m.scene.visuals[i].width
            &&& n.scene.visuals[i].height == m.scene.visuals[i].height
            &&& same_but(m.scene, n.scene, i)
            &&& n.outbox == m.outbox.push(Effect::ScheduleRender)
            &&& n.maximize == m.maximize
        }),
{
    lemma_row(m, vid, k);
    lemma_visual(m.scene, vid, i);
    let a = GlassModel { fullscreen: m.fullscreen.taken(vid), ..m };
    lemma_row(a, vid, k);
    lemma_changed(
        m.scene,
        vid,
        i,
        Visual { transform: centred(m.scene.visuals[i].transform), ..m.scene.visuals[i] },
    );
}

/// A window that is fullscreen, or on its way there, and is asked to leave
/// is sent the size that was captured for it.
pub proof fn law_unfullscreen_asks_for_the_former_size(
    m: GlassModel,
    vid: VisualId,
    k: int,
    i: int,
    source: FullscreenSource,
    former: (i32, i32),
)
    requires
        is_row(m, vid, k),
        is_visual(m.scene, vid, i),
        owes_nothing(m, vid, k),
        m.toplevels[k].fullscreened || m.fullscreen.intent(vid) is Some,
        m.toplevels[k].fullscreen_snapshot matches Some(s) && s.restore_size == former,
    ensures
        ({
            let n = m.unfullscreen_begun(vid, source);
            &&& asked(m, n, vid, k, former, ConfigureChange::Unfullscreen)
            &&& n.fullscreen.intent(vid) matches Some(t) && {
                &&& t.vid == vid
                &&& t.kind == FullscreenKind::Unfullscreen
                &&& t.source == source
                &&& t.serial == n.configure_serial
                &&& t.target == former
                &&& t.previous == (m.scene.visuals[i].width, m.scene.visuals[i].height)
            }
            &&& n.scene == m.scene
            &&& n.maximize == m.maximize
            &&& n.toplevels == m.toplevels.update(
                k,
                ToplevelInfo { owes_ack: true, ..m.toplevels[k] },
            )
        }),
{
    lemma_row(m, vid, k);
    lemma_visual(m.scene, vid, i);
    lemma_sent(m, vid, k, former, ConfigureChange::Unfullscreen);
    let s = m.size_sent(vid, former, ConfigureChange::Unfullscreen);
    let intent = FullscreenIntent {
        vid,
        kind: FullscreenKind::Unfullscreen,
        source,
        serial: s.configure_serial,
        target: former,
        previous: m.committed_or(vid, former),
        snapshot: Some(m.fullscreen_snapshot(vid)),
    };
    law_begun_fullscreen_replaces(s.fullscreen, intent);
}

/// A window that neither is fullscreen nor was asked to be has nothing to
/// leave.
pub proof fn law_unfullscreen_is_refused(
    m: GlassModel,
    vid: VisualId,
    k: int,
    source: FullscreenSource,
)
    requires
        is_row(m, vid, k),
        !m.toplevels[k].fullscreened,
        m.fullscreen.intent(vid) is None,
    ensures
        m.unfullscreen_begun(vid, source) == m,
{
    lemma_row(m, vid, k);
}

/// Once the client has answered a request to leave fullscreen, a window
/// that was not maximized has the pose that was captured; one that was is
/// maximized again, faces the viewer, and keeps what unmaximizing gives
/// back.
pub proof fn law_unfullscreen_is_carried_out(
    m: GlassModel,
    vid: VisualId,
    k: int,
    i: int,
    t: FullscreenIntent,
    size: (i32, i32),
)
    requires
        is_row(m, vid, k),
        is_visual(m.scene, vid, i),
        m.fullscreen.intent(vid) == Some(t),
        t.kind == FullscreenKind::Unfullscreen,
        size != t.previous || size == t.target,
        m.toplevels[k].fullscreen_snapshot is Some,
    ensures
        ({
            let n = m.fullscreen_completed(vid, size);
            let s = m.toplevels[k].fullscreen_snapshot.unwrap();
            let was = m.scene.visuals[i].transform;
            let now = n.scene.visuals[i].transform;
            &&& !n.toplevels[k].fullscreened
            &&& n.toplevels[k].fullscreen_snapshot is None
            &&& n.toplevels[k].maximized == s.was_maximized
            &&& n.toplevels[k].surface == m.toplevels[k].surface
            &&& n.toplevels[k].minimized == m.toplevels[k].minimized
            &&& s.was_maximized ==> {
                &&& n.toplevels[k].restore_size == m.toplevels[k].restore_size
                &&& n.toplevels[k].restore_pose == m.toplevels[k].restore_pose
                &&& now.position.x == 0 && now.position.y == 0
                &&& now.position.z == s.restore_pos.2
                &&& now.rotation.s == 0x3f80_0000u32
                &&& now.rotation.x == 0 && now.rotation.y == 0 && now.rotation.z == 0
                &&& now.scale == was.scale
            }
            &&& !s.was_maximized ==> {
                &&& n.toplevels[k].restore_size is None
                &&& n.toplevels[k].restore_pose is None
                &&& has_pose(now, s.restore_pos, s.restore_rot, was)
            }
            &&& same_rows_but(m, n, k)
            &&& same_but(m.scene, n.scene, i)
            &&& n.outbox == m.outbox.push(Effect::ScheduleRender)
        }),
{
    lemma_row(m, vid, k);
    lemma_visual(m.scene, vid, i);
    let a = GlassModel { fullscreen: m.fullscreen.taken(vid), ..m };
    lemma_row(a, vid, k);
    let s = m.toplevels[k].fullscreen_snapshot.unwrap();
    let back = given_back(m.scene.visuals[i].transform, (s.restore_pos, s.restore_rot));
    lemma_changed(m.scene, vid, i, Visual { transform: back, ..m.scene.visuals[i] });
    lemma_changed(m.scene, vid, i, Visual { transform: centred(back), ..m.scene.visuals[i] });
}

/// A window that was made fullscreen and is asked to leave is asked for
/// exactly the width and height it had when fullscreen was begun, whatever
/// happened in between to anything else.
pub proof fn law_fullscreen_gives_the_size_back(
    m: GlassModel,
    vid: VisualId,
    k: int,
    i: int,
    source: FullscreenSource,
    size: (i32, i32),
    later: GlassModel,
    j: int,
    h: int,
    by: FullscreenSource,
)
    requires
        is_row(m, vid, k),
        is_visual(m.scene, vid, i),
        owes_nothing(m, vid, k),
        is_let_be(m, vid),
        !m.toplevels[k].fullscreened,
        m.scene.visuals[i].width > 0,
        m.scene.visuals[i].height > 0,
        m.fullscreen.intent(vid) is None,
        size != (m.scene.visuals[i].width, m.scene.visuals[i].height),
        is_row(later, vid, j),
        is_visual(later.scene, vid, h),
        owes_nothing(later, vid, j),
        ({
            let full = m.fullscreen_begun(vid, source).fullscreen_completed(vid, size).toplevels[k];
            &&& later.toplevels[j].fullscreened == full.fullscreened
            &&& later.toplevels[j].fullscreen_snapshot == full.fullscreen_snapshot
        }),
    ensures
        asked(
            later,
            later.unfullscreen_begun(vid, by),
            vid,
            j,
            (m.scene.visuals[i].width, m.scene.visuals[i].height),
            ConfigureChange::Unfullscreen,
        ),
        asked(
            later,
            later.fullscreen_toggled(vid, by),
            vid,
            j,
            (m.scene.visuals[i].width, m.scene.visuals[i].height),
            ConfigureChange::Unfullscreen,
        ),
{
    law_fullscreen_asks_for_the_view(m, vid, k, i, source);
    let b = m.fullscreen_begun(vid, source);
    let t = b.fullscreen.intent(vid).unwrap();
    law_fullscreen_is_carried_out(b, vid, k, i, t, size);
    lemma_row(later, vid, j);
    law_unfullscreen_asks_for_the_former_size(
        later,
        vid,
        j,
        h,
        by,
        (m.scene.visuals[i].width, m.scene.visuals[i].height),
    );
}

/// A window that was fullscreen and left, and was not maximized, has
/// exactly the pose it had when fullscreen was begun.
pub proof fn law_unfullscreened_window_is_where_it_was(
    m: GlassModel,
    vid: VisualId,
    k: int,
    i: int,
    source: FullscreenSource,
    size: (i32, i32),
    later: GlassModel,
    j: int,
    h: int,
    t: FullscreenIntent,
    back: (i32, i32),
)
    requires
        is_row(m, vid, k),
        is_visual(m.scene, vid, i),
        owes_nothing(m, vid, k),
        is_let_be(m, vid),
        !m.toplevels[k].fullscreened,
        !m.toplevels[k].maximized,
        m.scene.visuals[i].width > 0,
        m.scene.visuals[i].height > 0,
        m.fullscreen.intent(vid) is None,
        size != (m.scene.visuals[i].width, m.scene.visuals[i].height),
        is_row(later, vid, j),
        is_visual(later.scene, vid, h),
        later.fullscreen.intent(vid) == Some(t),
        t.kind == FullscreenKind::Unfullscreen,
        back != t.previous || back == t.target,
        later.toplevels[j].fullscreen_snapshot == m.fullscreen_begun(
            vid,
            source,
        ).fullscreen_completed(vid, size).toplevels[k].fullscreen_snapshot,
        later.scene.visuals[h].transform.scale == m.scene.visuals[i].transform.scale,
    ensures
        later.fullscreen_completed(vid, back).scene.visuals[h].transform
            == m.scene.visuals[i].transform,
        !later.fullscreen_completed(vid, back).toplevels[j].fullscreened,
        !later.fullscreen_completed(vid, back).toplevels[j].maximized,
{
    law_fullscreen_asks_for_the_view(m, vid, k, i, source);
    let b = m.fullscreen_begun(vid, source);
    let up = b.fullscreen.intent(vid).unwrap();
    law_fullscreen_is_carried_out(b, vid, k, i, up, size);
    law_unfullscreen_is_carried_out(later, vid, j, h, t, back);
    let a = later.fullscreen_completed(vid, back).scene.visuals[h].transform;
    let o = m.scene.visuals[i].transform;
    assert(a.position == o.position && a.rotation == o.rotation);
}

/// What is asked of a window whose client owes an answer is noted, and
/// nothing goes out.
pub proof fn law_requests_wait_for_the_client(
    m: GlassModel,
    vid: VisualId,
    k: int,
    i: int,
    grow: MaximizeSource,
    fill: FullscreenSource,
)
    requires
        is_row(m, vid, k),
        is_visual(m.scene, vid, i),
        !owes_nothing(m, vid, k),
        is_let_be(m, vid),
        m.scene.visuals[i].width > 0,
        m.scene.visuals[i].height > 0,
    ensures
        !m.toplevels[k].maximized && !m.toplevels[k].fullscreened ==> m.maximize_begun(vid, grow)
            == (GlassModel { maximize: m.maximize_begun(vid, grow).maximize, ..m }) && m.maximize_begun(
            vid,
            grow,
        ).maximize.deferred == Some((vid, MaximizeKind::Maximize, grow)),
        m.toplevels[k].maximized ==> m.unmaximize_begun(vid, grow) == (GlassModel {
            maximize: m.unmaximize_begun(vid, grow).maximize,
            ..m
        }) && m.unmaximize_begun(vid, grow).maximize.deferred == Some(
            (vid, MaximizeKind::Unmaximize, grow),
        ),
        !m.toplevels[k].fullscreened ==> m.fullscreen_begun(vid, fill) == (GlassModel {
            fullscreen: m.fullscreen_begun(vid, fill).fullscreen,
            ..m
        }) && m.fullscreen_begun(vid, fill).fullscreen.deferred == Some(
            (vid, FullscreenKind::Fullscreen, fill),
        ),
        m.toplevels[k].fullscreened ==> m.unfullscreen_begun(vid, fill) == (GlassModel {
            fullscreen: m.unfullscreen_begun(vid, fill).fullscreen,
            ..m
        }) && m.unfullscreen_begun(vid, fill).fullscreen.deferred == Some(
            (vid, FullscreenKind::Unfullscreen, fill),
        ),
{
    lemma_row(m, vid, k);
    lemma_visual(m.scene, vid, i);
}

/// A toggle undoes what is there and starts what is not.
pub proof fn law_toggles_go_both_ways(
    m: GlassModel,
    vid: VisualId,
    k: int,
    grow: MaximizeSource,
    fill: FullscreenSource,
)
    requires
        is_row(m, vid, k),
    ensures
        m.toplevels[k].maximized ==> m.maximize_toggled(vid, grow) == m.unmaximize_begun(vid, grow),
        !m.toplevels[k].maximized ==> m.maximize_toggled(vid, grow) == m.maximize_begun(vid, grow),
        m.toplevels[k].fullscreened ==> m.fullscreen_toggled(vid, fill) == m.unfullscreen_begun(
            vid,
            fill,
        ),
        !m.toplevels[k].fullscreened ==> m.fullscreen_toggled(vid, fill) == m.fullscreen_begun(
            vid,
            fill,
        ),
{
    lemma_row(m, vid, k);
}

/// A request that had to wait is made once it can be: of the window it was
/// for, and what was asked.
pub proof fn law_waiting_requests_are_made(
    m: GlassModel,
    vid: VisualId,
    grow: MaximizeSource,
    fill: FullscreenSource,
)
    ensures
        ({
            let free = GlassModel {
                maximize: crate::maximize::MaximizeModel { deferred: None, ..m.maximize },
                ..m
            };
            &&& m.maximize.deferred == Some((vid, MaximizeKind::Maximize, grow))
                ==> m.maximize_flushed() == free.maximize_begun(vid, grow)
            &&& m.maximize.deferred == Some((vid, MaximizeKind::Unmaximize, grow))
                ==> m.maximize_flushed() == free.unmaximize_begun(vid, grow)
            &&& m.maximize.deferred is None ==> m.maximize_flushed() == m
        }),
        ({
            let free = GlassModel {
                fullscreen: crate::fullscreen::FullscreenModel { deferred: None, ..m.fullscreen },
                ..m
            };
            &&& m.fullscreen.deferred == Some((vid, FullscreenKind::Fullscreen, fill))
                ==> m.fullscreen_flushed() == free.fullscreen_begun(vid, fill)
            &&& m.fullscreen.deferred == Some((vid, FullscreenKind::Unfullscreen, fill))
                ==> m.fullscreen_flushed() == free.unfullscreen_begun(vid, fill)
            &&& m.fullscreen.deferred is None ==> m.fullscreen_flushed() == m
        }),
{
}

/// One more commit at the size from before a transition is no answer to
/// it: everything stays as it is.
pub proof fn law_old_size_is_no_answer(
    m: GlassModel,
    vid: VisualId,
    size: (i32, i32),
)
    ensures
        m.maximize.intent(vid) matches Some(t) && t.previous == size && t.target != size
            ==> m.maximize_completed(vid, size) == m,
        m.fullscreen.intent(vid) matches Some(t) && t.previous == size && t.target != size
            ==> m.fullscreen_completed(vid, size) == m,
        m.maximize.intent(vid) is None ==> m.maximize_completed(vid, size) == m,
        m.fullscreen.intent(vid) is None ==> m.fullscreen_completed(vid, size) == m,
{
}

} // verus!
