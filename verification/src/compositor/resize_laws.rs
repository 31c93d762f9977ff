//! What a pointer resize is for: the client is asked for the size the
//! pointer made, one configure at a time, and is told when it is over.
use vstd::prelude::*;

use crate::client_resize::{
    law_commits_are_told_apart, lemma_requests_without, request_for, Serial,
};
use crate::compositor::resizing::SizeLimits;
use crate::compositor::state::{ConfigureChange, Effect, GlassModel, ToplevelInfo};
use crate::compositor::terms::{
    is_row, is_visual, lemma_changed, lemma_row, lemma_visual, owes_nothing, same_but, succ,
};
use crate::compositor::transition_laws::asked;
use crate::scene::{Transform3D, Vec3, Visual, VisualId};

verus! {

/// No request of the visual asks for this size.
pub open spec fn is_not_asked(m: GlassModel, vid: VisualId, size: (i32, i32)) -> bool {
    forall|i: int|
        0 <= i < m.resizes.len() && (#[trigger] m.resizes[i]).vid == vid ==> m.resizes[i].requested
            != size
}

proof fn lemma_is_not_asked(m: GlassModel, vid: VisualId, size: (i32, i32))
    requires
        is_not_asked(m, vid, size),
    ensures
        request_for(m.resizes, vid) matches Some(e) ==> e.requested != size,
{
    crate::client_resize::lemma_request_index_bounds(m.resizes, vid);
    let k = crate::client_resize::request_index(m.resizes, vid);
    if k < m.resizes.len() {
        assert(m.resizes[k].vid == vid);
    }
}

/// A resize that is asked of a client that owes nothing is one configure
/// of that width and that height.
pub proof fn law_resize_asks_for_the_size(m: GlassModel, vid: VisualId, k: int, w: i32, h: i32)
    requires
        is_row(m, vid, k),
        owes_nothing(m, vid, k),
        w > 0,
        h > 0,
    ensures
        asked(m, m.resize_asked(vid, w, h), vid, k, (w, h), ConfigureChange::Resize),
        m.resize_asked(vid, w, h).scene == m.scene,
        m.resize_asked(vid, w, h).resize_session == m.resize_session,
        m.resize_asked(vid, w, h).toplevels == m.toplevels.update(
            k,
            ToplevelInfo { owes_ack: true, ..m.toplevels[k] },
        ),
{
    lemma_row(m, vid, k);
    lemma_requests_without(m.resizes, vid);
    let n = m.resize_asked(vid, w, h);
    let f = crate::client_resize::requests_without(m.resizes, vid);
    assert forall|i: int| 0 <= i < n.resizes.len() - 1 implies (#[trigger] n.resizes[i]).vid != vid
        && m.resizes.contains(n.resizes[i]) by {
        assert(n.resizes[i] == f[i]);
        assert(f.contains(f[i]));
    }
}

/// No size that is empty either way is asked for.
pub proof fn law_empty_size_is_not_asked_for(m: GlassModel, vid: VisualId, w: i32, h: i32)
    requires
        w <= 0 || h <= 0,
    ensures
        m.resize_asked(vid, w, h) == m,
{
}

/// A session starts from the window as it is: what it wants is the size
/// the window has, and its limits are those of the client, with at least
/// one pixel and, where the client sets none, no end.
pub proof fn law_session_starts_from_the_window(
    m: GlassModel,
    vid: VisualId,
    i: int,
    limits: SizeLimits,
)
    requires
        is_visual(m.scene, vid, i),
    ensures
        ({
            let n = m.session_begun(vid, limits);
            let v = m.scene.visuals[i];
            &&& n.resize_session matches Some(s) && {
                &&& s.vid == vid
                &&& s.start_size == (v.width, v.height)
                &&& s.desired == (v.width, v.height)
                &&& s.start_transform == v.transform
                &&& s.min_size.0 >= 1 && s.min_size.0 >= limits.min.0
                &&& s.min_size.1 >= 1 && s.min_size.1 >= limits.min.1
                &&& s.min_size.0 == 1 || s.min_size.0 == limits.min.0
                &&& s.min_size.1 == 1 || s.min_size.1 == limits.min.1
                &&& s.max_size is None <==> (limits.max.0 <= 0 || limits.max.0 == i32::MAX) && (
                limits.max.1 <= 0 || limits.max.1 == i32::MAX)
                &&& s.max_size matches Some(x) ==> {
                    &&& x.0 == if limits.max.0 > 0 {
                        limits.max.0
                    } else {
                        i32::MAX
                    }
                    &&& x.1 == if limits.max.1 > 0 {
                        limits.max.1
                    } else {
                        i32::MAX
                    }
                }
                &&& s.was_detached == m.scene.detached_set.contains(vid)
            }
            &&& n.scene.visuals == m.scene.visuals
            &&& n.outbox == m.outbox
            &&& n.toplevels == m.toplevels
        }),
{
    lemma_visual(m.scene, vid, i);
}

/// A session starts exactly for a window that is drawn, in the scene with
/// something to show, neither maximized nor fullscreen, while no other
/// session goes on.
pub proof fn law_session_is_for_plain_windows(
    m: GlassModel,
    vid: VisualId,
    k: int,
    i: int,
    drawn: bool,
)
    requires
        is_row(m, vid, k),
        is_visual(m.scene, vid, i),
    ensures
        m.session_permitted(vid, drawn) == (drawn && m.resize_session is None
            && !m.toplevels[k].maximized && !m.toplevels[k].fullscreened
            && m.scene.visuals[i].width > 0 && m.scene.visuals[i].height > 0),
{
    lemma_row(m, vid, k);
    lemma_visual(m.scene, vid, i);
}

/// A motion during a session moves the window to the position it makes,
/// and is what the session wants from then on: this width and this height.
/// Turn and size of the window stay, and so does every other window.
pub proof fn law_motion_is_what_the_session_wants(
    m: GlassModel,
    vid: VisualId,
    i: int,
    size: (i32, i32),
    position: Vec3,
)
    requires
        m.resize_session matches Some(s) && s.vid == vid,
        is_visual(m.scene, vid, i),
    ensures
        ({
            let n = m.session_updated(size, position);
            let was = m.resize_session.unwrap();
            &&& n.resize_session matches Some(s) && {
                &&& s.desired.0 == size.0
                &&& s.desired.1 == size.1
                &&& s.vid == vid
                &&& s.start_size == was.start_size
                &&& s.start_transform == was.start_transform
                &&& s.min_size == was.min_size
                &&& s.max_size == was.max_size
                &&& s.was_detached == was.was_detached
            }
            &&& n.scene.visuals[i] == (Visual {
                transform: Transform3D { position, ..m.scene.visuals[i].transform },
                ..m.scene.visuals[i]
            })
            &&& same_but(m.scene, n.scene, i)
        }),
{
    lemma_visual(m.scene, vid, i);
    lemma_changed(
        m.scene,
        vid,
        i,
        Visual {
            transform: Transform3D { position, ..m.scene.visuals[i].transform },
            ..m.scene.visuals[i]
        },
    );
}

/// A motion during a session, while the client owes nothing, puts out one
/// configure: its width is the first and its height the second component
/// of the size the motion made.
pub proof fn law_motion_asks_for_its_size(
    m: GlassModel,
    vid: VisualId,
    k: int,
    size: (i32, i32),
    position: Vec3,
)
    requires
        m.resize_session matches Some(s) && s.vid == vid,
        is_row(m, vid, k),
        owes_nothing(m, vid, k),
        is_not_asked(m, vid, size),
        size.0 > 0,
        size.1 > 0,
    ensures
        asked(
            m,
            m.session_updated(size, position),
            vid,
            k,
            (size.0, size.1),
            ConfigureChange::Resize,
        ),
{
    let s = m.resize_session.unwrap();
    let a = if m.scene.has(vid) {
        GlassModel {
            scene: m.scene.posed(
                vid,
                Transform3D { position, ..m.scene.visual(vid).transform },
            ),
            ..m
        }
    } else {
        m
    };
    lemma_row(m, vid, k);
    lemma_row(a, vid, k);
    lemma_is_not_asked(m, vid, size);
    law_resize_asks_for_the_size(a, vid, k, size.0, size.1);
}

/// While the client owes an answer, or was asked for just this size, a
/// motion sends nothing.
pub proof fn law_motion_waits_for_the_client(
    m: GlassModel,
    vid: VisualId,
    k: int,
    size: (i32, i32),
    position: Vec3,
)
    requires
        m.resize_session matches Some(s) && s.vid == vid,
        is_row(m, vid, k),
        !owes_nothing(m, vid, k),
    ensures
        m.session_updated(size, position).outbox == m.outbox,
        m.session_updated(size, position).resizes == m.resizes,
{
    lemma_row(m, vid, k);
    let a = GlassModel {
        scene: m.session_updated(size, position).scene,
        ..m
    };
    lemma_row(a, vid, k);
}

/// Without a session a motion resizes nothing.
pub proof fn law_no_session_no_resize(m: GlassModel, size: (i32, i32), position: Vec3)
    requires
        m.resize_session is None,
    ensures
        m.session_updated(size, position) == m,
        m.session_finished() == m,
{
}

/// Once the client is free, it is asked for the size the session wants by
/// now; a client that the session is not about is asked for nothing.
pub proof fn law_freed_client_is_asked_for_what_is_wanted(m: GlassModel, vid: VisualId, k: int)
    requires
        is_row(m, vid, k),
        owes_nothing(m, vid, k),
    ensures
        m.resize_session matches Some(s) && s.vid == vid && s.desired.0 > 0 && s.desired.1 > 0
            && is_not_asked(m, vid, s.desired) ==> asked(
            m,
            m.desire_flushed(vid),
            vid,
            k,
            m.resize_session.unwrap().desired,
            ConfigureChange::Resize,
        ),
        (m.resize_session matches Some(s) ==> s.vid != vid) ==> m.desire_flushed(vid) == m,
{
    lemma_row(m, vid, k);
    if let Some(s) = m.resize_session {
        if s.vid == vid && s.desired.0 > 0 && s.desired.1 > 0 && is_not_asked(m, vid, s.desired) {
            lemma_is_not_asked(m, vid, s.desired);
            law_resize_asks_for_the_size(m, vid, k, s.desired.0, s.desired.1);
        }
    }
}

/// At the end of a session its window's client is told to stop resizing,
/// at whatever size it has, and nothing of the session is left.
pub proof fn law_end_of_a_session_is_announced(m: GlassModel, vid: VisualId, k: int)
    requires
        m.resize_session matches Some(s) && s.vid == vid,
        is_row(m, vid, k),
    ensures
        ({
            let n = m.session_finished();
            &&& n.resize_session is None
            &&& n.outbox == m.outbox.push(
                Effect::Configure {
                    surface: m.toplevels[k].surface,
                    serial: n.configure_serial,
                    size: None,
                    change: ConfigureChange::StopResizing,
                },
            )
            &&& n.configure_serial == succ(m.configure_serial)
            &&& n.toplevels[k].owes_ack
            &&& n.scene.visuals == m.scene.visuals
            &&& forall|i: int| 0 <= i < n.resizes.len() ==> (#[trigger] n.resizes[i]).vid != vid
        }),
{
    lemma_requests_without(m.resizes, vid);
    let a = GlassModel {
        resize_session: None,
        scene: crate::scene::SceneModel { detached_set: m.settled_detached(), ..m.scene },
        resizes: crate::client_resize::requests_without(m.resizes, vid),
        ..m
    };
    lemma_row(a, vid, k);
}

/// An acknowledgement is noted for the request it is of, and for the
/// window: whether its client owes another is as the client says.
pub proof fn law_acknowledgement_is_noted(
    m: GlassModel,
    vid: VisualId,
    k: int,
    serial: Serial,
    outstanding: bool,
    r: int,
)
    requires
        is_row(m, vid, k),
        0 <= r < m.resizes.len(),
        m.resizes[r].serial == serial,
        !m.resizes[r].acknowledged,
        forall|j: int|
            0 <= j < m.resizes.len() && j != r ==> (#[trigger] m.resizes[j]).serial != serial,
        m.resize_session is None,
        m.maximize.deferred is None,
        m.fullscreen.deferred is None,
    ensures
        ({
            let n = m.acknowledged(m.toplevels[k].surface, serial, outstanding);
            &&& n.resizes == m.resizes.update(
                r,
                crate::client_resize::ClientResizeRequest { acknowledged: true, ..m.resizes[r] },
            )
            &&& n.toplevels == m.toplevels.update(
                k,
                ToplevelInfo { owes_ack: outstanding, ..m.toplevels[k] },
            )
            &&& n.outbox == m.outbox
            &&& n.scene == m.scene
        }),
{
    lemma_row(m, vid, k);
    crate::client_resize::lemma_ack_index(m.resizes, serial, r);
}

/// When the client has acknowledged all it was sent, what the session
/// wants goes out at once.
pub proof fn law_acknowledgement_lets_the_session_go_on(
    m: GlassModel,
    vid: VisualId,
    k: int,
    serial: Serial,
)
    requires
        is_row(m, vid, k),
        forall|j: int| 0 <= j < m.resizes.len() ==> (#[trigger] m.resizes[j]).vid != vid,
        m.resize_session matches Some(s) && s.vid == vid && s.desired.0 > 0 && s.desired.1 > 0,
        m.maximize.deferred is None,
        m.fullscreen.deferred is None,
    ensures
        ({
            let n = m.acknowledged(m.toplevels[k].surface, serial, false);
            n.outbox == m.outbox.push(
                Effect::Configure {
                    surface: m.toplevels[k].surface,
                    serial: n.configure_serial,
                    size: Some(m.resize_session.unwrap().desired),
                    change: ConfigureChange::Resize,
                },
            )
        }),
{
    lemma_row(m, vid, k);
    let s = m.resize_session.unwrap();
    let at = crate::client_resize::ack_index(m.resizes, serial);
    let noted = if at < m.resizes.len() {
        m.resizes.update(
            at,
            crate::client_resize::ClientResizeRequest { acknowledged: true, ..m.resizes[at] },
        )
    } else {
        m.resizes
    };
    let a = GlassModel {
        resizes: noted,
        toplevels: m.toplevels.update(k, ToplevelInfo { owes_ack: false, ..m.toplevels[k] }),
        ..m
    };
    assert(is_row(a, vid, k));
    crate::client_resize::lemma_ack_index_bounds(m.resizes, serial);
    assert forall|j: int| 0 <= j < a.resizes.len() implies (#[trigger] a.resizes[j]).vid != vid by {
        assert(a.resizes[j].vid == m.resizes[j].vid);
    }
    law_freed_client_is_asked_for_what_is_wanted(a, vid, k);
}

/// While the pointer resizes a window, the commit that brings the size that
/// was asked for has the client asked for the size that is wanted by now;
/// a commit of another size ends the request and asks for nothing.
pub proof fn law_answer_brings_the_next_request(
    m: GlassModel,
    vid: VisualId,
    k: int,
    r: int,
    size: (i32, i32),
)
    requires
        is_row(m, vid, k),
        !m.toplevels[k].owes_ack,
        0 <= r < m.resizes.len(),
        m.resizes[r].vid == vid,
        m.resizes[r].acknowledged,
        forall|j: int| 0 <= j < m.resizes.len() && j != r ==> (#[trigger] m.resizes[j]).vid != vid,
        m.resize_session matches Some(s) && s.vid == vid && s.desired.0 > 0 && s.desired.1 > 0,
    ensures
        m.resizes[r].requested == size ==> asked(
            GlassModel { resizes: m.resizes.remove(r), ..m },
            m.size_answered(vid, size),
            vid,
            k,
            m.resize_session.unwrap().desired,
            ConfigureChange::Resize,
        ),
        m.resizes[r].requested != size ==> m.size_answered(vid, size) == (GlassModel {
            resizes: m.resizes.remove(r),
            ..m
        }),
{
    law_commits_are_told_apart(m.resizes, vid, r, size);
    let a = GlassModel { resizes: m.resizes.remove(r), ..m };
    assert forall|j: int| 0 <= j < a.resizes.len() implies (#[trigger] a.resizes[j]).vid != vid by {
        if j < r {
            assert(a.resizes[j] == m.resizes[j]);
        } else {
            assert(a.resizes[j] == m.resizes[j + 1]);
        }
    }
    assert(is_row(a, vid, k));
    assert(owes_nothing(a, vid, k));
    assert(is_not_asked(a, vid, m.resize_session.unwrap().desired));
    law_freed_client_is_asked_for_what_is_wanted(a, vid, k);
}

} // verus!
