//! The words the laws are stated in: which row and which visual belong to
//! a window, and what its client owes. They speak of the recorded facts
//! alone, and no operation is defined by them.
use vstd::prelude::*;

use crate::client_resize::awaits_ack;
use crate::compositor::focusing::{
    is_window, lemma_surface_index, lemma_window_index, surface_index, window_index,
};
use crate::compositor::state::GlassModel;
use crate::scene::{lemma_visual_index, visual_index, SceneModel, Transform3D, Visual, VisualId};

verus! {

/// The toplevel at `k` is the window of the visual and of no other, and
/// its client still holds it.
pub open spec fn is_row(m: GlassModel, vid: VisualId, k: int) -> bool {
    &&& 0 <= k < m.toplevels.len()
    &&& m.toplevels[k].visual_id == Some(vid)
    &&& m.toplevels[k].alive
    &&& m.surface_of(vid) == Some(m.toplevels[k].surface)
    &&& forall|j: int|
        0 <= j < m.toplevels.len() && j != k ==> (#[trigger] m.toplevels[j]).visual_id != Some(vid)
            && m.toplevels[j].surface != m.toplevels[k].surface
}

/// The visual at `i` of the scene has this id, and no other has.
pub open spec fn is_visual(s: SceneModel, vid: VisualId, i: int) -> bool {
    &&& 0 <= i < s.visuals.len()
    &&& s.visuals[i].id == vid
    &&& forall|j: int| 0 <= j < s.visuals.len() && j != i ==> (#[trigger] s.visuals[j]).id != vid
}

/// No visual of the scene has this id.
pub open spec fn is_fresh_id(s: SceneModel, vid: VisualId) -> bool {
    forall|j: int| 0 <= j < s.visuals.len() ==> (#[trigger] s.visuals[j]).id != vid
}

/// The client of the window at `k` has acknowledged all it was sent.
pub open spec fn owes_nothing(m: GlassModel, vid: VisualId, k: int) -> bool {
    &&& !m.toplevels[k].owes_ack
    &&& forall|i: int|
        0 <= i < m.resizes.len() && (#[trigger] m.resizes[i]).vid == vid
            ==> m.resizes[i].acknowledged
}

/// No pointer resize of the visual is going on.
pub open spec fn is_let_be(m: GlassModel, vid: VisualId) -> bool {
    m.resize_session matches Some(s) ==> s.vid != vid
}

/// The number, or one where it is less.
pub open spec fn one_or_more(n: i32) -> i32 {
    if n >= 1 {
        n
    } else {
        1
    }
}

/// The number that comes after this one, round the end of its range.
pub open spec fn succ(n: u32) -> int {
    (n + 1) % 0x1_0000_0000
}

/// The transform faces the viewer from the middle of the view, at the
/// depth and scale of another.
pub open spec fn faces_front(t: Transform3D, from: Transform3D) -> bool {
    &&& t.position.x == 0
    &&& t.position.y == 0
    &&& t.position.z == from.position.z
    &&& t.rotation.s == 0x3f80_0000u32
    &&& t.rotation.x == 0
    &&& t.rotation.y == 0
    &&& t.rotation.z == 0
    &&& t.scale == from.scale
}

/// The visuals but the one at `i` are the same in both scenes.
pub open spec fn same_but(a: SceneModel, b: SceneModel, i: int) -> bool {
    &&& a.visuals.len() == b.visuals.len()
    &&& forall|j: int| 0 <= j < a.visuals.len() && j != i ==> #[trigger] a.visuals[j] == b.visuals[j]
}

pub proof fn lemma_row(m: GlassModel, vid: VisualId, k: int)
    requires
        is_row(m, vid, k),
    ensures
        is_window(m.toplevels, vid),
        window_index(m.toplevels, vid) == k,
        surface_index(m.toplevels, m.toplevels[k].surface) == k,
        m.window(vid) is Some,
        m.row(vid) == m.toplevels[k],
        m.live_toplevel(vid) == Some(k),
        m.maximized(vid) == m.toplevels[k].maximized,
        m.fullscreened(vid) == m.toplevels[k].fullscreened,
        m.minimized(vid) == m.toplevels[k].minimized,
        m.owes_ack(vid) == m.toplevels[k].owes_ack,
        owes_nothing(m, vid, k) <==> !m.must_wait(vid),
        owes_nothing(m, vid, k) ==> !awaits_ack(m.resizes, vid),
{
    lemma_window_index(m.toplevels, vid, k);
    lemma_surface_index(m.toplevels, m.toplevels[k].surface, k);
    assert(m.toplevels[k].visual_id == Some(vid));
}

pub proof fn lemma_visual(s: SceneModel, vid: VisualId, i: int)
    requires
        is_visual(s, vid, i),
    ensures
        s.has(vid),
        visual_index(s.visuals, vid) == i,
        s.visual(vid) == s.visuals[i],
{
    lemma_visual_index(s.visuals, vid);
    assert(s.visuals[i].id == vid);
}

pub proof fn lemma_fresh(s: SceneModel, vid: VisualId)
    requires
        is_fresh_id(s, vid),
    ensures
        !s.has(vid),
        visual_index(s.visuals, vid) == s.visuals.len(),
{
    lemma_visual_index(s.visuals, vid);
}

/// A visual changed in place is the one that was there.
pub proof fn lemma_changed(s: SceneModel, vid: VisualId, i: int, v: Visual)
    requires
        is_visual(s, vid, i),
        v.id == vid,
    ensures
        is_visual(s.with_visual(vid, v), vid, i),
        s.with_visual(vid, v).visuals[i] == v,
        same_but(s, s.with_visual(vid, v), i),
{
    lemma_visual(s, vid, i);
}

} // verus!
