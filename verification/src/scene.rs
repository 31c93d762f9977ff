//! The spatial scene: visuals, their poses and the focus bookkeeping.
//!
//! Poses are carried, never computed, here: every scalar is kept as the
//! bit pattern of its IEEE single, so a pose that is saved and restored
//! comes back bit for bit.
use vstd::prelude::*;

use crate::group::{GroupIds, GroupModel, SpatialGroup};
use crate::id_list::without;

verus! {

/// Identity of a visual in the scene.
#[derive(Debug, Clone, Copy, PartialEq, Eq, PartialOrd, Ord, Hash, Structural)]
pub struct VisualId(pub u64);

/// The bit pattern of an IEEE single.
pub type Scalar = u32;

/// `0.0`.
pub const ZERO: u32 = 0;

/// `1.0`.
pub const ONE: u32 = 0x3f80_0000;

/// Three scalars: a point, an offset or a scale.
#[derive(Debug, Clone, Copy, PartialEq, Eq, Hash, Structural)]
pub struct Vec3 {
    pub x: Scalar,
    pub y: Scalar,
    pub z: Scalar,
}

/// A rotation quaternion, scalar part `s` first.
#[derive(Debug, Clone, Copy, PartialEq, Eq, Hash, Structural)]
pub struct Quat {
    pub s: Scalar,
    pub x: Scalar,
    pub y: Scalar,
    pub z: Scalar,
}

/// Position, rotation and scale of a visual or a group.
#[derive(Debug, Clone, Copy, PartialEq, Eq, Hash, Structural)]
pub struct Transform3D {
    pub position: Vec3,
    pub rotation: Quat,
    pub scale: Vec3,
}

/// The rotation that turns nothing.
pub open spec fn identity_rotation() -> Quat {
    Quat { s: ONE, x: ZERO, y: ZERO, z: ZERO }
}

/// The pose at the origin, unrotated and unscaled.
pub open spec fn identity_transform() -> Transform3D {
    Transform3D {
        position: Vec3 { x: ZERO, y: ZERO, z: ZERO },
        rotation: identity_rotation(),
        scale: Vec3 { x: ONE, y: ONE, z: ONE },
    }
}

/// The pose a maximized or fullscreen window is presented with: centred
/// on the view at its own depth, unrotated.
pub open spec fn centred(t: Transform3D) -> Transform3D {
    Transform3D {
        position: Vec3 { x: ZERO, y: ZERO, z: t.position.z },
        rotation: identity_rotation(),
        scale: t.scale,
    }
}

impl Quat {
    pub fn identity() -> (r: Self)
        ensures
            r == identity_rotation(),
    {
        Quat { s: ONE, x: ZERO, y: ZERO, z: ZERO }
    }
}

impl Transform3D {
    pub fn identity() -> (r: Self)
        ensures
            r == identity_transform(),
    {
        Transform3D {
            position: Vec3 { x: ZERO, y: ZERO, z: ZERO },
            rotation: Quat::identity(),
            scale: Vec3 { x: ONE, y: ONE, z: ONE },
        }
    }

    pub fn centred(self) -> (r: Self)
        ensures
            r == centred(self),
    {
        Transform3D {
            position: Vec3 { x: ZERO, y: ZERO, z: self.position.z },
            rotation: Quat::identity(),
            scale: self.scale,
        }
    }
}

/// Whether a window is shown or hidden in the scene.
#[derive(Debug, Clone, Copy, PartialEq, Eq, Structural)]
pub enum WindowState {
    Normal,
    Minimized,
}

/// One quad of the scene.
#[derive(Debug, Clone, Copy, PartialEq, Eq, Structural)]
pub struct Visual {
    pub id: VisualId,
    /// Committed logical width of the content.
    pub width: i32,
    /// Committed logical height of the content.
    pub height: i32,
    pub transform: Transform3D,
    /// The visual whose frame `transform` is relative to, if any.
    pub parent: Option<VisualId>,
    pub window_state: WindowState,
    /// Whether the content still has a live source.
    pub connected: bool,
    /// Whether the window chrome is drawn as focused.
    pub chrome_focused: bool,
}

/// The scene graph.
#[derive(Debug)]
pub struct Scene {
    pub visuals: Vec<Visual>,
    pub groups: Vec<SpatialGroup>,
    pub group_ids: GroupIds,
    pub focused_id: Option<VisualId>,
    pub selected_id: Option<VisualId>,
    pub hovered_id: Option<VisualId>,
    /// Visuals that automatic layout leaves where they are.
    pub detached_set: Vec<VisualId>,
}

/// What the scene holds, as a mathematical value.
#[verifier::ext_equal]
pub ghost struct SceneModel {
    pub visuals: Seq<Visual>,
    pub groups: Seq<GroupModel>,
    pub next_group: u64,
    pub focused_id: Option<VisualId>,
    pub selected_id: Option<VisualId>,
    pub hovered_id: Option<VisualId>,
    pub detached_set: Seq<VisualId>,
}

/// Position of the first visual with this id, or the length.
pub open spec fn visual_index(s: Seq<Visual>, id: VisualId) -> int
    decreases s.len(),
{
    if s.len() == 0 {
        0
    } else if s[0].id == id {
        0
    } else {
        1 + visual_index(s.drop_first(), id)
    }
}

/// Whether some visual has this id.
pub open spec fn has_visual(s: Seq<Visual>, id: VisualId) -> bool {
    exists|i: int| 0 <= i < s.len() && (#[trigger] s[i]).id == id
}

pub proof fn lemma_visual_index(s: Seq<Visual>, id: VisualId)
    ensures
        0 <= visual_index(s, id) <= s.len(),
        has_visual(s, id) <==> visual_index(s, id) < s.len(),
        visual_index(s, id) < s.len() ==> s[visual_index(s, id)].id == id,
        forall|j: int| 0 <= j < visual_index(s, id) ==> (#[trigger] s[j]).id != id,
    decreases s.len(),
{
    if s.len() > 0 && s[0].id != id {
        let rest = s.drop_first();
        lemma_visual_index(rest, id);
        let k = visual_index(rest, id);
        if k < rest.len() {
            assert(s[k + 1] == rest[k]);
        }
        assert forall|j: int| 0 <= j < 1 + k implies (#[trigger] s[j]).id != id by {
            if j > 0 {
                assert(s[j] == rest[j - 1]);
            }
        }
        if has_visual(s, id) {
            let i = choose|i: int| 0 <= i < s.len() && (#[trigger] s[i]).id == id;
            assert(rest[i - 1] == s[i]);
        }
    } else if s.len() > 0 {
        assert(s[0].id == id);
    }
}

impl SceneModel {
    pub open spec fn has(self, id: VisualId) -> bool {
        has_visual(self.visuals, id)
    }

    /// The first visual with this id.
    pub open spec fn visual(self, id: VisualId) -> Visual {
        self.visuals[visual_index(self.visuals, id)]
    }

    pub open spec fn is_minimized(self, id: VisualId) -> bool {
        self.has(id) && self.visual(id).window_state == WindowState::Minimized
    }

    /// In the scene and not hidden.
    pub open spec fn is_visible(self, id: VisualId) -> bool {
        self.has(id) && self.visual(id).window_state != WindowState::Minimized
    }

    /// In the scene with a live content source.
    pub open spec fn is_active(self, id: VisualId) -> bool {
        self.has(id) && self.visual(id).connected
    }

    /// The first visual with this id replaced by `v`.
    pub open spec fn with_visual(self, id: VisualId, v: Visual) -> SceneModel {
        if self.has(id) {
            SceneModel {
                visuals: self.visuals.update(visual_index(self.visuals, id), v),
                ..self
            }
        } else {
            self
        }
    }

    /// The visual re-posed; a scene without it is unchanged.
    pub open spec fn posed(self, id: VisualId, t: Transform3D) -> SceneModel {
        self.with_visual(id, Visual { transform: t, ..self.visual(id) })
    }

    pub open spec fn hidden(self, id: VisualId, minimized: bool) -> SceneModel {
        self.with_visual(
            id,
            Visual {
                window_state: if minimized {
                    WindowState::Minimized
                } else {
                    WindowState::Normal
                },
                ..self.visual(id)
            },
        )
    }

    pub open spec fn disconnected(self, id: VisualId) -> SceneModel {
        self.with_visual(id, Visual { connected: false, ..self.visual(id) })
    }

    pub open spec fn resized(self, id: VisualId, width: i32, height: i32) -> SceneModel {
        self.with_visual(id, Visual { width, height, ..self.visual(id) })
    }

    pub open spec fn removed(self, id: VisualId) -> SceneModel {
        SceneModel { visuals: self.visuals.filter(|v: Visual| v.id != id), ..self }
    }

    pub open spec fn added(self, v: Visual) -> SceneModel {
        SceneModel { visuals: self.visuals.push(v), ..self }
    }

    pub open spec fn focused(self, id: Option<VisualId>) -> SceneModel {
        SceneModel { focused_id: id, ..self }
    }

    pub open spec fn selected(self, id: Option<VisualId>) -> SceneModel {
        SceneModel { selected_id: id, ..self }
    }

    /// Chrome drawn as focused on exactly the visual `id`.
    pub open spec fn chrome_marked(self, id: Option<VisualId>) -> SceneModel {
        SceneModel {
            visuals: self.visuals.map_values(
                |v: Visual| Visual { chrome_focused: Some(v.id) == id, ..v },
            ),
            ..self
        }
    }
}

/// A visual that was resized is where it was.
pub proof fn lemma_resized_has(m: SceneModel, id: VisualId, width: i32, height: i32)
    ensures
        m.resized(id, width, height).has(id) == m.has(id),
        visual_index(m.resized(id, width, height).visuals, id) == visual_index(m.visuals, id),
{
    lemma_visual_index(m.visuals, id);
    lemma_with_visual_index(m, id, Visual { width, height, ..m.visual(id) });
}

/// A new pose of one visual changes no other.
pub proof fn lemma_posed_elsewhere(m: SceneModel, id: VisualId, t: Transform3D, other: VisualId)
    requires
        id != other,
    ensures
        m.posed(id, t).has(other) == m.has(other),
        m.has(other) ==> m.posed(id, t).visual(other) == m.visual(other),
{
    lemma_visual_index(m.visuals, id);
    lemma_visual_index(m.visuals, other);
    let u = m.posed(id, t).visuals;
    lemma_visual_index(u, other);
    if m.has(id) {
        let k = visual_index(m.visuals, id);
        assert(u[k].id == id);
        assert forall|j: int| 0 <= j < u.len() implies (#[trigger] u[j]).id == m.visuals[j].id by {}
        let a = visual_index(m.visuals, other);
        let b = visual_index(u, other);
        if m.has(other) {
            assert(u[a].id == other);
        }
        if has_visual(u, other) {
            assert(m.visuals[b].id == other);
        }
    }
}

proof fn lemma_with_visual_index(m: SceneModel, id: VisualId, v: Visual)
    requires
        m.has(id) ==> v.id == id,
    ensures
        m.with_visual(id, v).has(id) == m.has(id),
        visual_index(m.with_visual(id, v).visuals, id) == visual_index(m.visuals, id),
{
    lemma_visual_index(m.visuals, id);
    let k = visual_index(m.visuals, id);
    let u = m.with_visual(id, v).visuals;
    if m.has(id) {
        assert forall|j: int| 0 <= j < k implies (#[trigger] u[j]).id != id by {
            assert(u[j] == m.visuals[j]);
        }
        assert(u[k].id == id);
        lemma_visual_index(u, id);
    }
}

impl View for Scene {
    type V = SceneModel;

    open spec fn view(&self) -> SceneModel {
        SceneModel {
            visuals: self.visuals@,
            groups: self.groups@.map_values(|g: SpatialGroup| g@),
            next_group: self.group_ids.next,
            focused_id: self.focused_id,
            selected_id: self.selected_id,
            hovered_id: self.hovered_id,
            detached_set: self.detached_set@,
        }
    }
}

impl Default for Scene {
    fn default() -> (r: Self)
        ensures
            r@.visuals.len() == 0,
            r@.groups.len() == 0,
            r@.next_group == 1,
            r@.focused_id is None,
            r@.selected_id is None,
            r@.hovered_id is None,
            r@.detached_set.len() == 0,
    {
        Scene {
            visuals: Vec::new(),
            groups: Vec::new(),
            group_ids: GroupIds::new(),
            focused_id: None,
            selected_id: None,
            hovered_id: None,
            detached_set: Vec::new(),
        }
    }
}

impl Scene {
    /// Index of the first visual with this id.
    pub fn position(&self, id: VisualId) -> (r: Option<usize>)
        ensures
            match r {
                Some(i) => self@.has(id) && i == visual_index(self@.visuals, id) && i
                    < self@.visuals.len(),
                None => !self@.has(id),
            },
    {
        let mut i: usize = 0;
        while i < self.visuals.len()
            invariant
                i <= self.visuals@.len(),
                forall|j: int| 0 <= j < i ==> (#[trigger] self.visuals@[j]).id != id,
            decreases self.visuals@.len() - i,
        {
            if self.visuals[i].id == id {
                proof {
                    lemma_visual_index(self@.visuals, id);
                    assert(self@.visuals[i as int].id == id);
                }
                return Some(i);
            }
            i = i + 1;
        }
        None
    }

    /// The visual with this id.
    pub fn get(&self, id: VisualId) -> (r: Option<Visual>)
        ensures
            r == if self@.has(id) {
                Some(self@.visual(id))
            } else {
                None
            },
    {
        match self.position(id) {
            Some(i) => Some(self.visuals[i]),
            None => None,
        }
    }

    /// Puts `v` in the place of the first visual with this id.
    pub fn replace(&mut self, id: VisualId, v: Visual)
        ensures
            final(self)@ == old(self)@.with_visual(id, v),
    {
        if let Some(i) = self.position(id) {
            self.visuals[i] = v;
        }
    }

    pub fn is_minimized(&self, id: VisualId) -> (r: bool)
        ensures
            r == self@.is_minimized(id),
    {
        match self.get(id) {
            Some(v) => v.window_state == WindowState::Minimized,
            None => false,
        }
    }

    pub fn is_visible(&self, id: VisualId) -> (r: bool)
        ensures
            r == self@.is_visible(id),
    {
        match self.get(id) {
            Some(v) => v.window_state != WindowState::Minimized,
            None => false,
        }
    }

    pub fn is_active(&self, id: VisualId) -> (r: bool)
        ensures
            r == self@.is_active(id),
    {
        match self.get(id) {
            Some(v) => v.connected,
            None => false,
        }
    }

    pub fn set_transform(&mut self, id: VisualId, t: Transform3D)
        ensures
            final(self)@ == old(self)@.posed(id, t),
    {
        if let Some(v) = self.get(id) {
            self.replace(id, Visual { transform: t, ..v });
        }
    }

    pub fn set_minimized(&mut self, id: VisualId, minimized: bool)
        ensures
            final(self)@ == old(self)@.hidden(id, minimized),
    {
        if let Some(v) = self.get(id) {
            let state = if minimized {
                WindowState::Minimized
            } else {
                WindowState::Normal
            };
            self.replace(id, Visual { window_state: state, ..v });
        }
    }

    pub fn disconnect(&mut self, id: VisualId)
        ensures
            final(self)@ == old(self)@.disconnected(id),
    {
        if let Some(v) = self.get(id) {
            self.replace(id, Visual { connected: false, ..v });
        }
    }

    pub fn set_size(&mut self, id: VisualId, width: i32, height: i32)
        ensures
            final(self)@ == old(self)@.resized(id, width, height),
    {
        if let Some(v) = self.get(id) {
            self.replace(id, Visual { width, height, ..v });
        }
    }

    pub fn add(&mut self, v: Visual)
        ensures
            final(self)@ == old(self)@.added(v),
    {
        self.visuals.push(v);
    }

    /// Takes the visual out of the scene. Focus and selection stay as
    /// they are; whoever removes a focused visual refocuses.
    pub fn remove(&mut self, id: VisualId)
        ensures
            final(self)@ == old(self)@.removed(id),
    {
        let mut kept: Vec<Visual> = Vec::new();
        let mut i: usize = 0;
        let ghost s = self.visuals@;
        let ghost p = |v: Visual| v.id != id;
        while i < self.visuals.len()
            invariant
                i <= self.visuals@.len(),
                self.visuals@ == s,
                p == (|v: Visual| v.id != id),
                kept@ == s.take(i as int).filter(p),
            decreases self.visuals@.len() - i,
        {
            let x = self.visuals[i];
            proof {
                reveal(Seq::filter);
                assert(s.take(i + 1).drop_last() =~= s.take(i as int));
                assert(s.take(i + 1).last() == x);
            }
            if x.id != id {
                kept.push(x);
            }
            i = i + 1;
        }
        proof {
            assert(s.take(i as int) =~= s);
        }
        self.visuals = kept;
    }

    /// Records the focused visual.
    pub fn focus(&mut self, id: Option<VisualId>)
        ensures
            final(self)@ == old(self)@.focused(id),
    {
        self.focused_id = id;
    }

    /// Records the selected visual.
    pub fn select(&mut self, id: Option<VisualId>)
        ensures
            final(self)@ == old(self)@.selected(id),
    {
        self.selected_id = id;
    }

    /// Draws the chrome as focused on exactly the visual `id`.
    pub fn mark_chrome(&mut self, id: Option<VisualId>)
        ensures
            final(self)@ == old(self)@.chrome_marked(id),
    {
        let ghost s = self.visuals@;
        let mut i: usize = 0;
        while i < self.visuals.len()
            invariant
                i <= self.visuals@.len(),
                self.visuals@.len() == s.len(),
                self.groups == old(self).groups,
                self.group_ids == old(self).group_ids,
                self.focused_id == old(self).focused_id,
                self.selected_id == old(self).selected_id,
                self.hovered_id == old(self).hovered_id,
                self.detached_set == old(self).detached_set,
                forall|j: int|
                    0 <= j < i ==> self.visuals@[j] == (Visual {
                        chrome_focused: Some(s[j].id) == id,
                        ..s[j]
                    }),
                forall|j: int| i <= j < s.len() ==> self.visuals@[j] == s[j],
            decreases self.visuals@.len() - i,
        {
            let v = self.visuals[i];
            let marked = id == Some(v.id);
            self.visuals[i] = Visual { chrome_focused: marked, ..v };
            i = i + 1;
        }
        assert(self@.visuals =~= old(self)@.chrome_marked(id).visuals);
    }
}

/// Taking a visual out leaves no visual of that id and keeps the others.
pub proof fn law_removed_visual_is_gone(m: SceneModel, id: VisualId, other: VisualId)
    ensures
        !m.removed(id).has(id),
        other != id ==> (m.removed(id).has(other) <==> m.has(other)),
{
    broadcast use vstd::seq_lib::group_filter_ensures;

    let p = |v: Visual| v.id != id;
    let f = m.visuals.filter(p);
    if m.removed(id).has(id) {
        let i = choose|i: int| 0 <= i < f.len() && (#[trigger] f[i]).id == id;
        assert(p(f[i]));
    }
    if other != id && m.has(other) {
        let i = choose|i: int| 0 <= i < m.visuals.len() && (#[trigger] m.visuals[i]).id == other;
        assert(p(m.visuals[i]));
        assert(f.contains(m.visuals[i]));
    }
    if other != id && m.removed(id).has(other) {
        let i = choose|i: int| 0 <= i < f.len() && (#[trigger] f[i]).id == other;
        assert(f.contains(f[i]));
        m.visuals.lemma_filter_contains_rev(p, f[i]);
    }
}

} // verus!
