//! Fullscreen coordination.
//!
//! Fullscreen is a surface state transition, not a geometry operation:
//! the client's committed buffers stay the geometry authority. Leaving
//! fullscreen returns to the state held immediately before entering it,
//! from a snapshot taken exactly once, at entry.
use vstd::prelude::*;

use crate::client_resize::Serial;
use crate::maximize::MaximizeSource;
use crate::scene::{Quat, Scalar, Vec3, VisualId};

verus! {

/// Who asked for the fullscreen change.
pub type FullscreenSource = MaximizeSource;

/// The surface the compositor renders into, in logical pixels.
/// Fullscreen configures a client to this size.
#[derive(Debug, Clone, Copy, PartialEq, Eq, Structural)]
pub struct PresentationArea {
    pub logical_w: i32,
    pub logical_h: i32,
}

impl PresentationArea {
    /// The area of a framebuffer whose sides were rounded to whole
    /// pixels; a side is never below one pixel.
    pub fn for_window_size(rounded: (i32, i32)) -> (r: Self)
        ensures
            r.logical_w == if rounded.0 < 1 {
                1
            } else {
                rounded.0
            },
            r.logical_h == if rounded.1 < 1 {
                1
            } else {
                rounded.1
            },
    {
        PresentationArea {
            logical_w: if rounded.0 < 1 {
                1
            } else {
                rounded.0
            },
            logical_h: if rounded.1 < 1 {
                1
            } else {
                rounded.1
            },
        }
    }

    pub fn size(&self) -> (r: (i32, i32))
        ensures
            r == (self.logical_w, self.logical_h),
    {
        (self.logical_w, self.logical_h)
    }
}

/// The presentation and state held before fullscreen, consumed when
/// fullscreen is left.
#[derive(Debug, Clone, Copy, PartialEq, Eq)]
pub struct FullscreenSnapshot {
    /// Committed size to hand back to the client.
    pub restore_size: (i32, i32),
    pub restore_pos: (Scalar, Scalar, Scalar),
    /// Rotation as (i, j, k, w).
    pub restore_rot: (Scalar, Scalar, Scalar, Scalar),
    /// Whether the window was maximized immediately before fullscreen.
    pub was_maximized: bool,
}

/// The snapshot of a window with this size, pose and state.
pub open spec fn snapshot_of(
    size: (i32, i32),
    pos: Vec3,
    rot: Quat,
    was_maximized: bool,
) -> FullscreenSnapshot {
    FullscreenSnapshot {
        restore_size: size,
        restore_pos: (pos.x, pos.y, pos.z),
        restore_rot: (rot.x, rot.y, rot.z, rot.s),
        was_maximized,
    }
}

impl FullscreenSnapshot {
    pub fn capture(size: (i32, i32), pos: Vec3, rot: Quat, was_maximized: bool) -> (r: Self)
        ensures
            r == snapshot_of(size, pos, rot, was_maximized),
    {
        FullscreenSnapshot {
            restore_size: size,
            restore_pos: (pos.x, pos.y, pos.z),
            restore_rot: (rot.x, rot.y, rot.z, rot.s),
            was_maximized,
        }
    }
}

#[derive(Debug, Clone, Copy, PartialEq, Eq, Structural)]
pub enum FullscreenKind {
    Fullscreen,
    Unfullscreen,
}

/// One outstanding fullscreen or unfullscreen transaction of a surface.
#[derive(Debug, Clone, Copy, PartialEq, Eq)]
pub struct FullscreenIntent {
    pub vid: VisualId,
    pub kind: FullscreenKind,
    pub source: FullscreenSource,
    /// Serial of the configure sent for this transition.
    pub serial: Serial,
    /// Logical size configured for this transition.
    pub target: (i32, i32),
    /// Committed size before the transition (draining detection).
    pub previous: (i32, i32),
    /// The snapshot to restore when leaving; nothing when entering.
    pub snapshot: Option<FullscreenSnapshot>,
}

/// Tracks outstanding fullscreen intents: at most one per surface, and one
/// deferred request overall (last wins).
#[derive(Debug)]
pub struct FullscreenCoordinator {
    intents: Vec<FullscreenIntent>,
    deferred: Option<(VisualId, FullscreenKind, FullscreenSource)>,
}

/// What the coordinator holds, as a mathematical value.
#[verifier::ext_equal]
pub ghost struct FullscreenModel {
    pub intents: Seq<FullscreenIntent>,
    pub deferred: Option<(VisualId, FullscreenKind, FullscreenSource)>,
}

impl View for FullscreenCoordinator {
    type V = FullscreenModel;

    closed spec fn view(&self) -> FullscreenModel {
        FullscreenModel { intents: self.intents@, deferred: self.deferred }
    }
}

/// Position of the first fullscreen intent for `vid`, or the length.
pub open spec fn fullscreen_index(s: Seq<FullscreenIntent>, vid: VisualId) -> int
    decreases s.len(),
{
    if s.len() == 0 || s[0].vid == vid {
        0
    } else {
        1 + fullscreen_index(s.drop_first(), vid)
    }
}

proof fn lemma_index(s: Seq<FullscreenIntent>, vid: VisualId, i: int)
    requires
        0 <= i <= s.len(),
        forall|j: int| 0 <= j < i ==> (#[trigger] s[j]).vid != vid,
        i < s.len() ==> s[i].vid == vid,
    ensures
        fullscreen_index(s, vid) == i,
    decreases s.len(),
{
    if i > 0 {
        assert(s[0].vid != vid);
        let rest = s.drop_first();
        assert forall|j: int| 0 <= j < i - 1 implies (#[trigger] rest[j]).vid != vid by {
            assert(rest[j] == s[j + 1]);
        }
        lemma_index(rest, vid, i - 1);
    }
}

impl FullscreenModel {
    pub open spec fn empty() -> FullscreenModel {
        FullscreenModel { intents: Seq::empty(), deferred: None }
    }

    /// The intent for `vid`, if any.
    pub open spec fn intent(self, vid: VisualId) -> Option<FullscreenIntent> {
        let i = fullscreen_index(self.intents, vid);
        if i < self.intents.len() {
            Some(self.intents[i])
        } else {
            None
        }
    }

    /// A new intent recorded in the place of any earlier one.
    pub open spec fn begun(self, intent: FullscreenIntent) -> FullscreenModel {
        FullscreenModel {
            intents: self.intents.filter(|i: FullscreenIntent| i.vid != intent.vid).push(intent),
            ..self
        }
    }

    /// The intent for `vid` handed over.
    pub open spec fn taken(self, vid: VisualId) -> FullscreenModel {
        let i = fullscreen_index(self.intents, vid);
        if i < self.intents.len() {
            FullscreenModel { intents: self.intents.remove(i), ..self }
        } else {
            self
        }
    }

    pub open spec fn put_off(
        self,
        vid: VisualId,
        kind: FullscreenKind,
        source: FullscreenSource,
    ) -> FullscreenModel {
        FullscreenModel { deferred: Some((vid, kind, source)), ..self }
    }

    pub open spec fn undeferred(self) -> FullscreenModel {
        FullscreenModel { deferred: None, ..self }
    }

    /// Everything about `vid` dropped.
    pub open spec fn aborted(self, vid: VisualId) -> FullscreenModel {
        FullscreenModel {
            intents: self.intents.filter(|i: FullscreenIntent| i.vid != vid),
            deferred: match self.deferred {
                Some(d) if d.0 == vid => None,
                d => d,
            },
        }
    }
}

impl Default for FullscreenCoordinator {
    fn default() -> (r: Self)
        ensures
            r@ == FullscreenModel::empty(),
    {
        FullscreenCoordinator { intents: Vec::new(), deferred: None }
    }
}

impl FullscreenCoordinator {
    fn drop_intents(&mut self, vid: VisualId)
        ensures
            final(self)@.intents == old(self)@.intents.filter(|i: FullscreenIntent| i.vid != vid),
            final(self)@.deferred == old(self)@.deferred,
    {
        let ghost s = self.intents@;
        let ghost p = |i: FullscreenIntent| i.vid != vid;
        let mut kept: Vec<FullscreenIntent> = Vec::new();
        let mut i: usize = 0;
        while i < self.intents.len()
            invariant
                i <= self.intents@.len(),
                self.intents@ == s,
                self.deferred == old(self).deferred,
                p == (|i: FullscreenIntent| i.vid != vid),
                kept@ == s.take(i as int).filter(p),
            decreases self.intents@.len() - i,
        {
            let e = self.intents[i];
            proof {
                reveal(Seq::filter);
                assert(s.take(i + 1).drop_last() =~= s.take(i as int));
                assert(s.take(i + 1).last() == e);
            }
            if e.vid != vid {
                kept.push(e);
            }
            i = i + 1;
        }
        assert(s.take(i as int) =~= s);
        self.intents = kept;
    }

    fn position(&self, vid: VisualId) -> (r: Option<usize>)
        ensures
            match r {
                Some(i) => i < self@.intents.len() && i == fullscreen_index(self@.intents, vid),
                None => fullscreen_index(self@.intents, vid) == self@.intents.len(),
            },
    {
        let mut i: usize = 0;
        while i < self.intents.len()
            invariant
                i <= self.intents@.len(),
                forall|j: int| 0 <= j < i ==> (#[trigger] self.intents@[j]).vid != vid,
            decreases self.intents@.len() - i,
        {
            if self.intents[i].vid == vid {
                proof {
                    lemma_index(self@.intents, vid, i as int);
                }
                return Some(i);
            }
            i = i + 1;
        }
        proof {
            lemma_index(self@.intents, vid, i as int);
        }
        None
    }

    /// Record a new intent for a visual, replacing any previous one.
    pub fn begin(&mut self, intent: FullscreenIntent)
        ensures
            final(self)@ == old(self)@.begun(intent),
    {
        self.drop_intents(intent.vid);
        self.intents.push(intent);
    }

    /// The outstanding intent for a visual, if any.
    pub fn intent(&self, vid: VisualId) -> (r: Option<FullscreenIntent>)
        ensures
            r == self@.intent(vid),
    {
        match self.position(vid) {
            Some(i) => Some(self.intents[i]),
            None => None,
        }
    }

    /// Complete the transaction: the intent is handed to the caller.
    pub fn take_intent(&mut self, vid: VisualId) -> (r: Option<FullscreenIntent>)
        ensures
            r == old(self)@.intent(vid),
            final(self)@ == old(self)@.taken(vid),
    {
        match self.position(vid) {
            Some(i) => Some(self.intents.remove(i)),
            None => None,
        }
    }

    /// Queue a request that could not be configured immediately
    /// (last request wins).
    pub fn defer(&mut self, vid: VisualId, kind: FullscreenKind, source: FullscreenSource)
        ensures
            final(self)@ == old(self)@.put_off(vid, kind, source),
    {
        self.deferred = Some((vid, kind, source));
    }

    pub fn take_deferred(&mut self) -> (r: Option<(VisualId, FullscreenKind, FullscreenSource)>)
        ensures
            r == old(self)@.deferred,
            final(self)@ == old(self)@.undeferred(),
    {
        self.deferred.take()
    }

    /// Drop everything about a visual.
    pub fn abort(&mut self, vid: VisualId)
        ensures
            final(self)@ == old(self)@.aborted(vid),
    {
        self.drop_intents(vid);
        if let Some(d) = self.deferred {
            if d.0 == vid {
                self.deferred = None;
            }
        }
    }
}

/// A surface has at most one fullscreen intent, the one begun last.
pub proof fn law_begun_fullscreen_replaces(m: FullscreenModel, intent: FullscreenIntent)
    ensures
        m.begun(intent).intent(intent.vid) == Some(intent),
        forall|i: int| 0 <= i < m.begun(intent).intents.len() - 1 ==> (#[trigger] m.begun(
            intent,
        ).intents[i]).vid != intent.vid,
{
    broadcast use vstd::seq_lib::group_filter_ensures;

    let p = |i: FullscreenIntent| i.vid != intent.vid;
    let f = m.intents.filter(p);
    let r = m.begun(intent).intents;
    assert forall|i: int| 0 <= i < f.len() implies (#[trigger] r[i]).vid != intent.vid by {
        assert(p(f[i]));
    }
    lemma_index(r, intent.vid, f.len() as int);
}

/// After an abort nothing is left for the surface: no intent, and no
/// deferred request.
pub proof fn law_aborted_fullscreen_is_gone(m: FullscreenModel, vid: VisualId)
    ensures
        m.aborted(vid).intent(vid) is None,
        m.aborted(vid).deferred matches Some(d) ==> d.0 != vid,
{
    broadcast use vstd::seq_lib::group_filter_ensures;

    let p = |i: FullscreenIntent| i.vid != vid;
    let f = m.intents.filter(p);
    assert forall|i: int| 0 <= i < f.len() implies (#[trigger] f[i]).vid != vid by {
        assert(p(f[i]));
    }
    lemma_index(f, vid, f.len() as int);
}

} // verus!
