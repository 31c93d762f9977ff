//! Maximize coordination.
//!
//! Maximizing is a surface state transition: the client is configured
//! with the view size, and what it commits decides the geometry. The
//! pose it had is kept so that unmaximizing gives it back.
use vstd::prelude::*;

use crate::client_resize::Serial;
use crate::scene::{Scalar, VisualId};

verus! {

/// Who asked for a maximize or fullscreen change.
#[derive(Debug, Clone, Copy, PartialEq, Eq, Structural)]
pub enum MaximizeSource {
    Client,
    Compositor,
}

/// Who asked for a minimize or restore.
#[derive(Debug, Clone, Copy, PartialEq, Eq, Structural)]
pub enum MinimizeSource {
    Client,
    Compositor,
}

#[derive(Debug, Clone, Copy, PartialEq, Eq, Structural)]
pub enum MaximizeKind {
    Maximize,
    Unmaximize,
}

/// One outstanding maximize or unmaximize transaction of a surface.
#[derive(Debug, Clone, Copy, PartialEq, Eq)]
pub struct MaximizeIntent {
    pub vid: VisualId,
    pub kind: MaximizeKind,
    pub source: MaximizeSource,
    /// Serial of the configure sent for this transition.
    pub serial: Serial,
    /// Logical size configured for this transition.
    pub target: (i32, i32),
    /// Committed size to give back when unmaximizing.
    pub restore: (i32, i32),
    /// Committed size before the transition (draining detection).
    pub previous: (i32, i32),
    pub restore_pos: (Scalar, Scalar, Scalar),
    /// Rotation as (i, j, k, w).
    pub restore_rot: (Scalar, Scalar, Scalar, Scalar),
}

/// Tracks outstanding maximize intents: at most one per surface, and one
/// deferred request overall (last wins).
#[derive(Debug)]
pub struct MaximizeCoordinator {
    intents: Vec<MaximizeIntent>,
    deferred: Option<(VisualId, MaximizeKind, MaximizeSource)>,
}

/// What the coordinator holds, as a mathematical value.
#[verifier::ext_equal]
pub ghost struct MaximizeModel {
    pub intents: Seq<MaximizeIntent>,
    pub deferred: Option<(VisualId, MaximizeKind, MaximizeSource)>,
}

impl View for MaximizeCoordinator {
    type V = MaximizeModel;

    closed spec fn view(&self) -> MaximizeModel {
        MaximizeModel { intents: self.intents@, deferred: self.deferred }
    }
}

/// Position of the first maximize intent for `vid`, or the length.
pub open spec fn maximize_index(s: Seq<MaximizeIntent>, vid: VisualId) -> int
    decreases s.len(),
{
    if s.len() == 0 || s[0].vid == vid {
        0
    } else {
        1 + maximize_index(s.drop_first(), vid)
    }
}

proof fn lemma_index(s: Seq<MaximizeIntent>, vid: VisualId, i: int)
    requires
        0 <= i <= s.len(),
        forall|j: int| 0 <= j < i ==> (#[trigger] s[j]).vid != vid,
        i < s.len() ==> s[i].vid == vid,
    ensures
        maximize_index(s, vid) == i,
    decreases s.len(),
{
    if i > 0 {
        assert(s[0].vid != vid);
        let rest = s.drop_first();
        assert forall|j: int| 0 <= j < i - 1 implies (#[trigger] rest[j]).vid != vid by {
            assert(rest[j] == s[j + 1]);
        }
        lemma_index(rest, vid, i - 1);
    }
}

/// The intent of a visual is its own.
pub proof fn lemma_intent_is_for(m: MaximizeModel, vid: VisualId)
    ensures
        m.intent(vid) matches Some(i) ==> i.vid == vid,
{
    lemma_index_holds(m.intents, vid);
}

proof fn lemma_index_holds(s: Seq<MaximizeIntent>, vid: VisualId)
    ensures
        0 <= maximize_index(s, vid) <= s.len(),
        maximize_index(s, vid) < s.len() ==> s[maximize_index(s, vid)].vid == vid,
    decreases s.len(),
{
    if s.len() > 0 && s[0].vid != vid {
        lemma_index_holds(s.drop_first(), vid);
    }
}

impl MaximizeModel {
    pub open spec fn empty() -> MaximizeModel {
        MaximizeModel { intents: Seq::empty(), deferred: None }
    }

    /// The intent for `vid`, if any.
    pub open spec fn intent(self, vid: VisualId) -> Option<MaximizeIntent> {
        let i = maximize_index(self.intents, vid);
        if i < self.intents.len() {
            Some(self.intents[i])
        } else {
            None
        }
    }

    /// A new intent recorded in the place of any earlier one.
    pub open spec fn begun(self, intent: MaximizeIntent) -> MaximizeModel {
        MaximizeModel {
            intents: self.intents.filter(|i: MaximizeIntent| i.vid != intent.vid).push(intent),
            ..self
        }
    }

    /// The intent for `vid` handed over.
    pub open spec fn taken(self, vid: VisualId) -> MaximizeModel {
        let i = maximize_index(self.intents, vid);
        if i < self.intents.len() {
            MaximizeModel { intents: self.intents.remove(i), ..self }
        } else {
            self
        }
    }

    pub open spec fn put_off(
        self,
        vid: VisualId,
        kind: MaximizeKind,
        source: MaximizeSource,
    ) -> MaximizeModel {
        MaximizeModel { deferred: Some((vid, kind, source)), ..self }
    }

    pub open spec fn undeferred(self) -> MaximizeModel {
        MaximizeModel { deferred: None, ..self }
    }

    /// Everything about `vid` dropped.
    pub open spec fn aborted(self, vid: VisualId) -> MaximizeModel {
        MaximizeModel {
            intents: self.intents.filter(|i: MaximizeIntent| i.vid != vid),
            deferred: match self.deferred {
                Some(d) if d.0 == vid => None,
                d => d,
            },
        }
    }
}

impl Default for MaximizeCoordinator {
    fn default() -> (r: Self)
        ensures
            r@ == MaximizeModel::empty(),
    {
        MaximizeCoordinator { intents: Vec::new(), deferred: None }
    }
}

impl MaximizeCoordinator {
    fn drop_intents(&mut self, vid: VisualId)
        ensures
            final(self)@.intents == old(self)@.intents.filter(|i: MaximizeIntent| i.vid != vid),
            final(self)@.deferred == old(self)@.deferred,
    {
        let ghost s = self.intents@;
        let ghost p = |i: MaximizeIntent| i.vid != vid;
        let mut kept: Vec<MaximizeIntent> = Vec::new();
        let mut i: usize = 0;
        while i < self.intents.len()
            invariant
                i <= self.intents@.len(),
                self.intents@ == s,
                self.deferred == old(self).deferred,
                p == (|i: MaximizeIntent| i.vid != vid),
                kept@ == s.take(i as int).filter(p),
            decreases self.intents@.len() - i,
        {
            let e = self.intents[i];
            proof {
                reveal(Seq::filter);
                assert(s.take(i + 1).drop_last() =~= s.take(i as int));
                assert(s.take(i + 1).last() == e);
            }
            if e.vid != vid {
                kept.push(e);
            }
            i = i + 1;
        }
        assert(s.take(i as int) =~= s);
        self.intents = kept;
    }

    fn position(&self, vid: VisualId) -> (r: Option<usize>)
        ensures
            match r {
                Some(i) => i < self@.intents.len() && i == maximize_index(self@.intents, vid),
                None => maximize_index(self@.intents, vid) == self@.intents.len(),
            },
    {
        let mut i: usize = 0;
        while i < self.intents.len()
            invariant
                i <= self.intents@.len(),
                forall|j: int| 0 <= j < i ==> (#[trigger] self.intents@[j]).vid != vid,
            decreases self.intents@.len() - i,
        {
            if self.intents[i].vid == vid {
                proof {
                    lemma_index(self@.intents, vid, i as int);
                }
                return Some(i);
            }
            i = i + 1;
        }
        proof {
            lemma_index(self@.intents, vid, i as int);
        }
        None
    }

    /// Record a new intent for a visual, replacing any previous one.
    pub fn begin(&mut self, intent: MaximizeIntent)
        ensures
            final(self)@ == old(self)@.begun(intent),
    {
        self.drop_intents(intent.vid);
        self.intents.push(intent);
    }

    /// The outstanding intent for a visual, if any.
    pub fn intent(&self, vid: VisualId) -> (r: Option<MaximizeIntent>)
        ensures
            r == self@.intent(vid),
    {
        match self.position(vid) {
            Some(i) => Some(self.intents[i]),
            None => None,
        }
    }

    /// Complete the transaction: the intent is handed to the caller.
    pub fn take_intent(&mut self, vid: VisualId) -> (r: Option<MaximizeIntent>)
        ensures
            r == old(self)@.intent(vid),
            final(self)@ == old(self)@.taken(vid),
    {
        match self.position(vid) {
            Some(i) => Some(self.intents.remove(i)),
            None => None,
        }
    }

    /// Queue a request that could not be configured immediately
    /// (last request wins).
    pub fn defer(&mut self, vid: VisualId, kind: MaximizeKind, source: MaximizeSource)
        ensures
            final(self)@ == old(self)@.put_off(vid, kind, source),
    {
        self.deferred = Some((vid, kind, source));
    }

    pub fn take_deferred(&mut self) -> (r: Option<(VisualId, MaximizeKind, MaximizeSource)>)
        ensures
            r == old(self)@.deferred,
            final(self)@ == old(self)@.undeferred(),
    {
        self.deferred.take()
    }

    /// Drop everything about a visual.
    pub fn abort(&mut self, vid: VisualId)
        ensures
            final(self)@ == old(self)@.aborted(vid),
    {
        self.drop_intents(vid);
        if let Some(d) = self.deferred {
            if d.0 == vid {
                self.deferred = None;
            }
        }
    }
}

/// A surface has at most one maximize intent, the one begun last.
pub proof fn law_begun_maximize_replaces(m: MaximizeModel, intent: MaximizeIntent)
    ensures
        m.begun(intent).intent(intent.vid) == Some(intent),
        forall|i: int| 0 <= i < m.begun(intent).intents.len() - 1 ==> (#[trigger] m.begun(
            intent,
        ).intents[i]).vid != intent.vid,
{
    broadcast use vstd::seq_lib::group_filter_ensures;

    let p = |i: MaximizeIntent| i.vid != intent.vid;
    let f = m.intents.filter(p);
    let r = m.begun(intent).intents;
    assert forall|i: int| 0 <= i < f.len() implies (#[trigger] r[i]).vid != intent.vid by {
        assert(p(f[i]));
    }
    lemma_index(r, intent.vid, f.len() as int);
}

/// After an abort nothing is left for the surface: no intent, and no
/// deferred request.
pub proof fn law_aborted_maximize_is_gone(m: MaximizeModel, vid: VisualId)
    ensures
        m.aborted(vid).intent(vid) is None,
        m.aborted(vid).deferred matches Some(d) ==> d.0 != vid,
{
    broadcast use vstd::seq_lib::group_filter_ensures;

    let p = |i: MaximizeIntent| i.vid != vid;
    let f = m.intents.filter(p);
    assert forall|i: int| 0 <= i < f.len() implies (#[trigger] f[i]).vid != vid by {
        assert(p(f[i]));
    }
    lemma_index(f, vid, f.len() as int);
}

} // verus!
