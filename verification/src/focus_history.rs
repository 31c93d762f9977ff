//! Application focus history: the most-recently-focused ordering of
//! application windows behind Alt+Tab and focus replacement.
//!
//! - The order changes only when a window actually takes focus.
//! - A window that is not focusable (destroyed, minimized, on another
//!   workspace) never becomes a candidate, nor does the window that is
//!   being left.
//! - Popups never enter: only toplevels are recorded.
use vstd::prelude::*;

use crate::id_list::{lemma_without_members, lemma_without_no_duplicates, remove_id, without};
use crate::scene::{Scene, SceneModel, VisualId};

verus! {

/// Most-recently-focused ordering, most recent first.
#[derive(Debug)]
pub struct FocusHistory {
    order: Vec<VisualId>,
}

impl View for FocusHistory {
    type V = Seq<VisualId>;

    closed spec fn view(&self) -> Seq<VisualId> {
        self.order@
    }
}

/// The history after `vid` took focus: `vid` first, the others behind it
/// in their order.
pub open spec fn touched(order: Seq<VisualId>, vid: VisualId) -> Seq<VisualId> {
    without(order, vid).insert(0, vid)
}

/// Visuals that are not minimized in the scene.
pub open spec fn shown_in(scene: SceneModel) -> spec_fn(VisualId) -> bool {
    |v: VisualId| !scene.is_minimized(v)
}

/// Where a scan begins: one step past `current` in the scan's direction,
/// or at the near end when `current` is not in the history.
pub open spec fn scan_start(
    order: Seq<VisualId>,
    current: Option<VisualId>,
    forward: bool,
) -> int {
    match current {
        Some(c) if order.contains(c) => {
            let pos = first_position(order, c);
            if forward {
                if pos + 1 == order.len() {
                    0
                } else {
                    pos + 1
                }
            } else if pos == 0 {
                order.len() - 1
            } else {
                pos - 1
            }
        },
        _ => if forward {
            0
        } else {
            order.len() - 1
        },
    }
}

/// Position of the first occurrence of `v`, or the length.
pub open spec fn first_position(order: Seq<VisualId>, v: VisualId) -> int
    decreases order.len(),
{
    if order.len() == 0 {
        0
    } else if order[0] == v {
        0
    } else {
        1 + first_position(order.drop_first(), v)
    }
}

/// The entry a scan visits after `step` steps, wrapping at either end.
pub open spec fn scanned(
    order: Seq<VisualId>,
    current: Option<VisualId>,
    forward: bool,
    step: int,
) -> VisualId {
    let start = scan_start(order, current, forward);
    if forward {
        if start + step < order.len() {
            order[start + step]
        } else {
            order[start + step - order.len()]
        }
    } else if step <= start {
        order[start - step]
    } else {
        order[start - step + order.len()]
    }
}

/// The first entry from `step` on that is not `current` and that `ok`
/// accepts, within one round of the history.
pub open spec fn choice_from(
    order: Seq<VisualId>,
    current: Option<VisualId>,
    forward: bool,
    ok: spec_fn(VisualId) -> bool,
    step: int,
) -> Option<VisualId>
    decreases order.len() - step,
{
    if step < 0 || step >= order.len() {
        None
    } else {
        let cand = scanned(order, current, forward, step);
        if Some(cand) != current && ok(cand) {
            Some(cand)
        } else {
            choice_from(order, current, forward, ok, step + 1)
        }
    }
}

/// The window a cycle moves to: the first focusable entry other than
/// `current`, scanning one full round from next to `current`.
pub open spec fn cycle_choice(
    order: Seq<VisualId>,
    current: Option<VisualId>,
    forward: bool,
    ok: spec_fn(VisualId) -> bool,
) -> Option<VisualId> {
    choice_from(order, current, forward, ok, 0)
}

/// Windows other than `excluded` that `ok` accepts.
pub open spec fn other_than(
    excluded: Option<VisualId>,
    ok: spec_fn(VisualId) -> bool,
) -> spec_fn(VisualId) -> bool {
    |v: VisualId| Some(v) != excluded && ok(v)
}

/// The window that takes over from `excluded`: the most recent other
/// focusable one.
pub open spec fn replacement_choice(
    order: Seq<VisualId>,
    excluded: Option<VisualId>,
    ok: spec_fn(VisualId) -> bool,
) -> Option<VisualId> {
    cycle_choice(order, None, true, other_than(excluded, ok))
}

/// `f` answers exactly as `ok` does.
pub open spec fn decides<F: Fn(VisualId) -> bool>(f: F, ok: spec_fn(VisualId) -> bool) -> bool {
    &&& forall|v: VisualId| #[trigger] call_requires(f, (v,))
    &&& forall|v: VisualId, b: bool| #[trigger] call_ensures(f, (v,), b) ==> b == ok(v)
}

pub proof fn lemma_first_position(order: Seq<VisualId>, v: VisualId, i: int)
    requires
        0 <= i < order.len(),
        order[i] == v,
        forall|j: int| 0 <= j < i ==> order[j] != v,
    ensures
        first_position(order, v) == i,
    decreases order.len(),
{
    if i > 0 {
        assert(order[0] != v);
        let rest = order.drop_first();
        assert forall|j: int| 0 <= j < i - 1 implies rest[j] != v by {
            assert(rest[j] == order[j + 1]);
        }
        lemma_first_position(rest, v, i - 1);
    }
}

impl FocusHistory {
    pub fn new() -> (r: Self)
        ensures
            r@ == Seq::<VisualId>::empty(),
    {
        FocusHistory { order: Vec::new() }
    }

    /// Record a focus transition: `vid` becomes most recent.
    pub fn touch(&mut self, vid: VisualId)
        ensures
            final(self)@ == touched(old(self)@, vid),
    {
        remove_id(&mut self.order, vid);
        self.order.insert(0, vid);
    }

    /// Drop a window from the history entirely.
    pub fn remove(&mut self, vid: VisualId)
        ensures
            final(self)@ == without(old(self)@, vid),
    {
        remove_id(&mut self.order, vid);
    }

    /// Forgets every window that is minimized.
    pub fn forget_minimized(&mut self, scene: &Scene)
        ensures
            final(self)@ == old(self)@.filter(shown_in(scene@)),
    {
        let ghost s = self.order@;
        let ghost p = shown_in(scene@);
        let mut kept: Vec<VisualId> = Vec::new();
        let mut i: usize = 0;
        while i < self.order.len()
            invariant
                i <= self.order@.len(),
                self.order@ == s,
                p == shown_in(scene@),
                kept@ == s.take(i as int).filter(p),
            decreases self.order@.len() - i,
        {
            let v = self.order[i];
            proof {
                reveal(Seq::filter);
                assert(s.take(i + 1).drop_last() =~= s.take(i as int));
                assert(s.take(i + 1).last() == v);
            }
            if !scene.is_minimized(v) {
                kept.push(v);
            }
            i = i + 1;
        }
        assert(s.take(i as int) =~= s);
        self.order = kept;
    }

    /// The entries, most recent first.
    pub fn order(&self) -> (r: &[VisualId])
        ensures
            r@ == self@,
    {
        self.order.as_slice()
    }

    /// Next candidate after `current` in the order (wraps), skipping
    /// everything `focusable` rejects.
    pub fn next_after<F: Fn(VisualId) -> bool>(
        &self,
        current: Option<VisualId>,
        focusable: &F,
    ) -> (r: Option<VisualId>)
        requires
            forall|v: VisualId| #[trigger] call_requires(*focusable, (v,)),
        ensures
            cycle_result(self@, current, true, *focusable, r),
            forall|ok: spec_fn(VisualId) -> bool| #[trigger]
                decides(*focusable, ok) ==> r == cycle_choice(self@, current, true, ok),
    {
        self.cycle_from(current, true, focusable)
    }

    /// Previous candidate before `current` in the order (wraps).
    pub fn previous_before<F: Fn(VisualId) -> bool>(
        &self,
        current: Option<VisualId>,
        focusable: &F,
    ) -> (r: Option<VisualId>)
        requires
            forall|v: VisualId| #[trigger] call_requires(*focusable, (v,)),
        ensures
            cycle_result(self@, current, false, *focusable, r),
            forall|ok: spec_fn(VisualId) -> bool| #[trigger]
                decides(*focusable, ok) ==> r == cycle_choice(self@, current, false, ok),
    {
        self.cycle_from(current, false, focusable)
    }

    /// Best replacement for a window that just closed or minimized: the
    /// most recent other focusable window.
    pub fn focus_replacement<F: Fn(VisualId) -> bool>(
        &self,
        excluded: Option<VisualId>,
        focusable: &F,
    ) -> (r: Option<VisualId>)
        requires
            forall|v: VisualId| #[trigger] call_requires(*focusable, (v,)),
        ensures
            match r {
                Some(v) => exists|k: int| #[trigger]
                    visited(k) && 0 <= k < self@.len() && self@[k] == v && Some(v) != excluded
                        && call_ensures(*focusable, (v,), true) && (forall|j: int|
                        0 <= j < k ==> rejected(excluded, *focusable, #[trigger] self@[j])),
                None => forall|j: int|
                    0 <= j < self@.len() ==> rejected(excluded, *focusable, #[trigger] self@[j]),
            },
            forall|ok: spec_fn(VisualId) -> bool| #[trigger]
                decides(*focusable, ok) ==> r == replacement_choice(self@, excluded, ok),
    {
        let len: usize = self.order.len();
        let mut i: usize = 0;
        while i < len
            invariant
                i <= len,
                len == self@.len(),
                len == self.order@.len(),
                forall|v: VisualId| #[trigger] call_requires(*focusable, (v,)),
                forall|j: int|
                    0 <= j < i ==> rejected(excluded, *focusable, #[trigger] self@[j]),
                forall|ok: spec_fn(VisualId) -> bool| #[trigger]
                    decides(*focusable, ok) ==> replacement_choice(self@, excluded, ok)
                        == choice_from(self@, None, true, other_than(excluded, ok), i as int),
            decreases len - i,
        {
            let cand = self.order[i];
            assert(cand == scanned(self@, None, true, i as int));
            if excluded != Some(cand) {
                let yes = focusable(cand);
                if yes {
                    assert(visited(i as int));
                    return Some(cand);
                }
            }
            i = i + 1;
        }
        None
    }

    fn cycle_from<F: Fn(VisualId) -> bool>(
        &self,
        current: Option<VisualId>,
        forward: bool,
        focusable: &F,
    ) -> (r: Option<VisualId>)
        requires
            forall|v: VisualId| #[trigger] call_requires(*focusable, (v,)),
        ensures
            cycle_result(self@, current, forward, *focusable, r),
            forall|ok: spec_fn(VisualId) -> bool| #[trigger]
                decides(*focusable, ok) ==> r == cycle_choice(self@, current, forward, ok),
    {
        let len: usize = self.order.len();
        if len == 0 {
            return None;
        }
        let start: usize = self.start_of(current, forward);
        let mut step: usize = 0;
        while step < len
            invariant
                step <= len,
                len == self@.len(),
                len == self.order@.len(),
                start < len,
                start == scan_start(self@, current, forward),
                forall|v: VisualId| #[trigger] call_requires(*focusable, (v,)),
                forall|j: int|
                    0 <= j < step ==> rejected(
                        current,
                        *focusable,
                        #[trigger] scanned(self@, current, forward, j),
                    ),
                forall|ok: spec_fn(VisualId) -> bool| #[trigger]
                    decides(*focusable, ok) ==> cycle_choice(self@, current, forward, ok)
                        == choice_from(self@, current, forward, ok, step as int),
            decreases len - step,
        {
            let idx: usize = if forward {
                if step < len - start {
                    start + step
                } else {
                    step - (len - start)
                }
            } else if step <= start {
                start - step
            } else {
                len - (step - start)
            };
            let cand = self.order[idx];
            assert(cand == scanned(self@, current, forward, step as int));
            let is_current = current == Some(cand);
            if !is_current {
                let yes = focusable(cand);
                if yes {
                    assert(visited(step as int));
                    return Some(cand);
                }
            }
            step = step + 1;
        }
        None
    }

    /// Where the scan begins.
    fn start_of(&self, current: Option<VisualId>, forward: bool) -> (r: usize)
        requires
            self@.len() > 0,
        ensures
            r < self@.len(),
            r == scan_start(self@, current, forward),
    {
        let len: usize = self.order.len();
        if let Some(c) = current {
            let mut i: usize = 0;
            while i < len
                invariant
                    i <= len,
                    len == self.order@.len(),
                    len > 0,
                    current == Some(c),
                    forall|j: int| 0 <= j < i ==> self.order@[j] != c,
                decreases len - i,
            {
                if self.order[i] == c {
                    proof {
                        lemma_first_position(self@, c, i as int);
                        assert(self@.contains(c));
                    }
                    return if forward {
                        if i + 1 == len {
                            0
                        } else {
                            i + 1
                        }
                    } else if i == 0 {
                        len - 1
                    } else {
                        i - 1
                    };
                }
                i = i + 1;
            }
            assert(!self@.contains(c));
        }
        if forward {
            0
        } else {
            len - 1
        }
    }
}

/// Marks a step of a scan.
pub open spec fn visited(step: int) -> bool {
    true
}

/// An entry the scan passes over: the window being left, or one the
/// predicate turned down.
pub open spec fn rejected<F: Fn(VisualId) -> bool>(
    current: Option<VisualId>,
    f: F,
    v: VisualId,
) -> bool {
    Some(v) == current || call_ensures(f, (v,), false)
}

/// What a cycle returns: the first scanned entry that is not passed over,
/// or nothing when a full round is.
pub open spec fn cycle_result<F: Fn(VisualId) -> bool>(
    order: Seq<VisualId>,
    current: Option<VisualId>,
    forward: bool,
    f: F,
    r: Option<VisualId>,
) -> bool {
    match r {
        Some(v) => exists|k: int| #[trigger]
            visited(k) && 0 <= k < order.len() && scanned(order, current, forward, k) == v && Some(
                v,
            ) != current && call_ensures(f, (v,), true) && (forall|j: int|
                0 <= j < k ==> rejected(current, f, #[trigger] scanned(order, current, forward, j))),
        None => forall|j: int|
            0 <= j < order.len() ==> rejected(
                current,
                f,
                #[trigger] scanned(order, current, forward, j),
            ),
    }
}

impl Default for FocusHistory {
    fn default() -> (r: Self)
        ensures
            r@ == Seq::<VisualId>::empty(),
    {
        FocusHistory::new()
    }
}

/// Recording focus keeps the history free of repetitions, puts the
/// window first and loses nobody.
pub proof fn law_touch_moves_to_front(order: Seq<VisualId>, vid: VisualId)
    requires
        order.no_duplicates(),
    ensures
        touched(order, vid).no_duplicates(),
        touched(order, vid)[0] == vid,
        forall|x: VisualId| #[trigger]
            touched(order, vid).contains(x) <==> order.contains(x) || x == vid,
        touched(order, vid).drop_first() == without(order, vid),
{
    let w = without(order, vid);
    let t = touched(order, vid);
    lemma_without_members(order, vid);
    lemma_without_no_duplicates(order, vid);
    assert(t.drop_first() =~= w);
    assert(!w.contains(vid));
    assert forall|i: int, j: int| 0 <= i < t.len() && 0 <= j < t.len() && i != j implies t[i]
        != t[j] by {
        if i > 0 && j > 0 {
            assert(t[i] == w[i - 1] && t[j] == w[j - 1]);
        } else if i > 0 {
            assert(w.contains(w[i - 1]));
        } else {
            assert(w.contains(w[j - 1]));
        }
    }
    assert forall|x: VisualId| #[trigger] t.contains(x) <==> order.contains(x) || x == vid by {
        assert(t[0] == vid);
        if w.contains(x) {
            let i = choose|i: int| 0 <= i < w.len() && w[i] == x;
            assert(t[i + 1] == x);
        }
        if t.contains(x) {
            let i = choose|i: int| 0 <= i < t.len() && t[i] == x;
            if i > 0 {
                assert(w[i - 1] == x);
            }
        }
    }
}

/// Dropping a window keeps the history free of repetitions, and the
/// window is gone.
pub proof fn law_removed_window_leaves_history(order: Seq<VisualId>, vid: VisualId)
    requires
        order.no_duplicates(),
    ensures
        without(order, vid).no_duplicates(),
        !without(order, vid).contains(vid),
{
    lemma_without_members(order, vid);
    lemma_without_no_duplicates(order, vid);
}

proof fn lemma_choice_is_candidate(
    order: Seq<VisualId>,
    current: Option<VisualId>,
    forward: bool,
    ok: spec_fn(VisualId) -> bool,
    step: int,
)
    requires
        0 <= step,
    ensures
        match choice_from(order, current, forward, ok, step) {
            Some(v) => order.contains(v) && Some(v) != current && ok(v),
            None => forall|j: int|
                step <= j < order.len() ==> Some(
                    #[trigger] scanned(order, current, forward, j),
                ) == current || !ok(scanned(order, current, forward, j)),
        },
    decreases order.len() - step,
{
    if step < order.len() {
        lemma_scan_in_range(order, current, forward, step);
        lemma_choice_is_candidate(order, current, forward, ok, step + 1);
    }
}

proof fn lemma_scan_in_range(
    order: Seq<VisualId>,
    current: Option<VisualId>,
    forward: bool,
    step: int,
)
    requires
        0 <= step < order.len(),
    ensures
        0 <= scan_start(order, current, forward) < order.len(),
        order.contains(scanned(order, current, forward, step)),
{
    if let Some(c) = current {
        if order.contains(c) {
            lemma_first_position_in_range(order, c);
        }
    }
    let start = scan_start(order, current, forward);
    let i = if forward {
        if start + step < order.len() {
            start + step
        } else {
            start + step - order.len()
        }
    } else if step <= start {
        start - step
    } else {
        start - step + order.len()
    };
    assert(order[i] == scanned(order, current, forward, step));
}

proof fn lemma_first_position_in_range(order: Seq<VisualId>, v: VisualId)
    requires
        order.contains(v),
    ensures
        0 <= first_position(order, v) < order.len(),
    decreases order.len(),
{
    if order[0] != v {
        let i = choose|i: int| 0 <= i < order.len() && order[i] == v;
        assert(order.drop_first()[i - 1] == v);
        lemma_first_position_in_range(order.drop_first(), v);
    }
}

/// A cycle never returns a window that is not in the history, the window
/// it starts from, or one that is not focusable.
pub proof fn law_cycle_returns_focusable_other(
    order: Seq<VisualId>,
    current: Option<VisualId>,
    forward: bool,
    ok: spec_fn(VisualId) -> bool,
)
    ensures
        cycle_choice(order, current, forward, ok) matches Some(v) ==> order.contains(v) && Some(v)
            != current && ok(v),
{
    lemma_choice_is_candidate(order, current, forward, ok, 0);
}

/// The window that takes over is the most recent one of those that can:
/// everything more recent is the excluded window or not focusable.
pub proof fn law_replacement_is_most_recent(
    order: Seq<VisualId>,
    excluded: Option<VisualId>,
    ok: spec_fn(VisualId) -> bool,
    k: int,
)
    requires
        0 <= k < order.len(),
        Some(order[k]) != excluded,
        ok(order[k]),
        forall|j: int| 0 <= j < k ==> Some(#[trigger] order[j]) == excluded || !ok(order[j]),
    ensures
        replacement_choice(order, excluded, ok) == Some(order[k]),
{
    lemma_first_accepted(order, other_than(excluded, ok), 0, k);
}

proof fn lemma_first_accepted(
    order: Seq<VisualId>,
    ok: spec_fn(VisualId) -> bool,
    from: int,
    k: int,
)
    requires
        0 <= from <= k < order.len(),
        ok(order[k]),
        forall|j: int| from <= j < k ==> !ok(#[trigger] order[j]),
    ensures
        choice_from(order, None, true, ok, from) == Some(order[k]),
    decreases k - from,
{
    assert(scanned(order, None, true, from) == order[from]);
    if from < k {
        lemma_first_accepted(order, ok, from + 1, k);
    }
}

/// A cycle comes back empty only when no other focusable window is in
/// the history.
pub proof fn law_cycle_finds_a_candidate(
    order: Seq<VisualId>,
    current: Option<VisualId>,
    forward: bool,
    ok: spec_fn(VisualId) -> bool,
    v: VisualId,
)
    requires
        order.contains(v),
        Some(v) != current,
        ok(v),
    ensures
        cycle_choice(order, current, forward, ok) is Some,
{
    lemma_choice_is_candidate(order, current, forward, ok, 0);
    let i = choose|i: int| 0 <= i < order.len() && order[i] == v;
    lemma_scan_in_range(order, current, forward, 0);
    let start = scan_start(order, current, forward);
    let k = if forward {
        if i >= start {
            i - start
        } else {
            i - start + order.len()
        }
    } else if i <= start {
        start - i
    } else {
        start - i + order.len()
    };
    assert(scanned(order, current, forward, k) == v);
}

/// The place `d` steps from `p` in a round of `n`, forwards or backwards.
pub open spec fn away(n: int, p: int, d: int, forward: bool) -> int {
    if forward {
        if p + d < n {
            p + d
        } else {
            p + d - n
        }
    } else if p - d >= 0 {
        p - d
    } else {
        p - d + n
    }
}

/// A cycle goes to the next one that may have focus: the first, counted
/// from the window that has it in the direction of the cycle, round the
/// end of the history.
pub proof fn law_cycle_takes_the_next(
    order: Seq<VisualId>,
    p: int,
    d: int,
    forward: bool,
    ok: spec_fn(VisualId) -> bool,
)
    requires
        order.no_duplicates(),
        0 <= p < order.len(),
        1 <= d < order.len(),
        ok(order[away(order.len() as int, p, d, forward)]),
        forall|e: int|
            1 <= e < d ==> !ok(order[#[trigger] away(order.len() as int, p, e, forward)]),
    ensures
        cycle_choice(order, Some(order[p]), forward, ok) == Some(
            order[away(order.len() as int, p, d, forward)],
        ),
{
    lemma_first_position(order, order[p], p);
    assert(order.contains(order[p]));
    lemma_choice_ahead(order, p, d, forward, ok, 1);
}

proof fn lemma_choice_ahead(
    order: Seq<VisualId>,
    p: int,
    d: int,
    forward: bool,
    ok: spec_fn(VisualId) -> bool,
    e: int,
)
    requires
        order.no_duplicates(),
        0 <= p < order.len(),
        1 <= e <= d < order.len(),
        order.contains(order[p]),
        first_position(order, order[p]) == p,
        ok(order[away(order.len() as int, p, d, forward)]),
        forall|f: int|
            1 <= f < d ==> !ok(order[#[trigger] away(order.len() as int, p, f, forward)]),
    ensures
        choice_from(order, Some(order[p]), forward, ok, e - 1) == Some(
            order[away(order.len() as int, p, d, forward)],
        ),
    decreases d - e,
{
    let n = order.len() as int;
    assert(scanned(order, Some(order[p]), forward, e - 1) == order[away(n, p, e, forward)]);
    assert(order[away(n, p, e, forward)] != order[p]);
    if e < d {
        assert(!ok(order[away(n, p, e, forward)]));
        lemma_choice_ahead(order, p, d, forward, ok, e + 1);
    }
}

/// A cycle from nobody starts at the near end of the history: at the most
/// recent window forwards, at the least recent backwards.
pub proof fn law_cycle_starts_at_the_near_end(
    order: Seq<VisualId>,
    forward: bool,
    ok: spec_fn(VisualId) -> bool,
)
    requires
        order.len() > 0,
    ensures
        forward && ok(order[0]) ==> cycle_choice(order, None, forward, ok) == Some(order[0]),
        !forward && ok(order[order.len() - 1]) ==> cycle_choice(order, None, forward, ok) == Some(
            order[order.len() - 1],
        ),
{
}

/// A cycle forwards from nobody goes to the first that may have focus.
pub proof fn law_cycle_takes_the_first(
    order: Seq<VisualId>,
    k: int,
    ok: spec_fn(VisualId) -> bool,
)
    requires
        0 <= k < order.len(),
        ok(order[k]),
        forall|j: int| 0 <= j < k ==> !ok(#[trigger] order[j]),
    ensures
        cycle_choice(order, None, true, ok) == Some(order[k]),
{
    lemma_choice_from_nobody(order, k, ok, 0);
}

proof fn lemma_choice_from_nobody(
    order: Seq<VisualId>,
    k: int,
    ok: spec_fn(VisualId) -> bool,
    e: int,
)
    requires
        0 <= e <= k < order.len(),
        ok(order[k]),
        forall|j: int| 0 <= j < k ==> !ok(#[trigger] order[j]),
    ensures
        choice_from(order, None, true, ok, e) == Some(order[k]),
    decreases k - e,
{
    assert(scanned(order, None, true, e) == order[e]);
    if e < k {
        assert(!ok(order[e]));
        lemma_choice_from_nobody(order, k, ok, e + 1);
    }
}

} // verus!
