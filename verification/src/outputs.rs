//! The outputs of the desktop: who is there, who is first, where each
//! one lies on the desktop plane, and which backend slot drives it.
use vstd::prelude::*;

use crate::context_menu::Coordinate;
use crate::input::Camera;

verus! {

/// Identity of an output; never used again after it is unplugged.
#[derive(Debug, Clone, Copy, PartialEq, Eq, PartialOrd, Ord, Hash, Structural)]
pub struct OutputId(pub u64);

/// One output.
#[derive(Debug)]
pub struct OutputState {
    pub name: String,
    /// Size in pixels.
    pub mode: (u32, u32),
    pub refresh_mhz: i32,
    pub scale: Coordinate,
    /// Top-left corner on the desktop plane.
    pub global_pos: (i32, i32),
    /// The view presented on it.
    pub camera: Camera,
}

/// An output with its identity.
#[derive(Debug)]
pub struct OutputEntry {
    pub id: OutputId,
    pub state: OutputState,
}

/// What unplugging an output changed.
#[derive(Debug, Clone, Copy, PartialEq, Eq, Structural)]
pub struct UnplugEffect {
    pub was_primary: bool,
    /// The output that is first now, if the first one went.
    pub promoted: Option<OutputId>,
}

/// The part of the desktop plane that an output presents.
#[derive(Debug, Clone, Copy, PartialEq, Eq, Structural)]
pub struct OutputViewport {
    pub x: i32,
    pub y: i32,
    pub width: u32,
    pub height: u32,
}

/// What one output presents in a frame.
#[derive(Debug, Clone, Copy, PartialEq, Eq, Structural)]
pub struct FramePlan {
    pub output: OutputId,
    pub viewport: OutputViewport,
}

/// The registry of outputs.
#[derive(Debug)]
pub struct OutputManager {
    entries: Vec<OutputEntry>,
    primary: Option<OutputId>,
    next: u64,
}

/// The registry, as a mathematical value.
#[verifier::ext_equal]
pub ghost struct OutputsModel {
    pub entries: Seq<OutputEntry>,
    pub primary: Option<OutputId>,
    pub next: u64,
}

impl View for OutputManager {
    type V = OutputsModel;

    closed spec fn view(&self) -> OutputsModel {
        OutputsModel { entries: self.entries@, primary: self.primary, next: self.next }
    }
}

/// Position of the first output with this id, or the length.
pub open spec fn output_index(s: Seq<OutputEntry>, id: OutputId) -> int
    decreases s.len(),
{
    if s.len() == 0 || s[0].id == id {
        0
    } else {
        1 + output_index(s.drop_first(), id)
    }
}

proof fn lemma_output_index(s: Seq<OutputEntry>, id: OutputId, i: int)
    requires
        0 <= i <= s.len(),
        forall|j: int| 0 <= j < i ==> (#[trigger] s[j]).id != id,
        i < s.len() ==> s[i].id == id,
    ensures
        output_index(s, id) == i,
    decreases s.len(),
{
    if i > 0 {
        assert(s[0].id != id);
        let rest = s.drop_first();
        assert forall|j: int| 0 <= j < i - 1 implies (#[trigger] rest[j]).id != id by {
            assert(rest[j] == s[j + 1]);
        }
        lemma_output_index(rest, id, i - 1);
    }
}

proof fn lemma_output_index_bounds(s: Seq<OutputEntry>, id: OutputId)
    ensures
        0 <= output_index(s, id) <= s.len(),
        output_index(s, id) < s.len() ==> s[output_index(s, id)].id == id,
        forall|j: int| 0 <= j < output_index(s, id) ==> (#[trigger] s[j]).id != id,
    decreases s.len(),
{
    if s.len() > 0 && s[0].id != id {
        let rest = s.drop_first();
        lemma_output_index_bounds(rest, id);
        assert forall|j: int| 0 <= j < output_index(s, id) implies (#[trigger] s[j]).id != id by {
            if j > 0 {
                assert(s[j] == rest[j - 1]);
            }
        }
    }
}

/// Right edge of an output.
pub open spec fn right_edge(e: OutputEntry) -> int {
    e.state.global_pos.0 + e.state.mode.0
}

/// Bottom edge of an output.
pub open spec fn bottom_edge(e: OutputEntry) -> int {
    e.state.global_pos.1 + e.state.mode.1
}

/// The larger of two.
pub open spec fn larger(a: int, b: int) -> int {
    if a >= b {
        a
    } else {
        b
    }
}

/// How far the outputs reach to the right and down, from the origin.
pub open spec fn extents(s: Seq<OutputEntry>) -> (int, int)
    decreases s.len(),
{
    if s.len() == 0 {
        (0, 0)
    } else {
        let e = extents(s.drop_last());
        (larger(e.0, right_edge(s.last())), larger(e.1, bottom_edge(s.last())))
    }
}

/// The point lies on the output.
pub open spec fn covers(e: OutputEntry, x: int, y: int) -> bool {
    &&& e.state.global_pos.0 <= x < right_edge(e)
    &&& e.state.global_pos.1 <= y < bottom_edge(e)
}

/// Position of the first output that the point lies on, or the length.
pub open spec fn cover_index(s: Seq<OutputEntry>, x: int, y: int) -> int
    decreases s.len(),
{
    if s.len() == 0 || covers(s[0], x, y) {
        0
    } else {
        1 + cover_index(s.drop_first(), x, y)
    }
}

proof fn lemma_cover_index(s: Seq<OutputEntry>, x: int, y: int, i: int)
    requires
        0 <= i <= s.len(),
        forall|j: int| 0 <= j < i ==> !covers(#[trigger] s[j], x, y),
        i < s.len() ==> covers(s[i], x, y),
    ensures
        cover_index(s, x, y) == i,
    decreases s.len(),
{
    if i > 0 {
        assert(!covers(s[0], x, y));
        let rest = s.drop_first();
        assert forall|j: int| 0 <= j < i - 1 implies !covers(#[trigger] rest[j], x, y) by {
            assert(rest[j] == s[j + 1]);
        }
        lemma_cover_index(rest, x, y, i - 1);
    }
}

impl OutputsModel {
    pub open spec fn empty() -> OutputsModel {
        OutputsModel { entries: Seq::empty(), primary: None, next: 1 }
    }

    /// Ids are handed out in order, the first output is one that is
    /// there, and there is one whenever there is any output.
    pub open spec fn wf(self) -> bool {
        &&& forall|i: int| 0 <= i < self.entries.len() ==> (#[trigger] self.entries[i]).id.0
            < self.next
        &&& forall|i: int, j: int|
            0 <= i < j < self.entries.len() ==> (#[trigger] self.entries[i]).id
                != (#[trigger] self.entries[j]).id
        &&& match self.primary {
            Some(p) => output_index(self.entries, p) < self.entries.len(),
            None => self.entries.len() == 0,
        }
    }

    /// One more output, the first one if there was none.
    pub open spec fn added(self, state: OutputState) -> OutputsModel {
        let id = OutputId(self.next);
        OutputsModel {
            entries: self.entries.push(OutputEntry { id, state }),
            primary: match self.primary {
                Some(p) => Some(p),
                None => Some(id),
            },
            next: (self.next + 1) as u64,
        }
    }

    /// An output gone. If it was the first one, the next in order is.
    pub open spec fn unplugged(self, id: OutputId) -> OutputsModel {
        let i = output_index(self.entries, id);
        if i < self.entries.len() {
            let rest = self.entries.remove(i);
            OutputsModel {
                entries: rest,
                primary: if self.primary == Some(id) {
                    if rest.len() > 0 {
                        Some(rest[0].id)
                    } else {
                        None
                    }
                } else {
                    self.primary
                },
                ..self
            }
        } else {
            self
        }
    }

    /// An output that came back, to the right of the others.
    pub open spec fn replugged(self, state: OutputState) -> OutputsModel {
        self.added(
            OutputState { global_pos: (extents(self.entries).0 as i32, 0), ..state },
        )
    }

    /// The first output's state replaced.
    pub open spec fn with_primary(self, state: OutputState) -> OutputsModel {
        match self.primary {
            Some(p) => {
                let i = output_index(self.entries, p);
                if i < self.entries.len() {
                    OutputsModel {
                        entries: self.entries.update(i, OutputEntry { id: p, state }),
                        ..self
                    }
                } else {
                    self
                }
            },
            None => self,
        }
    }

    /// The first output's state.
    pub open spec fn primary_state(self) -> Option<OutputState> {
        match self.primary {
            Some(p) => {
                let i = output_index(self.entries, p);
                if i < self.entries.len() {
                    Some(self.entries[i].state)
                } else {
                    None
                }
            },
            None => None,
        }
    }
}

/// Every plan shows an output where it lies.
pub open spec fn plan_of(e: OutputEntry) -> FramePlan {
    FramePlan {
        output: e.id,
        viewport: OutputViewport {
            x: e.state.global_pos.0,
            y: e.state.global_pos.1,
            width: e.state.mode.0,
            height: e.state.mode.1,
        },
    }
}

impl OutputManager {
    pub fn new() -> (r: Self)
        ensures
            r@ == OutputsModel::empty(),
            r@.wf(),
    {
        OutputManager { entries: Vec::new(), primary: None, next: 1 }
    }

    /// Adds an output and gives it an identity.
    pub fn add(&mut self, state: OutputState) -> (r: OutputId)
        requires
            old(self)@.wf(),
            old(self)@.next < u64::MAX,
        ensures
            r == OutputId(old(self)@.next),
            final(self)@ == old(self)@.added(state),
            final(self)@.wf(),
    {
        let id = OutputId(self.next);
        self.next = self.next + 1;
        self.entries.push(OutputEntry { id, state });
        if self.primary.is_none() {
            self.primary = Some(id);
        }
        proof {
            lemma_added_wf(old(self)@, state);
        }
        id
    }

    fn position(&self, id: OutputId) -> (r: Option<usize>)
        ensures
            match r {
                Some(i) => i < self@.entries.len() && i == output_index(self@.entries, id)
                    && self@.entries[i as int].id == id,
                None => output_index(self@.entries, id) == self@.entries.len(),
            },
    {
        let mut i: usize = 0;
        while i < self.entries.len()
            invariant
                i <= self.entries@.len(),
                forall|j: int| 0 <= j < i ==> (#[trigger] self.entries@[j]).id != id,
            decreases self.entries@.len() - i,
        {
            if self.entries[i].id == id {
                proof {
                    lemma_output_index(self@.entries, id, i as int);
                }
                return Some(i);
            }
            i = i + 1;
        }
        proof {
            lemma_output_index(self@.entries, id, i as int);
        }
        None
    }

    pub fn primary_id(&self) -> (r: Option<OutputId>)
        ensures
            r == self@.primary,
    {
        self.primary
    }

    /// The outputs, in the order in which they came.
    pub fn outputs(&self) -> (r: &[OutputEntry])
        ensures
            r@ == self@.entries,
    {
        self.entries.as_slice()
    }

    /// Size of the first output.
    pub fn primary_size(&self) -> (r: Option<(u32, u32)>)
        ensures
            r == match self@.primary_state() {
                Some(s) => Some(s.mode),
                None => None,
            },
    {
        match self.primary {
            Some(p) => match self.position(p) {
                Some(i) => Some(self.entries[i].state.mode),
                None => None,
            },
            None => None,
        }
    }

    /// The first output's mode changed; its view stays as it is.
    pub fn update_primary_mode(&mut self, width: u32, height: u32, refresh_mhz: i32)
        ensures
            final(self)@ == match old(self)@.primary_state() {
                Some(s) => old(self)@.with_primary(
                    OutputState { mode: (width, height), refresh_mhz, ..s },
                ),
                None => old(self)@,
            },
    {
        if let Some(p) = self.primary {
            if let Some(i) = self.position(p) {
                self.entries[i].state.mode = (width, height);
                self.entries[i].state.refresh_mhz = refresh_mhz;
                assert(self@ == old(self)@.with_primary(self.entries@[i as int].state));
            }
        }
    }

    pub fn update_primary_scale(&mut self, scale: Coordinate)
        ensures
            final(self)@ == match old(self)@.primary_state() {
                Some(s) => old(self)@.with_primary(OutputState { scale, ..s }),
                None => old(self)@,
            },
    {
        if let Some(p) = self.primary {
            if let Some(i) = self.position(p) {
                self.entries[i].state.scale = scale;
                assert(self@ == old(self)@.with_primary(self.entries@[i as int].state));
            }
        }
    }

    pub fn rename_primary(&mut self, name: String)
        ensures
            final(self)@ == match old(self)@.primary_state() {
                Some(s) => old(self)@.with_primary(OutputState { name, ..s }),
                None => old(self)@,
            },
    {
        if let Some(p) = self.primary {
            if let Some(i) = self.position(p) {
                self.entries[i].state.name = name;
                assert(self@ == old(self)@.with_primary(self.entries@[i as int].state));
            }
        }
    }

    /// Keeps the first output in step with the framebuffer. `current` is
    /// the size and refresh rate that clients were told. Returns whether
    /// they have to be told anew; a change of the rate alone counts.
    pub fn sync_output_mode(
        &mut self,
        current: Option<((i32, i32), i32)>,
        width: i32,
        height: i32,
        refresh_mhz: i32,
        name: String,
    ) -> (r: bool)
        ensures
            r == (current != Some(((width, height), refresh_mhz))),
            final(self)@ == match (r, old(self)@.primary_state()) {
                (true, Some(s)) => old(self)@.with_primary(
                    OutputState { name, mode: (width as u32, height as u32), refresh_mhz, ..s },
                ),
                _ => old(self)@,
            },
    {
        if let Some((size, rate)) = current {
            if size.0 == width && size.1 == height && rate == refresh_mhz {
                return false;
            }
        }
        if let Some(p) = self.primary {
            if let Some(i) = self.position(p) {
                self.entries[i].state.mode = (width as u32, height as u32);
                self.entries[i].state.refresh_mhz = refresh_mhz;
                self.entries[i].state.name = name;
                assert(self@ == old(self)@.with_primary(self.entries@[i as int].state));
            }
        }
        true
    }

    /// An output was unplugged. Nothing is returned for one that is not
    /// there. No window depends on it.
    pub fn unplug_output(&mut self, id: OutputId) -> (r: Option<UnplugEffect>)
        requires
            old(self)@.wf(),
        ensures
            final(self)@ == old(self)@.unplugged(id),
            final(self)@.wf(),
            r == if output_index(old(self)@.entries, id) < old(self)@.entries.len() {
                Some(
                    UnplugEffect {
                        was_primary: old(self)@.primary == Some(id),
                        promoted: if old(self)@.primary == Some(id) {
                            final(self)@.primary
                        } else {
                            None
                        },
                    },
                )
            } else {
                None
            },
    {
        let i: usize = match self.position(id) {
            Some(i) => i,
            None => {
                return None;
            },
        };
        proof {
            lemma_unplugged_wf(self@, id);
        }
        let was_primary = self.primary == Some(id);
        self.entries.remove(i);
        let mut promoted: Option<OutputId> = None;
        if was_primary {
            if self.entries.len() > 0 {
                promoted = Some(self.entries[0].id);
            }
            self.primary = promoted;
        }
        assert(self@ == old(self)@.unplugged(id));
        Some(UnplugEffect { was_primary, promoted })
    }

    /// An output was plugged in again: a new identity, placed to the
    /// right of the others.
    pub fn replug_output(&mut self, state: OutputState) -> (r: OutputId)
        requires
            old(self)@.wf(),
            old(self)@.next < u64::MAX,
            extents(old(self)@.entries).0 <= i32::MAX,
            extents(old(self)@.entries).1 <= i32::MAX,
        ensures
            r == OutputId(old(self)@.next),
            final(self)@ == old(self)@.replugged(state),
            final(self)@.wf(),
    {
        let (right, bottom) = self.global_extents();
        let mut placed = state;
        placed.global_pos = (right as i32, 0);
        self.add(placed)
    }

    /// How far the desktop plane reaches.
    pub fn global_extents(&self) -> (r: (u32, u32))
        requires
            extents(self@.entries).0 <= u32::MAX,
            extents(self@.entries).1 <= u32::MAX,
        ensures
            r.0 == extents(self@.entries).0,
            r.1 == extents(self@.entries).1,
    {
        let ghost s = self.entries@;
        let mut right: u32 = 0;
        let mut bottom: u32 = 0;
        let mut i: usize = 0;
        assert(s.take(0) =~= Seq::empty());
        while i < self.entries.len()
            invariant
                i <= self.entries@.len(),
                s == self.entries@,
                right == extents(s.take(i as int)).0,
                bottom == extents(s.take(i as int)).1,
                extents(s).0 <= u32::MAX,
                extents(s).1 <= u32::MAX,
            decreases self.entries@.len() - i,
        {
            proof {
                assert(s.take(i + 1).drop_last() =~= s.take(i as int));
                assert(s.take(i + 1).last() == s[i as int]);
                lemma_extents_grow(s, i + 1);
            }
            let pos = self.entries[i].state.global_pos;
            let mode = self.entries[i].state.mode;
            let r: i64 = pos.0 as i64 + mode.0 as i64;
            let b: i64 = pos.1 as i64 + mode.1 as i64;
            if r > right as i64 {
                right = r as u32;
            }
            if b > bottom as i64 {
                bottom = b as u32;
            }
            i = i + 1;
        }
        assert(s.take(i as int) =~= s);
        (right, bottom)
    }

    /// The output a point of the desktop plane lies on, and where on it.
    pub fn to_local(&self, x: i32, y: i32) -> (r: Option<(OutputId, i32, i32)>)
        ensures
            match r {
                Some((id, lx, ly)) => {
                    let i = cover_index(self@.entries, x as int, y as int);
                    &&& i < self@.entries.len()
                    &&& id == self@.entries[i].id
                    &&& lx == x - self@.entries[i].state.global_pos.0
                    &&& ly == y - self@.entries[i].state.global_pos.1
                },
                None => self.beyond(x as int, y as int),
            },
    {
        let mut i: usize = 0;
        while i < self.entries.len()
            invariant
                i <= self.entries@.len(),
                forall|j: int|
                    0 <= j < i ==> !covers(#[trigger] self.entries@[j], x as int, y as int),
            decreases self.entries@.len() - i,
        {
            let pos = self.entries[i].state.global_pos;
            let mode = self.entries[i].state.mode;
            let dx: i64 = x as i64 - pos.0 as i64;
            let dy: i64 = y as i64 - pos.1 as i64;
            if dx >= 0 && dy >= 0 && dx < mode.0 as i64 && dy < mode.1 as i64 {
                proof {
                    lemma_cover_index(self@.entries, x as int, y as int, i as int);
                }
                if dx <= i32::MAX as i64 && dy <= i32::MAX as i64 {
                    return Some((self.entries[i].id, dx as i32, dy as i32));
                }
                return None;
            }
            i = i + 1;
        }
        proof {
            lemma_cover_index(self@.entries, x as int, y as int, i as int);
        }
        None
    }

    /// No output has the point, or it lies further into one than a
    /// coordinate can say.
    pub open spec fn beyond(&self, x: int, y: int) -> bool {
        let s = self@.entries;
        let i = cover_index(s, x, y);
        i == s.len() || x - s[i].state.global_pos.0 > i32::MAX || y - s[i].state.global_pos.1
            > i32::MAX
    }

    /// What each output presents in a frame, in order.
    pub fn build_frame_plans(&self) -> (r: Vec<FramePlan>)
        ensures
            r@ == self@.entries.map_values(|e: OutputEntry| plan_of(e)),
    {
        let mut plans: Vec<FramePlan> = Vec::new();
        let mut i: usize = 0;
        while i < self.entries.len()
            invariant
                i <= self.entries@.len(),
                plans@.len() == i,
                forall|j: int| 0 <= j < i ==> plans@[j] == plan_of(#[trigger] self.entries@[j]),
            decreases self.entries@.len() - i,
        {
            let state = &self.entries[i].state;
            plans.push(
                FramePlan {
                    output: self.entries[i].id,
                    viewport: OutputViewport {
                        x: state.global_pos.0,
                        y: state.global_pos.1,
                        width: state.mode.0,
                        height: state.mode.1,
                    },
                },
            );
            i = i + 1;
        }
        assert(plans@ =~= self@.entries.map_values(|e: OutputEntry| plan_of(e)));
        plans
    }
}

proof fn lemma_extents_grow(s: Seq<OutputEntry>, n: int)
    requires
        0 <= n <= s.len(),
    ensures
        0 <= extents(s.take(n)).0 <= extents(s).0,
        0 <= extents(s.take(n)).1 <= extents(s).1,
    decreases s.len() - n,
{
    if n == s.len() {
        assert(s.take(n) =~= s);
        lemma_extents_positive(s);
    } else {
        lemma_extents_grow(s, n + 1);
        assert(s.take(n + 1).drop_last() =~= s.take(n));
        lemma_extents_positive(s.take(n));
    }
}

proof fn lemma_extents_positive(s: Seq<OutputEntry>)
    ensures
        0 <= extents(s).0,
        0 <= extents(s).1,
    decreases s.len(),
{
    if s.len() > 0 {
        lemma_extents_positive(s.drop_last());
    }
}

proof fn lemma_added_wf(m: OutputsModel, state: OutputState)
    requires
        m.wf(),
        m.next < u64::MAX,
    ensures
        m.added(state).wf(),
{
    let n = m.added(state);
    let e = n.entries;
    assert(e.last().id.0 == m.next);
    match m.primary {
        Some(p) => {
            let k = output_index(m.entries, p);
            lemma_output_index_bounds(m.entries, p);
            assert forall|j: int| 0 <= j < k implies (#[trigger] e[j]).id != p by {
                assert(e[j] == m.entries[j]);
            }
            assert(e[k] == m.entries[k]);
            lemma_output_index(e, p, k);
        },
        None => {
            lemma_output_index(e, OutputId(m.next), 0);
        },
    }
}

proof fn lemma_unplugged_wf(m: OutputsModel, id: OutputId)
    requires
        m.wf(),
    ensures
        m.unplugged(id).wf(),
{
    let i = output_index(m.entries, id);
    lemma_output_index_bounds(m.entries, id);
    if i < m.entries.len() {
        let rest = m.entries.remove(i);
        let n = m.unplugged(id);
        assert forall|a: int, b: int| 0 <= a < b < rest.len() implies (#[trigger] rest[a]).id
            != (#[trigger] rest[b]).id by {
            let a0 = if a < i {
                a
            } else {
                a + 1
            };
            let b0 = if b < i {
                b
            } else {
                b + 1
            };
            assert(rest[a] == m.entries[a0] && rest[b] == m.entries[b0]);
        }
        match m.primary {
            Some(p) => if p == id {
                if rest.len() > 0 {
                    lemma_output_index(rest, rest[0].id, 0);
                }
            } else {
                let k = output_index(m.entries, p);
                lemma_output_index_bounds(m.entries, p);
                let k0 = if k < i {
                    k
                } else {
                    k - 1
                };
                assert(rest[k0] == m.entries[k]);
                lemma_output_index_bounds(rest, p);
            },
            None => {},
        }
    }
}

/// Unplugging an output takes away that one and no other, and the first
/// output stays first unless it is the one that went.
pub proof fn law_unplug_takes_one_output(m: OutputsModel, id: OutputId, other: OutputId)
    requires
        m.wf(),
        other != id,
    ensures
        output_index(m.unplugged(id).entries, id) == m.unplugged(id).entries.len(),
        output_index(m.entries, other) < m.entries.len() <==> output_index(
            m.unplugged(id).entries,
            other,
        ) < m.unplugged(id).entries.len(),
        m.primary == Some(other) ==> m.unplugged(id).primary == Some(other),
{
    let i = output_index(m.entries, id);
    lemma_output_index_bounds(m.entries, id);
    lemma_output_index_bounds(m.entries, other);
    let r = m.unplugged(id).entries;
    lemma_output_index_bounds(r, id);
    lemma_output_index_bounds(r, other);
    if i < m.entries.len() {
        let k = output_index(r, id);
        if k < r.len() {
            let k0 = if k < i {
                k
            } else {
                k + 1
            };
            assert(r[k] == m.entries[k0]);
            assert(m.entries[k0].id == m.entries[i].id);
        }
        let o = output_index(m.entries, other);
        if o < m.entries.len() {
            let o0 = if o < i {
                o
            } else {
                o - 1
            };
            assert(r[o0] == m.entries[o]);
        }
        let q = output_index(r, other);
        if q < r.len() {
            let q0 = if q < i {
                q
            } else {
                q + 1
            };
            assert(r[q] == m.entries[q0]);
        }
    }
}

/// An output that comes back has a new identity.
pub proof fn law_replug_is_a_new_identity(m: OutputsModel, id: OutputId, state: OutputState)
    requires
        m.wf(),
        m.next < u64::MAX,
        output_index(m.entries, id) < m.entries.len(),
    ensures
        m.unplugged(id).replugged(state).entries.last().id != id,
        m.unplugged(id).replugged(state).entries.len() == m.entries.len(),
{
    lemma_output_index_bounds(m.entries, id);
    assert(m.entries[output_index(m.entries, id)].id.0 < m.next);
}

/// Which backend slot drives each output.
#[derive(Debug)]
pub struct OutputBindings {
    rows: Vec<(OutputId, usize)>,
}

impl View for OutputBindings {
    type V = Seq<(OutputId, usize)>;

    closed spec fn view(&self) -> Seq<(OutputId, usize)> {
        self.rows@
    }
}

/// Position of the first row of the output, or the length.
pub open spec fn binding_index(s: Seq<(OutputId, usize)>, id: OutputId) -> int
    decreases s.len(),
{
    if s.len() == 0 || s[0].0 == id {
        0
    } else {
        1 + binding_index(s.drop_first(), id)
    }
}

proof fn lemma_binding_index(s: Seq<(OutputId, usize)>, id: OutputId, i: int)
    requires
        0 <= i <= s.len(),
        forall|j: int| 0 <= j < i ==> (#[trigger] s[j]).0 != id,
        i < s.len() ==> s[i].0 == id,
    ensures
        binding_index(s, id) == i,
    decreases s.len(),
{
    if i > 0 {
        assert(s[0].0 != id);
        let rest = s.drop_first();
        assert forall|j: int| 0 <= j < i - 1 implies (#[trigger] rest[j]).0 != id by {
            assert(rest[j] == s[j + 1]);
        }
        lemma_binding_index(rest, id, i - 1);
    }
}

/// Rows of other outputs.
pub open spec fn of_other_output(id: OutputId) -> spec_fn((OutputId, usize)) -> bool {
    |r: (OutputId, usize)| r.0 != id
}

/// The slot of an output.
pub open spec fn slot_of(s: Seq<(OutputId, usize)>, id: OutputId) -> Option<usize> {
    let i = binding_index(s, id);
    if i < s.len() {
        Some(s[i].1)
    } else {
        None
    }
}

/// The bindings with an output bound to a slot.
pub open spec fn bound_to(s: Seq<(OutputId, usize)>, id: OutputId, slot: usize) -> Seq<
    (OutputId, usize),
> {
    s.filter(of_other_output(id)).push((id, slot))
}

/// The rows that stay when a backend slot goes: those of other slots,
/// the ones behind it moved up.
pub open spec fn compacted(s: Seq<(OutputId, usize)>, slot: usize) -> Seq<(OutputId, usize)>
    decreases s.len(),
{
    if s.len() == 0 {
        Seq::empty()
    } else {
        let before = compacted(s.drop_last(), slot);
        let r = s.last();
        if r.1 == slot {
            before
        } else if r.1 > slot {
            before.push((r.0, (r.1 - 1) as usize))
        } else {
            before.push(r)
        }
    }
}

/// The outputs that lose their slot.
pub open spec fn driven_by(s: Seq<(OutputId, usize)>, slot: usize) -> Seq<OutputId>
    decreases s.len(),
{
    if s.len() == 0 {
        Seq::empty()
    } else {
        let before = driven_by(s.drop_last(), slot);
        if s.last().1 == slot {
            before.push(s.last().0)
        } else {
            before
        }
    }
}

impl OutputBindings {
    pub fn new() -> (r: Self)
        ensures
            r@.len() == 0,
    {
        OutputBindings { rows: Vec::new() }
    }

    /// Binds an output to a backend slot.
    pub fn bind(&mut self, id: OutputId, slot: usize)
        ensures
            final(self)@ == bound_to(old(self)@, id, slot),
    {
        let ghost s = self.rows@;
        let ghost p = of_other_output(id);
        let mut kept: Vec<(OutputId, usize)> = Vec::new();
        let mut i: usize = 0;
        while i < self.rows.len()
            invariant
                i <= self.rows@.len(),
                self.rows@ == s,
                p == of_other_output(id),
                kept@ == s.take(i as int).filter(p),
            decreases self.rows@.len() - i,
        {
            let r = self.rows[i];
            proof {
                reveal(Seq::filter);
                assert(s.take(i + 1).drop_last() =~= s.take(i as int));
                assert(s.take(i + 1).last() == r);
            }
            if r.0 != id {
                kept.push(r);
            }
            i = i + 1;
        }
        assert(s.take(i as int) =~= s);
        kept.push((id, slot));
        self.rows = kept;
    }

    /// The backend slot that drives an output.
    pub fn index_for(&self, id: OutputId) -> (r: Option<usize>)
        ensures
            r == slot_of(self@, id),
    {
        let mut i: usize = 0;
        while i < self.rows.len()
            invariant
                i <= self.rows@.len(),
                forall|j: int| 0 <= j < i ==> (#[trigger] self.rows@[j]).0 != id,
            decreases self.rows@.len() - i,
        {
            if self.rows[i].0 == id {
                proof {
                    lemma_binding_index(self@, id, i as int);
                }
                return Some(self.rows[i].1);
            }
            i = i + 1;
        }
        proof {
            lemma_binding_index(self@, id, i as int);
        }
        None
    }

    /// A backend slot went away. The outputs it drove are returned; the
    /// others keep their identity, and slots behind it move up.
    pub fn backend_removed(&mut self, slot: usize) -> (r: Vec<OutputId>)
        ensures
            r@ == driven_by(old(self)@, slot),
            final(self)@ == compacted(old(self)@, slot),
    {
        let ghost s = self.rows@;
        let mut affected: Vec<OutputId> = Vec::new();
        let mut kept: Vec<(OutputId, usize)> = Vec::new();
        let mut i: usize = 0;
        assert(s.take(0) =~= Seq::empty());
        while i < self.rows.len()
            invariant
                i <= self.rows@.len(),
                self.rows@ == s,
                affected@ == driven_by(s.take(i as int), slot),
                kept@ == compacted(s.take(i as int), slot),
            decreases self.rows@.len() - i,
        {
            let r = self.rows[i];
            proof {
                assert(s.take(i + 1).drop_last() =~= s.take(i as int));
                assert(s.take(i + 1).last() == r);
            }
            if r.1 == slot {
                affected.push(r.0);
            } else if r.1 > slot {
                kept.push((r.0, r.1 - 1));
            } else {
                kept.push(r);
            }
            i = i + 1;
        }
        assert(s.take(i as int) =~= s);
        self.rows = kept;
        affected
    }
}

/// A bound output is found at its slot, and binding it leaves the others
/// where they are.
pub proof fn law_bound_output_is_found(
    s: Seq<(OutputId, usize)>,
    id: OutputId,
    slot: usize,
    other: OutputId,
)
    ensures
        slot_of(bound_to(s, id, slot), id) == Some(slot),
        other != id ==> slot_of(bound_to(s, id, slot), other) == slot_of(s, other),
{
    let f = s.filter(of_other_output(id));
    let b = bound_to(s, id, slot);
    lemma_filtered_bindings(s, id, other);
    assert forall|j: int| 0 <= j < f.len() implies (#[trigger] b[j]).0 != id by {
        assert(b[j] == f[j]);
    }
    lemma_binding_index(b, id, f.len() as int);
    if other != id {
        lemma_binding_index_bounds(f, other);
        let k = binding_index(f, other);
        assert forall|j: int| 0 <= j < k implies (#[trigger] b[j]).0 != other by {
            assert(b[j] == f[j]);
        }
        if k < f.len() {
            lemma_binding_index(b, other, k);
        } else {
            assert forall|j: int| 0 <= j < b.len() implies (#[trigger] b[j]).0 != other by {
                if j < f.len() {
                    assert(b[j] == f[j]);
                }
            }
            lemma_binding_index(b, other, b.len() as int);
        }
    }
}

proof fn lemma_binding_index_bounds(s: Seq<(OutputId, usize)>, id: OutputId)
    ensures
        0 <= binding_index(s, id) <= s.len(),
        binding_index(s, id) < s.len() ==> s[binding_index(s, id)].0 == id,
        forall|j: int| 0 <= j < binding_index(s, id) ==> (#[trigger] s[j]).0 != id,
    decreases s.len(),
{
    if s.len() > 0 && s[0].0 != id {
        let rest = s.drop_first();
        lemma_binding_index_bounds(rest, id);
        assert forall|j: int| 0 <= j < binding_index(s, id) implies (#[trigger] s[j]).0 != id by {
            if j > 0 {
                assert(s[j] == rest[j - 1]);
            }
        }
    }
}

proof fn lemma_filtered_bindings(s: Seq<(OutputId, usize)>, id: OutputId, other: OutputId)
    ensures
        forall|j: int|
            0 <= j < s.filter(of_other_output(id)).len() ==> (#[trigger] s.filter(
                of_other_output(id),
            )[j]).0 != id,
        other != id ==> slot_of(s.filter(of_other_output(id)), other) == slot_of(s, other),
    decreases s.len(),
{
    reveal(Seq::filter);
    let p = of_other_output(id);
    if s.len() > 0 {
        let rest = s.drop_last();
        lemma_filtered_bindings(rest, id, other);
        let d = rest.filter(p);
        let r = s.filter(p);
        assert(r == if s.last().0 != id {
            d.push(s.last())
        } else {
            d
        });
        assert forall|j: int| 0 <= j < r.len() implies (#[trigger] r[j]).0 != id by {
            if j < d.len() {
                assert(r[j] == d[j]);
            }
        }
        if other != id {
            lemma_binding_index_bounds(d, other);
            lemma_binding_index_bounds(rest, other);
            lemma_binding_index_bounds(s, other);
            lemma_binding_index_bounds(r, other);
            let o = binding_index(rest, other);
            let q = binding_index(d, other);
            assert forall|j: int| 0 <= j < o implies (#[trigger] s[j]).0 != other by {
                assert(s[j] == rest[j]);
            }
            assert forall|j: int| 0 <= j < q implies (#[trigger] r[j]).0 != other by {
                assert(r[j] == d[j]);
            }
            if o < rest.len() {
                assert(s[o] == rest[o]);
                lemma_binding_index(s, other, o);
                assert(r[q] == d[q]);
                lemma_binding_index(r, other, q);
            } else if s.last().0 == other {
                lemma_binding_index(s, other, rest.len() as int);
                lemma_binding_index(r, other, d.len() as int);
            } else {
                lemma_binding_index(s, other, s.len() as int);
                lemma_binding_index(r, other, r.len() as int);
            }
        }
    } else {
        assert(s.filter(p) =~= s);
    }
}

/// When a backend slot goes, an output on another slot keeps its
/// identity and follows its slot.
pub proof fn law_other_outputs_keep_their_slot(
    s: Seq<(OutputId, usize)>,
    slot: usize,
    id: OutputId,
)
    requires
        slot_of(s, id) matches Some(k) && k != slot,
        forall|i: int, j: int| 0 <= i < j < s.len() ==> (#[trigger] s[i]).0 != (#[trigger] s[j]).0,
    ensures
        slot_of(compacted(s, slot), id) == Some(
            if slot_of(s, id).unwrap() > slot {
                (slot_of(s, id).unwrap() - 1) as usize
            } else {
                slot_of(s, id).unwrap()
            },
        ),
        !driven_by(s, slot).contains(id),
{
    lemma_compacted(s, slot, id);
}

proof fn lemma_compacted(s: Seq<(OutputId, usize)>, slot: usize, id: OutputId)
    requires
        forall|i: int, j: int| 0 <= i < j < s.len() ==> (#[trigger] s[i]).0 != (#[trigger] s[j]).0,
    ensures
        slot_of(s, id) is None ==> slot_of(compacted(s, slot), id) is None && !driven_by(
            s,
            slot,
        ).contains(id),
        slot_of(s, id) matches Some(k) ==> if k == slot {
            slot_of(compacted(s, slot), id) is None
        } else {
            !driven_by(s, slot).contains(id) && slot_of(compacted(s, slot), id) == Some(
                if k > slot {
                    (k - 1) as usize
                } else {
                    k
                },
            )
        },
    decreases s.len(),
{
    if s.len() > 0 {
        let rest = s.drop_last();
        let l = s.last();
        assert forall|i: int, j: int| 0 <= i < j < rest.len() implies (#[trigger] rest[i]).0
            != (#[trigger] rest[j]).0 by {
            assert(rest[i] == s[i] && rest[j] == s[j]);
        }
        lemma_compacted(rest, slot, id);
        let c = compacted(rest, slot);
        let r = compacted(s, slot);
        lemma_binding_index_bounds(s, id);
        lemma_binding_index_bounds(rest, id);
        lemma_binding_index_bounds(c, id);
        lemma_binding_index_bounds(r, id);
        let o = binding_index(rest, id);
        let q = binding_index(c, id);
        assert forall|j: int| 0 <= j < o implies (#[trigger] s[j]).0 != id by {
            assert(s[j] == rest[j]);
        }
        assert forall|j: int| 0 <= j < q implies (#[trigger] r[j]).0 != id by {
            assert(r[j] == c[j]);
        }
        let d = driven_by(rest, slot);
        let e = driven_by(s, slot);
        assert(e.contains(id) ==> d.contains(id) || l.0 == id && l.1 == slot) by {
            if e.contains(id) {
                let k = choose|k: int| 0 <= k < e.len() && e[k] == id;
                if k < d.len() {
                    assert(d[k] == id);
                }
            }
        }
        if o < rest.len() {
            assert(s[o] == rest[o]);
            lemma_binding_index(s, id, o);
            assert(s[o].0 != s[s.len() - 1].0);
            if q < c.len() {
                assert(r[q] == c[q]);
                lemma_binding_index(r, id, q);
            } else {
                lemma_binding_index(r, id, r.len() as int);
            }
        } else if l.0 == id {
            lemma_binding_index(s, id, rest.len() as int);
            assert(q == c.len());
            if l.1 != slot {
                lemma_binding_index(r, id, c.len() as int);
            }
        } else {
            lemma_binding_index(s, id, s.len() as int);
            lemma_binding_index(r, id, r.len() as int);
        }
    } else {
        assert(compacted(s, slot) =~= Seq::empty());
    }
}

/// A point lies on the first output whose rectangle has it, and on none
/// where no rectangle has it.
pub proof fn law_point_lies_on_its_output(s: Seq<OutputEntry>, x: int, y: int, k: int)
    requires
        0 <= k <= s.len(),
        k < s.len() ==> {
            &&& 0 <= x - s[k].state.global_pos.0 < s[k].state.mode.0
            &&& 0 <= y - s[k].state.global_pos.1 < s[k].state.mode.1
        },
        forall|j: int|
            0 <= j < k ==> !(0 <= x - (#[trigger] s[j]).state.global_pos.0 < s[j].state.mode.0 && 0
                <= y - s[j].state.global_pos.1 < s[j].state.mode.1),
    ensures
        cover_index(s, x, y) == k,
{
    assert forall|j: int| 0 <= j < k implies !covers(#[trigger] s[j], x, y) by {}
    lemma_cover_index(s, x, y, k);
}

/// The desktop plane reaches over every output, and no further than some
/// output does.
pub proof fn law_desktop_reaches_over_every_output(s: Seq<OutputEntry>)
    ensures
        forall|i: int|
            0 <= i < s.len() ==> (#[trigger] s[i]).state.global_pos.0 + s[i].state.mode.0
                <= extents(s).0,
        forall|i: int|
            0 <= i < s.len() ==> (#[trigger] s[i]).state.global_pos.1 + s[i].state.mode.1
                <= extents(s).1,
        extents(s).0 == 0 || exists|i: int|
            0 <= i < s.len() && (#[trigger] s[i]).state.global_pos.0 + s[i].state.mode.0
                == extents(s).0,
        extents(s).1 == 0 || exists|i: int|
            0 <= i < s.len() && (#[trigger] s[i]).state.global_pos.1 + s[i].state.mode.1
                == extents(s).1,
    decreases s.len(),
{
    if s.len() > 0 {
        let rest = s.drop_last();
        law_desktop_reaches_over_every_output(rest);
        let n = s.len() - 1;
        assert(s.last() == s[n]);
        assert forall|i: int| 0 <= i < s.len() implies (#[trigger] s[i]).state.global_pos.0
            + s[i].state.mode.0 <= extents(s).0 && s[i].state.global_pos.1 + s[i].state.mode.1
            <= extents(s).1 by {
            if i < n {
                assert(rest[i] == s[i]);
            }
        }
        if extents(rest).0 != 0 {
            let i = choose|i: int|
                0 <= i < rest.len() && (#[trigger] rest[i]).state.global_pos.0
                    + rest[i].state.mode.0 == extents(rest).0;
            assert(s[i] == rest[i]);
        }
        if extents(rest).1 != 0 {
            let i = choose|i: int|
                0 <= i < rest.len() && (#[trigger] rest[i]).state.global_pos.1
                    + rest[i].state.mode.1 == extents(rest).1;
            assert(s[i] == rest[i]);
        }
    }
}

/// A frame shows each output its own rectangle of the desktop plane.
pub proof fn law_frame_plan_shows_its_output(e: OutputEntry)
    ensures
        plan_of(e).output == e.id,
        plan_of(e).viewport.x == e.state.global_pos.0,
        plan_of(e).viewport.y == e.state.global_pos.1,
        plan_of(e).viewport.width == e.state.mode.0,
        plan_of(e).viewport.height == e.state.mode.1,
{
}

/// Unplugging the first output makes the next one first; unplugging
/// another leaves the first as it is.
pub proof fn law_unplugging_promotes_the_next(m: OutputsModel, k: int)
    requires
        m.wf(),
        0 <= k < m.entries.len(),
    ensures
        ({
            let n = m.unplugged(m.entries[k].id);
            &&& n.entries == m.entries.remove(k)
            &&& m.primary != Some(m.entries[k].id) ==> n.primary == m.primary
            &&& m.primary == Some(m.entries[k].id) && m.entries.len() == 1 ==> n.primary is None
            &&& m.primary == Some(m.entries[k].id) && k == 0 && m.entries.len() > 1 ==> n.primary
                == Some(m.entries[1].id)
            &&& m.primary == Some(m.entries[k].id) && k > 0 ==> n.primary == Some(m.entries[0].id)
        }),
{
    lemma_output_index(m.entries, m.entries[k].id, k);
}

/// An output that is plugged in again stands to the right of all others,
/// at the top, and is otherwise as it was described.
pub proof fn law_replugged_output_stands_to_the_right(m: OutputsModel, state: OutputState, i: int)
    requires
        0 <= i < m.entries.len(),
        extents(m.entries).0 <= i32::MAX,
    ensures
        ({
            let last = m.replugged(state).entries.last();
            &&& m.replugged(state).entries.len() == m.entries.len() + 1
            &&& m.replugged(state).entries[i] == m.entries[i]
            &&& last.id.0 == m.next
            &&& last.state == (OutputState { global_pos: last.state.global_pos, ..state })
            &&& last.state.global_pos.1 == 0
            &&& m.entries[i].state.global_pos.0 + m.entries[i].state.mode.0
                <= last.state.global_pos.0
        }),
{
    law_desktop_reaches_over_every_output(m.entries);
    lemma_extents_positive(m.entries);
}

/// The first output is the one that changes with the framebuffer, and the
/// others stay as they are.
pub proof fn law_primary_state_is_replaced(m: OutputsModel, k: int, state: OutputState)
    requires
        m.wf(),
        0 <= k < m.entries.len(),
        m.primary == Some(m.entries[k].id),
    ensures
        m.primary_state() == Some(m.entries[k].state),
        m.with_primary(state).entries == m.entries.update(
            k,
            OutputEntry { id: m.entries[k].id, state },
        ),
        m.with_primary(state).primary == m.primary,
{
    lemma_output_index(m.entries, m.entries[k].id, k);
}

} // verus!
