//! The connector and CRTC structure of a display device, and the
//! deterministic assignment of connectors to CRTCs.
//!
//! - A connector can drive a CRTC only if their encoder candidates
//!   overlap.
//! - Connected connectors are considered in ascending id order, and each
//!   takes the lowest-numbered compatible free CRTC: the same hardware
//!   always gives the same assignment.
//! - A connected connector without a compatible free CRTC stays
//!   unassigned, with the reason.
//! - A connector presents at its preferred mode if it has one, else at
//!   the mode of the largest area, ties broken by refresh rate.
use vstd::prelude::*;

verus! {

/// Connection state of a connector.
#[derive(Debug, Clone, Copy, PartialEq, Eq, Structural)]
pub enum ConnectorState {
    Connected,
    Disconnected,
    Unknown,
}

/// One display mode (physical pixels, refresh in mHz).
#[derive(Debug, Clone, Copy, PartialEq, Eq, Structural)]
pub struct TopologyMode {
    pub width: u32,
    pub height: u32,
    pub refresh_mhz: i32,
    /// Whether the display declares this mode preferred.
    pub preferred: bool,
}

/// Pixel area of a mode.
pub open spec fn area_of(m: TopologyMode) -> int {
    m.width * m.height
}

/// Whether `b` is at least as good a choice as `a` by area, then refresh.
pub open spec fn no_worse(a: TopologyMode, b: TopologyMode) -> bool {
    area_of(a) < area_of(b) || (area_of(a) == area_of(b) && a.refresh_mhz <= b.refresh_mhz)
}

impl TopologyMode {
    /// Pixel area for fallback ordering.
    pub fn area(&self) -> (r: u64)
        ensures
            r == area_of(*self),
    {
        assert(self.width * self.height <= u32::MAX * u32::MAX) by (nonlinear_arith)
            requires
                self.width <= u32::MAX,
                self.height <= u32::MAX,
        ;
        assert(0 <= self.width * self.height) by (nonlinear_arith);
        self.width as u64 * self.height as u64
    }
}

/// One connector: its modes and the encoders it can be driven by.
#[derive(Debug, PartialEq, Eq)]
pub struct TopologyConnector {
    pub id: u32,
    pub state: ConnectorState,
    pub modes: Vec<TopologyMode>,
    pub encoder_candidates: Vec<u32>,
}

/// A connector, as a mathematical value.
#[verifier::ext_equal]
pub ghost struct ConnectorModel {
    pub id: u32,
    pub state: ConnectorState,
    pub modes: Seq<TopologyMode>,
    pub encoders: Seq<u32>,
}

impl View for TopologyConnector {
    type V = ConnectorModel;

    open spec fn view(&self) -> ConnectorModel {
        ConnectorModel {
            id: self.id,
            state: self.state,
            modes: self.modes@,
            encoders: self.encoder_candidates@,
        }
    }
}

/// Position of the first preferred mode, or the length.
pub open spec fn preferred_index(s: Seq<TopologyMode>) -> int
    decreases s.len(),
{
    if s.len() == 0 || s[0].preferred {
        0
    } else {
        1 + preferred_index(s.drop_first())
    }
}

/// Position of the best mode, the last one of several equally good.
pub open spec fn best_index(s: Seq<TopologyMode>) -> int
    decreases s.len(),
{
    if s.len() <= 1 {
        0
    } else {
        let b = best_index(s.drop_last());
        if no_worse(s[b], s.last()) {
            s.len() - 1
        } else {
            b
        }
    }
}

/// The mode a connector with these modes presents at.
pub open spec fn chosen_mode(s: Seq<TopologyMode>) -> Option<TopologyMode> {
    if s.len() == 0 {
        None
    } else if preferred_index(s) < s.len() {
        Some(s[preferred_index(s)])
    } else {
        Some(s[best_index(s)])
    }
}

proof fn lemma_preferred_index(s: Seq<TopologyMode>, i: int)
    requires
        0 <= i <= s.len(),
        forall|j: int| 0 <= j < i ==> !(#[trigger] s[j]).preferred,
        i < s.len() ==> s[i].preferred,
    ensures
        preferred_index(s) == i,
    decreases s.len(),
{
    if i > 0 {
        assert(!s[0].preferred);
        let rest = s.drop_first();
        assert forall|j: int| 0 <= j < i - 1 implies !(#[trigger] rest[j]).preferred by {
            assert(rest[j] == s[j + 1]);
        }
        lemma_preferred_index(rest, i - 1);
    }
}

proof fn lemma_preferred_index_bounds(s: Seq<TopologyMode>)
    ensures
        0 <= preferred_index(s) <= s.len(),
        preferred_index(s) < s.len() ==> s[preferred_index(s)].preferred,
        forall|j: int| 0 <= j < preferred_index(s) ==> !(#[trigger] s[j]).preferred,
    decreases s.len(),
{
    if s.len() > 0 && !s[0].preferred {
        lemma_preferred_index_bounds(s.drop_first());
        assert forall|j: int| 0 <= j < preferred_index(s) implies !(#[trigger] s[j]).preferred by {
            if j > 0 {
                assert(s[j] == s.drop_first()[j - 1]);
            }
        }
    }
}

proof fn lemma_best_index(s: Seq<TopologyMode>)
    requires
        s.len() > 0,
    ensures
        0 <= best_index(s) < s.len(),
        forall|j: int| 0 <= j < s.len() ==> no_worse(#[trigger] s[j], s[best_index(s)]),
        forall|j: int| best_index(s) < j < s.len() ==> !no_worse(s[best_index(s)], #[trigger] s[j]),
    decreases s.len(),
{
    if s.len() > 1 {
        let rest = s.drop_last();
        lemma_best_index(rest);
        let b = best_index(rest);
        let r = best_index(s);
        assert(s[b] == rest[b]);
        assert forall|j: int| 0 <= j < s.len() implies no_worse(#[trigger] s[j], s[r]) by {
            if j < rest.len() {
                assert(s[j] == rest[j]);
            }
        }
        assert forall|j: int| r < j < s.len() implies !no_worse(s[r], #[trigger] s[j]) by {
            if j < rest.len() {
                assert(s[j] == rest[j]);
            }
        }
    }
}

/// A connector with modes presents at one of them: the first preferred
/// one, or, where none is preferred, one that no other mode beats.
pub proof fn law_mode_choice(s: Seq<TopologyMode>)
    requires
        s.len() > 0,
    ensures
        chosen_mode(s) is Some,
        s.contains(chosen_mode(s)->0),
        (exists|i: int| 0 <= i < s.len() && (#[trigger] s[i]).preferred) ==> chosen_mode(
            s,
        )->0.preferred,
        (forall|i: int| 0 <= i < s.len() ==> !(#[trigger] s[i]).preferred) ==> forall|j: int|
            0 <= j < s.len() ==> no_worse(#[trigger] s[j], chosen_mode(s)->0),
{
    lemma_preferred_index_bounds(s);
    lemma_best_index(s);
}

impl TopologyConnector {
    /// The mode this connector should present at.
    pub fn preferred_mode(&self) -> (r: Option<TopologyMode>)
        ensures
            r == chosen_mode(self@.modes),
    {
        let n: usize = self.modes.len();
        let mut i: usize = 0;
        while i < n
            invariant
                i <= n,
                n == self.modes@.len(),
                forall|j: int| 0 <= j < i ==> !(#[trigger] self.modes@[j]).preferred,
            decreases n - i,
        {
            if self.modes[i].preferred {
                proof {
                    lemma_preferred_index(self@.modes, i as int);
                }
                return Some(self.modes[i]);
            }
            i = i + 1;
        }
        proof {
            lemma_preferred_index(self@.modes, n as int);
        }
        if n == 0 {
            return None;
        }
        let mut best: usize = 0;
        let mut k: usize = 1;
        while k < n
            invariant
                1 <= k <= n,
                n == self.modes@.len(),
                best < k,
                best == best_index(self.modes@.take(k as int)),
            decreases n - k,
        {
            let m = self.modes[k];
            let b = self.modes[best];
            proof {
                let t = self.modes@.take(k + 1);
                assert(t.drop_last() =~= self.modes@.take(k as int));
                assert(t.last() == m && t[best as int] == b);
            }
            let b_area: u64 = b.area();
            let m_area: u64 = m.area();
            if b_area < m_area || (b_area == m_area && b.refresh_mhz <= m.refresh_mhz) {
                best = k;
            }
            k = k + 1;
        }
        assert(self.modes@.take(k as int) =~= self.modes@);
        Some(self.modes[best])
    }
}

/// One CRTC with the encoders that can drive it.
#[derive(Debug, PartialEq, Eq)]
pub struct TopologyCrtc {
    pub id: u32,
    pub encoder_candidates: Vec<u32>,
}

/// A CRTC, as a mathematical value.
#[verifier::ext_equal]
pub ghost struct CrtcModel {
    pub id: u32,
    pub encoders: Seq<u32>,
}

impl View for TopologyCrtc {
    type V = CrtcModel;

    open spec fn view(&self) -> CrtcModel {
        CrtcModel { id: self.id, encoders: self.encoder_candidates@ }
    }
}

/// One connector driven by a CRTC.
#[derive(Debug, Clone, Copy, PartialEq, Eq, Structural)]
pub struct AssignedOutput {
    pub connector_id: u32,
    pub crtc_id: u32,
    pub mode: TopologyMode,
}

/// Why a connector is not assigned.
#[derive(Debug, Clone, Copy, PartialEq, Eq, Structural)]
pub enum UnassignedReason {
    Disconnected,
    NoCompatibleEncoder,
    NoFreeCrtc,
}

#[derive(Debug, Clone, Copy, PartialEq, Eq, Structural)]
pub struct UnassignedConnector {
    pub connector_id: u32,
    pub reason: UnassignedReason,
}

/// A complete assignment of one device.
#[derive(Debug, PartialEq, Eq)]
pub struct TopologyAssignment {
    pub outputs: Vec<AssignedOutput>,
    pub unassigned: Vec<UnassignedConnector>,
}

/// An assignment, as a mathematical value.
#[verifier::ext_equal]
pub ghost struct AssignmentModel {
    pub outputs: Seq<AssignedOutput>,
    pub unassigned: Seq<UnassignedConnector>,
}

impl View for TopologyAssignment {
    type V = AssignmentModel;

    open spec fn view(&self) -> AssignmentModel {
        AssignmentModel { outputs: self.outputs@, unassigned: self.unassigned@ }
    }
}

/// The connectors and CRTCs of a device, as discovered.
#[derive(Debug, PartialEq, Eq)]
pub struct DrmTopology {
    pub connectors: Vec<TopologyConnector>,
    pub crtcs: Vec<TopologyCrtc>,
}

/// A topology, as a mathematical value.
#[verifier::ext_equal]
pub ghost struct TopologyModel {
    pub connectors: Seq<ConnectorModel>,
    pub crtcs: Seq<CrtcModel>,
}

impl View for DrmTopology {
    type V = TopologyModel;

    open spec fn view(&self) -> TopologyModel {
        TopologyModel {
            connectors: self.connectors@.map_values(|c: TopologyConnector| c@),
            crtcs: self.crtcs@.map_values(|c: TopologyCrtc| c@),
        }
    }
}

/// Where a connector goes in a list: past the entries of lower or equal
/// id that precede it.
pub open spec fn connector_slot(s: Seq<ConnectorModel>, id: u32) -> int
    decreases s.len(),
{
    if s.len() == 0 || s.last().id <= id {
        s.len() as int
    } else {
        connector_slot(s.drop_last(), id)
    }
}

/// The list in ascending id order, equal ids in their order.
pub open spec fn connectors_sorted(s: Seq<ConnectorModel>) -> Seq<ConnectorModel>
    decreases s.len(),
{
    if s.len() == 0 {
        s
    } else {
        let rest = connectors_sorted(s.drop_last());
        rest.insert(connector_slot(rest, s.last().id), s.last())
    }
}

/// Where a CRTC goes in a list: past the entries of lower or equal id
/// that precede it.
pub open spec fn crtc_slot(s: Seq<CrtcModel>, id: u32) -> int
    decreases s.len(),
{
    if s.len() == 0 || s.last().id <= id {
        s.len() as int
    } else {
        crtc_slot(s.drop_last(), id)
    }
}

/// The list in ascending id order, equal ids in their order.
pub open spec fn crtcs_sorted(s: Seq<CrtcModel>) -> Seq<CrtcModel>
    decreases s.len(),
{
    if s.len() == 0 {
        s
    } else {
        let rest = crtcs_sorted(s.drop_last());
        rest.insert(crtc_slot(rest, s.last().id), s.last())
    }
}

/// Ids never decrease along the list.
pub open spec fn connectors_ascend(s: Seq<ConnectorModel>) -> bool {
    forall|i: int, j: int| 0 <= i <= j < s.len() ==> (#[trigger] s[i]).id <= (#[trigger] s[j]).id
}

/// Ids never decrease along the list.
pub open spec fn crtcs_ascend(s: Seq<CrtcModel>) -> bool {
    forall|i: int, j: int| 0 <= i <= j < s.len() ==> (#[trigger] s[i]).id <= (#[trigger] s[j]).id
}

proof fn lemma_connector_slot(s: Seq<ConnectorModel>, id: u32, i: int)
    requires
        0 <= i <= s.len(),
        i > 0 ==> s[i - 1].id <= id,
        forall|j: int| i <= j < s.len() ==> (#[trigger] s[j]).id > id,
    ensures
        connector_slot(s, id) == i,
    decreases s.len(),
{
    if s.len() > i {
        assert(s[s.len() - 1].id > id);
        lemma_connector_slot(s.drop_last(), id, i);
    }
}

proof fn lemma_crtc_slot(s: Seq<CrtcModel>, id: u32, i: int)
    requires
        0 <= i <= s.len(),
        i > 0 ==> s[i - 1].id <= id,
        forall|j: int| i <= j < s.len() ==> (#[trigger] s[j]).id > id,
    ensures
        crtc_slot(s, id) == i,
    decreases s.len(),
{
    if s.len() > i {
        assert(s[s.len() - 1].id > id);
        lemma_crtc_slot(s.drop_last(), id, i);
    }
}

proof fn lemma_connector_slot_bounds(s: Seq<ConnectorModel>, id: u32)
    ensures
        0 <= connector_slot(s, id) <= s.len(),
        connector_slot(s, id) > 0 ==> s[connector_slot(s, id) - 1].id <= id,
        forall|j: int| connector_slot(s, id) <= j < s.len() ==> (#[trigger] s[j]).id > id,
    decreases s.len(),
{
    if s.len() > 0 && s.last().id > id {
        lemma_connector_slot_bounds(s.drop_last(), id);
        assert forall|j: int| connector_slot(s, id) <= j < s.len() implies (#[trigger] s[j]).id
            > id by {
            if j < s.len() - 1 {
                assert(s[j] == s.drop_last()[j]);
            }
        }
    }
}

proof fn lemma_crtc_slot_bounds(s: Seq<CrtcModel>, id: u32)
    ensures
        0 <= crtc_slot(s, id) <= s.len(),
        crtc_slot(s, id) > 0 ==> s[crtc_slot(s, id) - 1].id <= id,
        forall|j: int| crtc_slot(s, id) <= j < s.len() ==> (#[trigger] s[j]).id > id,
    decreases s.len(),
{
    if s.len() > 0 && s.last().id > id {
        lemma_crtc_slot_bounds(s.drop_last(), id);
        assert forall|j: int| crtc_slot(s, id) <= j < s.len() implies (#[trigger] s[j]).id
            > id by {
            if j < s.len() - 1 {
                assert(s[j] == s.drop_last()[j]);
            }
        }
    }
}

/// However connectors are discovered, they end up in ascending id order,
/// none lost.
pub proof fn law_connectors_sorted_ascend(s: Seq<ConnectorModel>)
    ensures
        connectors_ascend(connectors_sorted(s)),
        connectors_sorted(s).len() == s.len(),
        connectors_sorted(s).to_multiset() == s.to_multiset(),
    decreases s.len(),
{
    broadcast use vstd::seq_lib::group_to_multiset_ensures;

    if s.len() > 0 {
        let rest = connectors_sorted(s.drop_last());
        law_connectors_sorted_ascend(s.drop_last());
        let at = connector_slot(rest, s.last().id);
        lemma_connector_slot_bounds(rest, s.last().id);
        let r = rest.insert(at, s.last());
        assert forall|i: int, j: int| 0 <= i <= j < r.len() implies (#[trigger] r[i]).id <= (
        #[trigger] r[j]).id by {
            if i < at && j == at {
                assert(rest[i].id <= rest[at - 1].id);
            } else if i == at && j > at {
                assert(r[j] == rest[j - 1]);
            } else if i < at && j > at {
                assert(r[i] == rest[i] && r[j] == rest[j - 1]);
            } else if i > at {
                assert(r[i] == rest[i - 1] && r[j] == rest[j - 1]);
            }
        }
        assert(s =~= s.drop_last().push(s.last()));
    }
}

/// However CRTCs are discovered, they end up in ascending id order, none
/// lost.
pub proof fn law_crtcs_sorted_ascend(s: Seq<CrtcModel>)
    ensures
        crtcs_ascend(crtcs_sorted(s)),
        crtcs_sorted(s).len() == s.len(),
        crtcs_sorted(s).to_multiset() == s.to_multiset(),
    decreases s.len(),
{
    broadcast use vstd::seq_lib::group_to_multiset_ensures;

    if s.len() > 0 {
        let rest = crtcs_sorted(s.drop_last());
        law_crtcs_sorted_ascend(s.drop_last());
        let at = crtc_slot(rest, s.last().id);
        lemma_crtc_slot_bounds(rest, s.last().id);
        let r = rest.insert(at, s.last());
        assert forall|i: int, j: int| 0 <= i <= j < r.len() implies (#[trigger] r[i]).id <= (
        #[trigger] r[j]).id by {
            if i < at && j == at {
                assert(rest[i].id <= rest[at - 1].id);
            } else if i == at && j > at {
                assert(r[j] == rest[j - 1]);
            } else if i < at && j > at {
                assert(r[i] == rest[i] && r[j] == rest[j - 1]);
            } else if i > at {
                assert(r[i] == rest[i - 1] && r[j] == rest[j - 1]);
            }
        }
        assert(s =~= s.drop_last().push(s.last()));
    }
}

/// Whether an encoder bridges the connector and the CRTC.
pub open spec fn compatible(conn: ConnectorModel, crtc: CrtcModel) -> bool {
    exists|i: int| 0 <= i < crtc.encoders.len() && conn.encoders.contains(#[trigger] crtc.encoders[i])
}

/// Whether a CRTC is claimed.
pub open spec fn claimed(outputs: Seq<AssignedOutput>, crtc_id: u32) -> bool {
    exists|i: int| 0 <= i < outputs.len() && (#[trigger] outputs[i]).crtc_id == crtc_id
}

/// Position of the first compatible free CRTC, or the length.
pub open spec fn free_index(
    crtcs: Seq<CrtcModel>,
    conn: ConnectorModel,
    outputs: Seq<AssignedOutput>,
) -> int
    decreases crtcs.len(),
{
    if crtcs.len() == 0 || (compatible(conn, crtcs[0]) && !claimed(outputs, crtcs[0].id)) {
        0
    } else {
        1 + free_index(crtcs.drop_first(), conn, outputs)
    }
}

/// Whether some CRTC is compatible with the connector, free or not.
pub open spec fn drivable(crtcs: Seq<CrtcModel>, conn: ConnectorModel) -> bool {
    exists|i: int| 0 <= i < crtcs.len() && compatible(conn, #[trigger] crtcs[i])
}

/// The assignment with one more connector considered.
pub open spec fn considered(
    crtcs: Seq<CrtcModel>,
    a: AssignmentModel,
    conn: ConnectorModel,
) -> AssignmentModel {
    let at = free_index(crtcs, conn, a.outputs);
    if conn.state == ConnectorState::Connected && chosen_mode(conn.modes) is Some && at
        < crtcs.len() {
        AssignmentModel {
            outputs: a.outputs.push(
                AssignedOutput {
                    connector_id: conn.id,
                    crtc_id: crtcs[at].id,
                    mode: chosen_mode(conn.modes)->0,
                },
            ),
            ..a
        }
    } else {
        AssignmentModel {
            unassigned: a.unassigned.push(
                UnassignedConnector {
                    connector_id: conn.id,
                    reason: if conn.state != ConnectorState::Connected {
                        UnassignedReason::Disconnected
                    } else if chosen_mode(conn.modes) is None {
                        UnassignedReason::NoCompatibleEncoder
                    } else if drivable(crtcs, conn) {
                        UnassignedReason::NoFreeCrtc
                    } else {
                        UnassignedReason::NoCompatibleEncoder
                    },
                },
            ),
            ..a
        }
    }
}

/// The assignment after the first `n` connectors.
pub open spec fn assigned_upto(m: TopologyModel, n: int) -> AssignmentModel
    decreases n,
{
    if n <= 0 {
        AssignmentModel { outputs: Seq::empty(), unassigned: Seq::empty() }
    } else {
        considered(m.crtcs, assigned_upto(m, n - 1), m.connectors[n - 1])
    }
}

/// The assignment of a topology.
pub open spec fn assigned(m: TopologyModel) -> AssignmentModel {
    assigned_upto(m, m.connectors.len() as int)
}

proof fn lemma_free_index(
    crtcs: Seq<CrtcModel>,
    conn: ConnectorModel,
    outputs: Seq<AssignedOutput>,
    i: int,
)
    requires
        0 <= i <= crtcs.len(),
        forall|j: int|
            0 <= j < i ==> !compatible(conn, #[trigger] crtcs[j]) || claimed(outputs, crtcs[j].id),
        i < crtcs.len() ==> compatible(conn, crtcs[i]) && !claimed(outputs, crtcs[i].id),
    ensures
        free_index(crtcs, conn, outputs) == i,
    decreases crtcs.len(),
{
    if i > 0 {
        assert(!compatible(conn, crtcs[0]) || claimed(outputs, crtcs[0].id));
        let rest = crtcs.drop_first();
        assert forall|j: int| 0 <= j < i - 1 implies !compatible(conn, #[trigger] rest[j])
            || claimed(outputs, rest[j].id) by {
            assert(rest[j] == crtcs[j + 1]);
        }
        lemma_free_index(rest, conn, outputs, i - 1);
    }
}

proof fn lemma_free_index_bounds(
    crtcs: Seq<CrtcModel>,
    conn: ConnectorModel,
    outputs: Seq<AssignedOutput>,
)
    ensures
        0 <= free_index(crtcs, conn, outputs) <= crtcs.len(),
        free_index(crtcs, conn, outputs) < crtcs.len() ==> compatible(
            conn,
            crtcs[free_index(crtcs, conn, outputs)],
        ) && !claimed(outputs, crtcs[free_index(crtcs, conn, outputs)].id),
        forall|j: int|
            0 <= j < free_index(crtcs, conn, outputs) ==> !compatible(conn, #[trigger] crtcs[j])
                || claimed(outputs, crtcs[j].id),
    decreases crtcs.len(),
{
    if crtcs.len() > 0 && !(compatible(conn, crtcs[0]) && !claimed(outputs, crtcs[0].id)) {
        let rest = crtcs.drop_first();
        lemma_free_index_bounds(rest, conn, outputs);
        assert forall|j: int| 0 <= j < free_index(crtcs, conn, outputs) implies !compatible(
            conn,
            #[trigger] crtcs[j],
        ) || claimed(outputs, crtcs[j].id) by {
            if j > 0 {
                assert(crtcs[j] == rest[j - 1]);
            }
        }
    }
}

/// Whether `x` is in the list.
fn contains_u32(v: &Vec<u32>, x: u32) -> (r: bool)
    ensures
        r == v@.contains(x),
{
    let mut i: usize = 0;
    while i < v.len()
        invariant
            i <= v@.len(),
            forall|j: int| 0 <= j < i ==> v@[j] != x,
        decreases v@.len() - i,
    {
        if v[i] == x {
            assert(v@[i as int] == x);
            return true;
        }
        i = i + 1;
    }
    false
}

/// Whether an encoder bridges the connector and the CRTC.
fn overlap(conn: &TopologyConnector, crtc: &TopologyCrtc) -> (r: bool)
    ensures
        r == compatible(conn@, crtc@),
{
    let mut i: usize = 0;
    while i < crtc.encoder_candidates.len()
        invariant
            i <= crtc.encoder_candidates@.len(),
            forall|j: int|
                0 <= j < i ==> !conn@.encoders.contains(#[trigger] crtc@.encoders[j]),
        decreases crtc.encoder_candidates@.len() - i,
    {
        if contains_u32(&conn.encoder_candidates, crtc.encoder_candidates[i]) {
            assert(conn@.encoders.contains(crtc@.encoders[i as int]));
            return true;
        }
        i = i + 1;
    }
    false
}

impl Default for TopologyAssignment {
    fn default() -> (r: Self)
        ensures
            r@.outputs.len() == 0,
            r@.unassigned.len() == 0,
    {
        TopologyAssignment { outputs: Vec::new(), unassigned: Vec::new() }
    }
}

impl TopologyAssignment {
    /// Whether a CRTC is claimed.
    fn is_claimed(&self, crtc_id: u32) -> (r: bool)
        ensures
            r == claimed(self@.outputs, crtc_id),
    {
        let mut i: usize = 0;
        while i < self.outputs.len()
            invariant
                i <= self.outputs@.len(),
                forall|j: int| 0 <= j < i ==> (#[trigger] self.outputs@[j]).crtc_id != crtc_id,
            decreases self.outputs@.len() - i,
        {
            if self.outputs[i].crtc_id == crtc_id {
                assert(self@.outputs[i as int].crtc_id == crtc_id);
                return true;
            }
            i = i + 1;
        }
        false
    }
}

impl Default for DrmTopology {
    fn default() -> (r: Self)
        ensures
            r@.connectors.len() == 0,
            r@.crtcs.len() == 0,
    {
        DrmTopology { connectors: Vec::new(), crtcs: Vec::new() }
    }
}

impl DrmTopology {
    pub fn new() -> (r: Self)
        ensures
            r@.connectors.len() == 0,
            r@.crtcs.len() == 0,
    {
        DrmTopology { connectors: Vec::new(), crtcs: Vec::new() }
    }

    /// Adds a connector; the list is in ascending id order afterwards.
    pub fn add_connector(&mut self, c: TopologyConnector)
        ensures
            final(self)@ == (TopologyModel {
                connectors: connectors_sorted(old(self)@.connectors.push(c@)),
                ..old(self)@
            }),
    {
        let ghost all = old(self)@.connectors.push(c@);
        self.connectors.push(c);
        assert(self@.connectors =~= all);
        // Reversed, so that each connector can be moved out of the end.
        let n: usize = self.connectors.len();
        let mut rest: Vec<TopologyConnector> = Vec::new();
        while self.connectors.len() > 0
            invariant
                self.connectors@.len() + rest@.len() == n,
                n == all.len(),
                self.crtcs == old(self).crtcs,
                forall|j: int|
                    0 <= j < self.connectors@.len() ==> (#[trigger] self.connectors@[j])@ == all[j],
                forall|j: int| 0 <= j < rest@.len() ==> (#[trigger] rest@[j])@ == all[n - 1 - j],
            decreases self.connectors@.len(),
        {
            if let Some(x) = self.connectors.pop() {
                rest.push(x);
            }
        }
        let mut k: usize = 0;
        while rest.len() > 0
            invariant
                k + rest@.len() == n,
                n == all.len(),
                self.crtcs == old(self).crtcs,
                self.connectors@.len() == k,
                self@.connectors == connectors_sorted(all.take(k as int)),
                forall|j: int| 0 <= j < rest@.len() ==> (#[trigger] rest@[j])@ == all[n - 1 - j],
            decreases rest@.len(),
        {
            if let Some(x) = rest.pop() {
                let ghost before = self@.connectors;
                let mut at: usize = self.connectors.len();
                while at > 0 && self.connectors[at - 1].id > x.id
                    invariant
                        at <= self.connectors@.len(),
                        before == self@.connectors,
                        forall|j: int| at <= j < before.len() ==> (#[trigger] before[j]).id > x.id,
                    decreases at,
                {
                    assert(before[at - 1].id > x.id);
                    at = at - 1;
                }
                proof {
                    assert(x@ == all[k as int]);
                    assert(all.take(k + 1).drop_last() =~= all.take(k as int));
                    assert(all.take(k + 1).last() == x@);
                    if at > 0 {
                        assert(before[at - 1].id == self.connectors@[at - 1].id);
                    }
                    lemma_connector_slot(before, x.id, at as int);
                }
                self.connectors.insert(at, x);
                assert(self@.connectors =~= before.insert(at as int, x@));
                k = k + 1;
            }
        }
        assert(all.take(k as int) =~= all);
    }

    /// Adds a CRTC; the list is in ascending id order afterwards.
    pub fn add_crtc(&mut self, c: TopologyCrtc)
        ensures
            final(self)@ == (TopologyModel {
                crtcs: crtcs_sorted(old(self)@.crtcs.push(c@)),
                ..old(self)@
            }),
    {
        let ghost all = old(self)@.crtcs.push(c@);
        self.crtcs.push(c);
        assert(self@.crtcs =~= all);
        // Reversed, so that each CRTC can be moved out of the end.
        let n: usize = self.crtcs.len();
        let mut rest: Vec<TopologyCrtc> = Vec::new();
        while self.crtcs.len() > 0
            invariant
                self.crtcs@.len() + rest@.len() == n,
                n == all.len(),
                self.connectors == old(self).connectors,
                forall|j: int|
                    0 <= j < self.crtcs@.len() ==> (#[trigger] self.crtcs@[j])@ == all[j],
                forall|j: int| 0 <= j < rest@.len() ==> (#[trigger] rest@[j])@ == all[n - 1 - j],
            decreases self.crtcs@.len(),
        {
            if let Some(x) = self.crtcs.pop() {
                rest.push(x);
            }
        }
        let mut k: usize = 0;
        while rest.len() > 0
            invariant
                k + rest@.len() == n,
                n == all.len(),
                self.connectors == old(self).connectors,
                self.crtcs@.len() == k,
                self@.crtcs == crtcs_sorted(all.take(k as int)),
                forall|j: int| 0 <= j < rest@.len() ==> (#[trigger] rest@[j])@ == all[n - 1 - j],
            decreases rest@.len(),
        {
            if let Some(x) = rest.pop() {
                let ghost before = self@.crtcs;
                let mut at: usize = self.crtcs.len();
                while at > 0 && self.crtcs[at - 1].id > x.id
                    invariant
                        at <= self.crtcs@.len(),
                        before == self@.crtcs,
                        forall|j: int| at <= j < before.len() ==> (#[trigger] before[j]).id > x.id,
                    decreases at,
                {
                    assert(before[at - 1].id > x.id);
                    at = at - 1;
                }
                proof {
                    assert(x@ == all[k as int]);
                    assert(all.take(k + 1).drop_last() =~= all.take(k as int));
                    assert(all.take(k + 1).last() == x@);
                    if at > 0 {
                        assert(before[at - 1].id == self.crtcs@[at - 1].id);
                    }
                    lemma_crtc_slot(before, x.id, at as int);
                }
                self.crtcs.insert(at, x);
                assert(self@.crtcs =~= before.insert(at as int, x@));
                k = k + 1;
            }
        }
        assert(all.take(k as int) =~= all);
    }

    /// Index of the first compatible free CRTC.
    fn free_crtc(&self, conn: &TopologyConnector, a: &TopologyAssignment) -> (r: Option<usize>)
        ensures
            match r {
                Some(i) => i < self@.crtcs.len() && i == free_index(
                    self@.crtcs,
                    conn@,
                    a@.outputs,
                ),
                None => free_index(self@.crtcs, conn@, a@.outputs) == self@.crtcs.len(),
            },
    {
        let mut i: usize = 0;
        while i < self.crtcs.len()
            invariant
                i <= self.crtcs@.len(),
                forall|j: int|
                    0 <= j < i ==> !compatible(conn@, #[trigger] self@.crtcs[j]) || claimed(
                        a@.outputs,
                        self@.crtcs[j].id,
                    ),
            decreases self.crtcs@.len() - i,
        {
            if !a.is_claimed(self.crtcs[i].id) && overlap(conn, &self.crtcs[i]) {
                proof {
                    lemma_free_index(self@.crtcs, conn@, a@.outputs, i as int);
                }
                return Some(i);
            }
            i = i + 1;
        }
        proof {
            lemma_free_index(self@.crtcs, conn@, a@.outputs, i as int);
        }
        None
    }

    /// Whether some CRTC is compatible with the connector, free or not.
    fn any_compatible(&self, conn: &TopologyConnector) -> (r: bool)
        ensures
            r == drivable(self@.crtcs, conn@),
    {
        let mut i: usize = 0;
        while i < self.crtcs.len()
            invariant
                i <= self.crtcs@.len(),
                forall|j: int| 0 <= j < i ==> !compatible(conn@, #[trigger] self@.crtcs[j]),
            decreases self.crtcs@.len() - i,
        {
            if overlap(conn, &self.crtcs[i]) {
                assert(compatible(conn@, self@.crtcs[i as int]));
                return true;
            }
            i = i + 1;
        }
        false
    }

    /// Deterministically assign connected connectors to compatible free
    /// CRTCs.
    pub fn assign(&self) -> (r: TopologyAssignment)
        ensures
            r@ == assigned(self@),
    {
        let mut a = TopologyAssignment::default();
        let n: usize = self.connectors.len();
        let mut i: usize = 0;
        assert(a@ =~= assigned_upto(self@, 0));
        while i < n
            invariant
                i <= n,
                n == self.connectors@.len(),
                a@ == assigned_upto(self@, i as int),
            decreases n - i,
        {
            let conn = &self.connectors[i];
            assert(conn@ == self@.connectors[i as int]);
            let ghost before = a@;
            if conn.state != ConnectorState::Connected {
                a.unassigned.push(
                    UnassignedConnector {
                        connector_id: conn.id,
                        reason: UnassignedReason::Disconnected,
                    },
                );
            } else {
                match conn.preferred_mode() {
                    None => {
                        a.unassigned.push(
                            UnassignedConnector {
                                connector_id: conn.id,
                                reason: UnassignedReason::NoCompatibleEncoder,
                            },
                        );
                    },
                    Some(mode) => match self.free_crtc(conn, &a) {
                        Some(k) => {
                            a.outputs.push(
                                AssignedOutput {
                                    connector_id: conn.id,
                                    crtc_id: self.crtcs[k].id,
                                    mode,
                                },
                            );
                        },
                        None => {
                            let reason = if self.any_compatible(conn) {
                                UnassignedReason::NoFreeCrtc
                            } else {
                                UnassignedReason::NoCompatibleEncoder
                            };
                            a.unassigned.push(
                                UnassignedConnector { connector_id: conn.id, reason },
                            );
                        },
                    },
                }
            }
            assert(a@ =~= considered(self@.crtcs, before, conn@));
            i = i + 1;
        }
        a
    }

    /// The number of connected connectors (upper bound on outputs).
    pub fn connected_count(&self) -> (r: usize)
        ensures
            r == connected(self@.connectors),
    {
        let n: usize = self.connectors.len();
        let mut i: usize = 0;
        let mut count: usize = 0;
        while i < n
            invariant
                i <= n,
                n == self.connectors@.len(),
                count == connected(self@.connectors.take(i as int)),
                count <= i,
            decreases n - i,
        {
            proof {
                let t = self@.connectors.take(i + 1);
                assert(t.drop_last() =~= self@.connectors.take(i as int));
                assert(t.last() == self@.connectors[i as int]);
            }
            if self.connectors[i].state == ConnectorState::Connected {
                count = count + 1;
            }
            i = i + 1;
        }
        assert(self@.connectors.take(i as int) =~= self@.connectors);
        count
    }
}

/// How many of the connectors are connected.
pub open spec fn connected(s: Seq<ConnectorModel>) -> int
    decreases s.len(),
{
    if s.len() == 0 {
        0
    } else {
        connected(s.drop_last()) + if s.last().state == ConnectorState::Connected {
            1int
        } else {
            0
        }
    }
}

/// The width of the first `k` outputs side by side.
pub open spec fn row_width(outputs: Seq<AssignedOutput>, k: int) -> int
    decreases k,
{
    if k <= 0 {
        0
    } else {
        row_width(outputs, k - 1) + outputs[k - 1].mode.width
    }
}

proof fn lemma_row_width_grows(outputs: Seq<AssignedOutput>, j: int, k: int)
    requires
        0 <= j <= k,
    ensures
        row_width(outputs, j) <= row_width(outputs, k),
    decreases k - j,
{
    if j < k {
        lemma_row_width_grows(outputs, j, k - 1);
    }
}

/// Desktop positions of the outputs: one row, left to right.
pub fn global_positions(outputs: &[AssignedOutput]) -> (r: Vec<(u32, (i32, i32))>)
    requires
        row_width(outputs@, outputs@.len() as int) <= i32::MAX,
    ensures
        r@.len() == outputs@.len(),
        forall|k: int|
            0 <= k < r@.len() ==> (#[trigger] r@[k]).0 == outputs@[k].connector_id && r@[k].1.0
                == row_width(outputs@, k) && r@[k].1.1 == 0,
{
    let mut out: Vec<(u32, (i32, i32))> = Vec::new();
    let mut x: i32 = 0;
    let mut i: usize = 0;
    while i < outputs.len()
        invariant
            i <= outputs@.len(),
            row_width(outputs@, outputs@.len() as int) <= i32::MAX,
            x == row_width(outputs@, i as int),
            out@.len() == i,
            forall|k: int|
                0 <= k < i ==> (#[trigger] out@[k]).0 == outputs@[k].connector_id && out@[k].1.0
                    == row_width(outputs@, k) && out@[k].1.1 == 0,
        decreases outputs@.len() - i,
    {
        out.push((outputs[i].connector_id, (x, 0)));
        proof {
            lemma_row_width_grows(outputs@, 0, i as int);
            lemma_row_width_grows(outputs@, i + 1, outputs@.len() as int);
        }
        x = x + outputs[i].mode.width as i32;
        i = i + 1;
    }
    out
}

/// The row has no gap and no overlap: each output begins where the one
/// before it ends.
pub proof fn law_row_is_tiled(outputs: Seq<AssignedOutput>, k: int)
    requires
        0 <= k < outputs.len(),
    ensures
        row_width(outputs, 0) == 0,
        row_width(outputs, k + 1) == row_width(outputs, k) + outputs[k].mode.width,
{
}

proof fn lemma_assigned_upto(m: TopologyModel, n: int)
    requires
        0 <= n <= m.connectors.len(),
    ensures
        ({
            let a = assigned_upto(m, n);
            &&& a.outputs.len() + a.unassigned.len() == n
            &&& a.outputs.len() <= connected(m.connectors.take(n))
            &&& forall|i: int, j: int|
                0 <= i < j < a.outputs.len() ==> (#[trigger] a.outputs[i]).crtc_id != (
                #[trigger] a.outputs[j]).crtc_id
            &&& forall|i: int|
                0 <= i < a.outputs.len() ==> output_is_sound(m, #[trigger] a.outputs[i])
        }),
    decreases n,
{
    if n > 0 {
        lemma_assigned_upto(m, n - 1);
        let before = assigned_upto(m, n - 1);
        let conn = m.connectors[n - 1];
        lemma_free_index_bounds(m.crtcs, conn, before.outputs);
        assert(m.connectors.take(n).drop_last() =~= m.connectors.take(n - 1));
        assert(m.connectors.take(n).last() == conn);
        let a = assigned_upto(m, n);
        assert forall|i: int| 0 <= i < a.outputs.len() implies output_is_sound(
            m,
            #[trigger] a.outputs[i],
        ) by {
            if i < before.outputs.len() {
                assert(a.outputs[i] == before.outputs[i]);
            } else {
                let at = free_index(m.crtcs, conn, before.outputs);
                assert(backs(m, a.outputs[i], n - 1, at));
            }
        }
        assert forall|i: int, j: int| 0 <= i < j < a.outputs.len() implies (
        #[trigger] a.outputs[i]).crtc_id != (#[trigger] a.outputs[j]).crtc_id by {
            assert(a.outputs[i] == before.outputs[i]);
            if j < before.outputs.len() {
                assert(a.outputs[j] == before.outputs[j]);
            }
        }
    } else {
        assert(m.connectors.take(0).len() == 0);
    }
}

/// Connector `c` and CRTC `k` of the topology stand behind the output.
pub open spec fn backs(m: TopologyModel, o: AssignedOutput, c: int, k: int) -> bool {
    &&& 0 <= c < m.connectors.len()
    &&& 0 <= k < m.crtcs.len()
    &&& o.connector_id == m.connectors[c].id
    &&& o.crtc_id == m.crtcs[k].id
    &&& m.connectors[c].state == ConnectorState::Connected
    &&& compatible(m.connectors[c], m.crtcs[k])
    &&& chosen_mode(m.connectors[c].modes) == Some(o.mode)
}

/// A connected connector and a CRTC that an encoder bridges stand behind
/// the output, at the connector's own mode.
pub open spec fn output_is_sound(m: TopologyModel, o: AssignedOutput) -> bool {
    exists|c: int, k: int| backs(m, o, c, k)
}

/// No CRTC drives two outputs.
pub proof fn law_no_crtc_is_shared(m: TopologyModel, i: int, j: int)
    requires
        0 <= i < j < assigned(m).outputs.len(),
    ensures
        assigned(m).outputs[i].crtc_id != assigned(m).outputs[j].crtc_id,
{
    lemma_assigned_upto(m, m.connectors.len() as int);
}

/// Every output joins a connected connector to a CRTC of the device that
/// an encoder bridges, at the mode chosen for the connector.
pub proof fn law_outputs_are_sound(m: TopologyModel, i: int)
    requires
        0 <= i < assigned(m).outputs.len(),
    ensures
        output_is_sound(m, assigned(m).outputs[i]),
{
    lemma_assigned_upto(m, m.connectors.len() as int);
}

/// Each connector is accounted for once, assigned or not, and there are
/// never more outputs than connected connectors.
pub proof fn law_every_connector_is_accounted_for(m: TopologyModel)
    ensures
        assigned(m).outputs.len() + assigned(m).unassigned.len() == m.connectors.len(),
        assigned(m).outputs.len() <= connected(m.connectors),
{
    lemma_assigned_upto(m, m.connectors.len() as int);
    assert(m.connectors.take(m.connectors.len() as int) =~= m.connectors);
}

proof fn lemma_outputs_grow(m: TopologyModel, k: int, n: int)
    requires
        0 <= k <= n <= m.connectors.len(),
    ensures
        assigned_upto(m, k).outputs.is_prefix_of(assigned_upto(m, n).outputs),
        assigned_upto(m, k).unassigned.is_prefix_of(assigned_upto(m, n).unassigned),
    decreases n - k,
{
    if k < n {
        lemma_outputs_grow(m, k, n - 1);
        let a = assigned_upto(m, k);
        let b = assigned_upto(m, n - 1);
        let c = assigned_upto(m, n);
        assert(b.outputs.is_prefix_of(c.outputs));
        assert(b.unassigned.is_prefix_of(c.unassigned));
        assert(a.outputs =~= c.outputs.take(a.outputs.len() as int));
        assert(a.unassigned =~= c.unassigned.take(a.unassigned.len() as int));
    }
}

/// A connector is reported disconnected only if it is not connected, and
/// short of a free CRTC only if it has modes, some CRTC could drive it,
/// and all that could are claimed. An incompatible one has no CRTC at all
/// that could drive it, or no mode.
pub proof fn law_reasons_are_precise(m: TopologyModel, k: int)
    requires
        0 <= k < m.connectors.len(),
    ensures
        ({
            let conn = m.connectors[k];
            let before = assigned_upto(m, k);
            let after = assigned_upto(m, k + 1);
            after.unassigned.len() > before.unassigned.len() ==> {
                &&& after.unassigned.last().connector_id == conn.id
                &&& assigned(m).unassigned.contains(after.unassigned.last())
                &&& match after.unassigned.last().reason {
                    UnassignedReason::Disconnected => conn.state != ConnectorState::Connected,
                    UnassignedReason::NoCompatibleEncoder => conn.state
                        == ConnectorState::Connected && (conn.modes.len() == 0 || !drivable(
                        m.crtcs,
                        conn,
                    )),
                    UnassignedReason::NoFreeCrtc => conn.state == ConnectorState::Connected
                        && drivable(m.crtcs, conn) && forall|j: int|
                        0 <= j < m.crtcs.len() && compatible(conn, #[trigger] m.crtcs[j])
                            ==> claimed(before.outputs, m.crtcs[j].id),
                }
            }
        }),
{
    let conn = m.connectors[k];
    let before = assigned_upto(m, k);
    let after = assigned_upto(m, k + 1);
    lemma_free_index_bounds(m.crtcs, conn, before.outputs);
    lemma_outputs_grow(m, k + 1, m.connectors.len() as int);
    if after.unassigned.len() > before.unassigned.len() {
        assert(assigned(m).unassigned[after.unassigned.len() - 1] == after.unassigned.last());
    }
}

} // verus!
