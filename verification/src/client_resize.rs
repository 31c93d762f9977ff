//! Client-driven geometry coordination.
//!
//! The compositor asks for geometry; the client decides it by what it
//! commits. This module holds the asking side only: which size was asked
//! of which visual, under which configure serial, and whether the client
//! has acknowledged it.
use vstd::prelude::*;

use crate::scene::VisualId;

verus! {

/// Serial number of a configure event.
pub type Serial = u32;

/// The outstanding request for a client surface to resize.
#[derive(Debug, Clone, Copy, PartialEq, Eq)]
pub struct ClientResizeRequest {
    pub vid: VisualId,
    /// Serial of the configure sent for this request.
    pub serial: Serial,
    /// Logical size (width, height) requested.
    pub requested: (i32, i32),
    /// Whether the client acknowledged this specific serial.
    pub acknowledged: bool,
}

/// Result of reporting a client commit to the coordinator.
#[derive(Debug, Clone, Copy, PartialEq, Eq, Structural)]
pub enum CommitOutcome {
    /// The committed buffer has the requested size.
    Fulfilled,
    /// The client committed another size: the client wins and the request
    /// is abandoned.
    ClientOverride,
    /// No resize request is in flight for this visual.
    NotResizing,
}

/// Tracks at most one outstanding geometry request per visual.
#[derive(Debug)]
pub struct ClientResizeCoordinator {
    entries: Vec<ClientResizeRequest>,
}

impl View for ClientResizeCoordinator {
    type V = Seq<ClientResizeRequest>;

    closed spec fn view(&self) -> Seq<ClientResizeRequest> {
        self.entries@
    }
}

/// The requests that are not for `vid`.
pub open spec fn requests_without(
    s: Seq<ClientResizeRequest>,
    vid: VisualId,
) -> Seq<ClientResizeRequest> {
    s.filter(|e: ClientResizeRequest| e.vid != vid)
}

/// The requests after a configure was sent: any earlier one for the
/// visual is replaced.
pub open spec fn requests_after_send(
    s: Seq<ClientResizeRequest>,
    vid: VisualId,
    serial: Serial,
    size: (i32, i32),
) -> Seq<ClientResizeRequest> {
    requests_without(s, vid).push(
        ClientResizeRequest { vid, serial, requested: size, acknowledged: false },
    )
}

/// Position of the first request for `vid`, or the length.
pub open spec fn request_index(s: Seq<ClientResizeRequest>, vid: VisualId) -> int
    decreases s.len(),
{
    if s.len() == 0 || s[0].vid == vid {
        0
    } else {
        1 + request_index(s.drop_first(), vid)
    }
}

/// Position of the first unacknowledged request with this serial, or the
/// length.
pub open spec fn ack_index(s: Seq<ClientResizeRequest>, serial: Serial) -> int
    decreases s.len(),
{
    if s.len() == 0 || (s[0].serial == serial && !s[0].acknowledged) {
        0
    } else {
        1 + ack_index(s.drop_first(), serial)
    }
}

/// The request for `vid`, if any.
pub open spec fn request_for(
    s: Seq<ClientResizeRequest>,
    vid: VisualId,
) -> Option<ClientResizeRequest> {
    if request_index(s, vid) < s.len() {
        Some(s[request_index(s, vid)])
    } else {
        None
    }
}

/// Whether an unacknowledged request for `vid` is outstanding.
pub open spec fn awaits_ack(s: Seq<ClientResizeRequest>, vid: VisualId) -> bool {
    exists|i: int| 0 <= i < s.len() && (#[trigger] s[i]).vid == vid && !s[i].acknowledged
}

/// The requests after a commit by `vid`: its first request is gone.
pub open spec fn requests_after_commit(
    s: Seq<ClientResizeRequest>,
    vid: VisualId,
) -> Seq<ClientResizeRequest> {
    if request_index(s, vid) < s.len() {
        s.remove(request_index(s, vid))
    } else {
        s
    }
}

/// What a commit of `size` by `vid` means for its request.
pub open spec fn commit_outcome(
    s: Seq<ClientResizeRequest>,
    vid: VisualId,
    size: (i32, i32),
) -> CommitOutcome {
    match request_for(s, vid) {
        Some(e) => if e.requested == size {
            CommitOutcome::Fulfilled
        } else {
            CommitOutcome::ClientOverride
        },
        None => CommitOutcome::NotResizing,
    }
}

/// No two requests are for one visual.
pub open spec fn one_request_each(s: Seq<ClientResizeRequest>) -> bool {
    forall|i: int, j: int| 0 <= i < j < s.len() ==> (#[trigger] s[i]).vid != (#[trigger] s[j]).vid
}

pub proof fn lemma_request_index(s: Seq<ClientResizeRequest>, vid: VisualId, i: int)
    requires
        0 <= i <= s.len(),
        forall|j: int| 0 <= j < i ==> (#[trigger] s[j]).vid != vid,
        i < s.len() ==> s[i].vid == vid,
    ensures
        request_index(s, vid) == i,
    decreases s.len(),
{
    if i > 0 {
        assert(s[0].vid != vid);
        let rest = s.drop_first();
        assert forall|j: int| 0 <= j < i - 1 implies (#[trigger] rest[j]).vid != vid by {
            assert(rest[j] == s[j + 1]);
        }
        lemma_request_index(rest, vid, i - 1);
    }
}

pub proof fn lemma_request_index_bounds(s: Seq<ClientResizeRequest>, vid: VisualId)
    ensures
        0 <= request_index(s, vid) <= s.len(),
        request_index(s, vid) < s.len() ==> s[request_index(s, vid)].vid == vid,
        forall|j: int| 0 <= j < request_index(s, vid) ==> (#[trigger] s[j]).vid != vid,
    decreases s.len(),
{
    if s.len() > 0 && s[0].vid != vid {
        let rest = s.drop_first();
        lemma_request_index_bounds(rest, vid);
        assert forall|j: int| 0 <= j < request_index(s, vid) implies (#[trigger] s[j]).vid
            != vid by {
            if j > 0 {
                assert(s[j] == rest[j - 1]);
            }
        }
    }
}

pub proof fn lemma_ack_index(s: Seq<ClientResizeRequest>, serial: Serial, i: int)
    requires
        0 <= i <= s.len(),
        forall|j: int|
            0 <= j < i ==> (#[trigger] s[j]).serial != serial || s[j].acknowledged,
        i < s.len() ==> s[i].serial == serial && !s[i].acknowledged,
    ensures
        ack_index(s, serial) == i,
    decreases s.len(),
{
    if i > 0 {
        assert(s[0].serial != serial || s[0].acknowledged);
        let rest = s.drop_first();
        assert forall|j: int| 0 <= j < i - 1 implies (#[trigger] rest[j]).serial != serial
            || rest[j].acknowledged by {
            assert(rest[j] == s[j + 1]);
        }
        lemma_ack_index(rest, serial, i - 1);
    }
}

pub proof fn lemma_ack_index_bounds(s: Seq<ClientResizeRequest>, serial: Serial)
    ensures
        0 <= ack_index(s, serial) <= s.len(),
    decreases s.len(),
{
    if s.len() > 0 && !(s[0].serial == serial && !s[0].acknowledged) {
        lemma_ack_index_bounds(s.drop_first(), serial);
    }
}

impl Default for ClientResizeCoordinator {
    fn default() -> (r: Self)
        ensures
            r@.len() == 0,
    {
        ClientResizeCoordinator { entries: Vec::new() }
    }
}

impl ClientResizeCoordinator {
    /// Drops every request for `vid`.
    fn drop_requests(&mut self, vid: VisualId)
        ensures
            final(self)@ == requests_without(old(self)@, vid),
    {
        let ghost s = self.entries@;
        let ghost p = |e: ClientResizeRequest| e.vid != vid;
        let mut kept: Vec<ClientResizeRequest> = Vec::new();
        let mut i: usize = 0;
        while i < self.entries.len()
            invariant
                i <= self.entries@.len(),
                self.entries@ == s,
                p == (|e: ClientResizeRequest| e.vid != vid),
                kept@ == s.take(i as int).filter(p),
            decreases self.entries@.len() - i,
        {
            let e = self.entries[i];
            proof {
                reveal(Seq::filter);
                assert(s.take(i + 1).drop_last() =~= s.take(i as int));
                assert(s.take(i + 1).last() == e);
            }
            if e.vid != vid {
                kept.push(e);
            }
            i = i + 1;
        }
        assert(s.take(i as int) =~= s);
        self.entries = kept;
    }

    /// Index of the first request for `vid`.
    fn position(&self, vid: VisualId) -> (r: Option<usize>)
        ensures
            match r {
                Some(i) => i < self@.len() && i == request_index(self@, vid),
                None => request_index(self@, vid) == self@.len(),
            },
    {
        let mut i: usize = 0;
        while i < self.entries.len()
            invariant
                i <= self.entries@.len(),
                forall|j: int| 0 <= j < i ==> (#[trigger] self.entries@[j]).vid != vid,
            decreases self.entries@.len() - i,
        {
            if self.entries[i].vid == vid {
                proof {
                    lemma_request_index(self@, vid, i as int);
                }
                return Some(i);
            }
            i = i + 1;
        }
        proof {
            lemma_request_index(self@, vid, i as int);
        }
        None
    }

    /// Record that a configure with `serial` was sent to the visual,
    /// requesting `size`. Replaces any previous request for the visual.
    pub fn mark_sent(&mut self, vid: VisualId, serial: Serial, size: (i32, i32))
        ensures
            final(self)@ == requests_after_send(old(self)@, vid, serial, size),
    {
        self.drop_requests(vid);
        self.entries.push(
            ClientResizeRequest { vid, serial, requested: size, acknowledged: false },
        );
    }

    /// Report an acknowledgement. Only the request whose serial matches is
    /// marked; older or unknown serials are ignored.
    /// Returns true when a request was marked acknowledged.
    pub fn note_ack(&mut self, serial: Serial) -> (r: bool)
        ensures
            r == (ack_index(old(self)@, serial) < old(self)@.len()),
            final(self)@ == if r {
                old(self)@.update(
                    ack_index(old(self)@, serial),
                    ClientResizeRequest {
                        acknowledged: true,
                        ..old(self)@[ack_index(old(self)@, serial)]
                    },
                )
            } else {
                old(self)@
            },
    {
        let mut i: usize = 0;
        while i < self.entries.len()
            invariant
                i <= self.entries@.len(),
                self.entries == old(self).entries,
                forall|j: int|
                    0 <= j < i ==> (#[trigger] self.entries@[j]).serial != serial
                        || self.entries@[j].acknowledged,
            decreases self.entries@.len() - i,
        {
            let e = self.entries[i];
            if e.serial == serial && !e.acknowledged {
                proof {
                    lemma_ack_index(self@, serial, i as int);
                }
                self.entries[i] = ClientResizeRequest { acknowledged: true, ..e };
                return true;
            }
            i = i + 1;
        }
        proof {
            lemma_ack_index(self@, serial, i as int);
        }
        false
    }

    /// Report a client commit with the given buffer size.
    ///
    /// A matching buffer fulfils the request; any other size abandons it.
    /// Either way the request is cleared: committed geometry wins.
    pub fn note_commit(&mut self, vid: VisualId, buffer_size: (i32, i32)) -> (r: CommitOutcome)
        ensures
            r == commit_outcome(old(self)@, vid, buffer_size),
            final(self)@ == requests_after_commit(old(self)@, vid),
    {
        match self.position(vid) {
            Some(i) => {
                let e = self.entries.remove(i);
                if e.requested.0 == buffer_size.0 && e.requested.1 == buffer_size.1 {
                    CommitOutcome::Fulfilled
                } else {
                    CommitOutcome::ClientOverride
                }
            },
            None => CommitOutcome::NotResizing,
        }
    }

    /// Whether the visual has an outstanding (unacknowledged) request.
    /// While true, no other configure may be sent.
    pub fn awaiting_ack(&self, vid: VisualId) -> (r: bool)
        ensures
            r == awaits_ack(self@, vid),
    {
        let mut i: usize = 0;
        while i < self.entries.len()
            invariant
                i <= self.entries@.len(),
                forall|j: int|
                    0 <= j < i ==> (#[trigger] self.entries@[j]).vid != vid
                        || self.entries@[j].acknowledged,
            decreases self.entries@.len() - i,
        {
            if self.entries[i].vid == vid && !self.entries[i].acknowledged {
                assert(self@[i as int].vid == vid);
                return true;
            }
            i = i + 1;
        }
        false
    }

    /// The outstanding request for a visual, if any.
    pub fn entry(&self, vid: VisualId) -> (r: Option<ClientResizeRequest>)
        ensures
            r == request_for(self@, vid),
    {
        match self.position(vid) {
            Some(i) => Some(self.entries[i]),
            None => None,
        }
    }

    /// Drop the request for a visual. Returns whether there was one.
    pub fn abort(&mut self, vid: VisualId) -> (r: bool)
        ensures
            r == (request_for(old(self)@, vid) is Some),
            final(self)@ == requests_without(old(self)@, vid),
    {
        let had = match self.position(vid) {
            Some(_) => true,
            None => false,
        };
        self.drop_requests(vid);
        had
    }

    pub fn is_empty(&self) -> (r: bool)
        ensures
            r == (self@.len() == 0),
    {
        self.entries.len() == 0
    }

    /// Number of outstanding requests.
    pub fn entries_len(&self) -> (r: usize)
        ensures
            r == self@.len(),
    {
        self.entries.len()
    }
}

/// Dropping the requests for `vid` leaves the others as they were.
pub proof fn lemma_requests_without(s: Seq<ClientResizeRequest>, vid: VisualId)
    ensures
        forall|i: int| 0 <= i < requests_without(s, vid).len() ==> (#[trigger] requests_without(
            s,
            vid,
        )[i]).vid != vid,
        one_request_each(s) ==> one_request_each(requests_without(s, vid)),
        forall|e: ClientResizeRequest| #[trigger]
            requests_without(s, vid).contains(e) <==> s.contains(e) && e.vid != vid,
    decreases s.len(),
{
    reveal(Seq::filter);
    if s.len() > 0 {
        let rest = s.drop_last();
        let w = requests_without(rest, vid);
        lemma_requests_without(rest, vid);
        assert(requests_without(s, vid) == if s.last().vid != vid {
            w.push(s.last())
        } else {
            w
        });
        assert forall|e: ClientResizeRequest| #[trigger]
            requests_without(s, vid).contains(e) <==> s.contains(e) && e.vid != vid by {
            if s.contains(e) {
                let i = choose|i: int| 0 <= i < s.len() && s[i] == e;
                if i < rest.len() {
                    assert(rest[i] == e);
                    assert(rest.contains(e));
                }
                if e.vid != vid && rest.contains(e) {
                    assert(requests_without(rest, vid).contains(e));
                    let k = choose|k: int| 0 <= k < w.len() && w[k] == e;
                    assert(requests_without(s, vid)[k] == e);
                } else if e.vid != vid {
                    assert(requests_without(s, vid)[w.len() as int] == e);
                }
            }
            if requests_without(s, vid).contains(e) {
                let k = choose|k: int|
                    0 <= k < requests_without(s, vid).len() && requests_without(s, vid)[k] == e;
                if k < w.len() {
                    assert(w[k] == e);
                    assert(w.contains(e));
                    let i = choose|i: int| 0 <= i < rest.len() && rest[i] == e;
                    assert(s[i] == e);
                } else {
                    assert(s[s.len() - 1] == e);
                }
            }
        }
        if one_request_each(s) {
            assert(one_request_each(rest));
            if s.last().vid != vid {
                assert forall|i: int| 0 <= i < w.len() implies (#[trigger] w[i]).vid
                    != s.last().vid by {
                    assert(w.contains(w[i]));
                    let k = choose|k: int| 0 <= k < rest.len() && rest[k] == w[i];
                    assert(s[k] == w[i] && s[s.len() - 1] == s.last());
                }
            }
        }
    }
}

/// At most one request per visual is kept by every send, and the new
/// request awaits its acknowledgement.
pub proof fn law_send_keeps_one_request_each(
    s: Seq<ClientResizeRequest>,
    vid: VisualId,
    serial: Serial,
    size: (i32, i32),
)
    requires
        one_request_each(s),
    ensures
        one_request_each(requests_after_send(s, vid, serial, size)),
        awaits_ack(requests_after_send(s, vid, serial, size), vid),
        request_for(requests_after_send(s, vid, serial, size), vid) == Some(
            ClientResizeRequest { vid, serial, requested: size, acknowledged: false },
        ),
{
    lemma_requests_without(s, vid);
    let w = requests_without(s, vid);
    let r = requests_after_send(s, vid, serial, size);
    assert(r[w.len() as int].vid == vid);
    lemma_request_index(r, vid, w.len() as int);
}

/// Once a commit has been reported, the visual has no request left,
/// whichever size was committed, and the other visuals keep theirs.
pub proof fn law_commit_settles_the_request(
    s: Seq<ClientResizeRequest>,
    vid: VisualId,
    other: VisualId,
)
    requires
        one_request_each(s),
        other != vid,
    ensures
        one_request_each(requests_after_commit(s, vid)),
        request_for(requests_after_commit(s, vid), vid) is None,
        request_for(requests_after_commit(s, vid), other) == request_for(s, other),
{
    let k = request_index(s, vid);
    let r = requests_after_commit(s, vid);
    lemma_request_index_bounds(s, vid);
    if k < s.len() {
        assert forall|j: int| 0 <= j < r.len() implies (#[trigger] r[j]).vid != vid by {
            if j < k {
                assert(r[j] == s[j]);
            } else {
                assert(r[j] == s[j + 1]);
                assert(s[k].vid == vid);
            }
        }
        assert forall|i: int, j: int| 0 <= i < j < r.len() implies (#[trigger] r[i]).vid != (
        #[trigger] r[j]).vid by {
            let i2 = if i < k {
                i
            } else {
                i + 1
            };
            let j2 = if j < k {
                j
            } else {
                j + 1
            };
            assert(r[i] == s[i2] && r[j] == s[j2]);
        }
    }
    lemma_request_index(r, vid, r.len() as int);
    let o = request_index(s, other);
    lemma_request_index_bounds(s, other);
    if k < s.len() {
        let o2 = if o < k || o == s.len() && k == s.len() {
            o
        } else {
            o - 1
        };
        assert(o != k);
        assert forall|j: int| 0 <= j < o2 implies (#[trigger] r[j]).vid != other by {
            if j < k {
                assert(r[j] == s[j]);
            } else {
                assert(r[j] == s[j + 1]);
            }
        }
        if o < s.len() {
            assert(r[o2] == s[o]);
        }
        lemma_request_index(r, other, o2);
    }
}

/// An acknowledgement of a serial nobody awaits changes nothing, and
/// acknowledging never changes which sizes were requested.
pub proof fn law_foreign_ack_is_ignored(s: Seq<ClientResizeRequest>, serial: Serial)
    requires
        forall|i: int| 0 <= i < s.len() ==> (#[trigger] s[i]).serial != serial,
    ensures
        ack_index(s, serial) == s.len(),
{
    lemma_ack_index(s, serial, s.len() as int);
}

/// A dropped request is gone, and with it any wait for an
/// acknowledgement.
pub proof fn law_aborted_request_is_gone(s: Seq<ClientResizeRequest>, vid: VisualId)
    ensures
        request_for(requests_without(s, vid), vid) is None,
        !awaits_ack(requests_without(s, vid), vid),
{
    lemma_requests_without(s, vid);
    let w = requests_without(s, vid);
    lemma_request_index(w, vid, w.len() as int);
}

/// A commit fulfils the visual's request if it has the size that was asked
/// for, overrides it if it has another, and without a request it is no
/// answer.
pub proof fn law_commits_are_told_apart(
    s: Seq<ClientResizeRequest>,
    vid: VisualId,
    k: int,
    size: (i32, i32),
)
    requires
        0 <= k <= s.len(),
        k < s.len() ==> s[k].vid == vid,
        forall|j: int| 0 <= j < k ==> (#[trigger] s[j]).vid != vid,
    ensures
        k < s.len() && s[k].requested.0 == size.0 && s[k].requested.1 == size.1 ==> commit_outcome(
            s,
            vid,
            size,
        ) == CommitOutcome::Fulfilled,
        k < s.len() && (s[k].requested.0 != size.0 || s[k].requested.1 != size.1)
            ==> commit_outcome(s, vid, size) == CommitOutcome::ClientOverride,
        k == s.len() ==> commit_outcome(s, vid, size) == CommitOutcome::NotResizing,
        k < s.len() ==> requests_after_commit(s, vid) == s.remove(k),
        k == s.len() ==> requests_after_commit(s, vid) == s,
{
    lemma_request_index(s, vid, k);
}

} // verus!
