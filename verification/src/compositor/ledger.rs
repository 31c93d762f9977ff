//! Recent input serials of each client, and who owns the selections.
//!
//! A popup grab must name a recent input event of its own client. The
//! last few serials of every client are kept for that, and forgotten
//! when it disconnects.
use std::collections::VecDeque;

use vstd::prelude::*;

use crate::compositor::lifecycle::of_other_surface;
use crate::compositor::state::{Effect, GlassModel, LookingGlass, PopupInfo, SurfaceId};

verus! {

/// How many recent input serials per client are kept.
pub const INPUT_SERIAL_LEDGER_CAP: usize = 16;

/// The last entries of a ledger, as many as it may hold.
pub open spec fn newest(s: Seq<u32>) -> Seq<u32> {
    if s.len() > INPUT_SERIAL_LEDGER_CAP {
        s.skip(s.len() - INPUT_SERIAL_LEDGER_CAP)
    } else {
        s
    }
}

/// The ledger with one more serial. Zero is never the serial of an input
/// event and is not kept.
pub open spec fn noted(s: Seq<u32>, serial: u32) -> Seq<u32> {
    if serial == 0 {
        s
    } else {
        newest(s.push(serial))
    }
}

/// Records an input serial.
pub fn ledger_push(ledger: &mut VecDeque<u32>, serial: u32)
    requires
        old(ledger)@.len() < usize::MAX,
    ensures
        final(ledger)@ == noted(old(ledger)@, serial),
{
    if serial == 0 {
        return;
    }
    ledger.push_back(serial);
    let ghost all = ledger@;
    let ghost mut gone: int = 0;
    assert(all.skip(0) =~= all);
    while ledger.len() > INPUT_SERIAL_LEDGER_CAP
        invariant
            0 <= gone <= all.len(),
            ledger@ == all.skip(gone),
            gone > 0 ==> all.len() - gone >= INPUT_SERIAL_LEDGER_CAP,
        decreases ledger@.len(),
    {
        ledger.pop_front();
        proof {
            gone = gone + 1;
            assert(ledger@ =~= all.skip(gone));
        }
    }
    assert(ledger@ =~= newest(all));
}

/// Whether the serial is in the ledger. Zero never is.
pub fn ledger_contains(ledger: Option<&VecDeque<u32>>, serial: u32) -> (r: bool)
    ensures
        r == match ledger {
            Some(q) => serial != 0 && q@.contains(serial),
            None => false,
        },
{
    if serial == 0 {
        return false;
    }
    match ledger {
        Some(q) => {
            let mut i: usize = 0;
            while i < q.len()
                invariant
                    i <= q@.len(),
                    ledger == Some(q),
                    serial != 0,
                    forall|j: int| 0 <= j < i ==> q@[j] != serial,
                decreases q@.len() - i,
            {
                if q[i] == serial {
                    assert(q@[i as int] == serial);
                    return true;
                }
                i = i + 1;
            }
            false
        },
        None => false,
    }
}

/// Identity of a client; never used again after it disconnects.
pub type ClientId = u64;

/// The serials of one client.
#[derive(Debug)]
pub struct ClientSerials {
    pub client: ClientId,
    pub serials: VecDeque<u32>,
}

/// The selections a client can own.
#[derive(Debug, Clone, Copy, PartialEq, Eq, Structural)]
pub enum SelectionTarget {
    Clipboard,
    Primary,
}

/// Marks a selection that the compositor serves for an X11 client.
#[derive(Debug, Clone, Copy, PartialEq, Eq, Structural)]
pub struct SelectionOwner;

/// What is known of the clients beyond their windows.
#[derive(Debug)]
pub struct ClientLedger {
    pub clients: Vec<ClientSerials>,
    pub clipboard_owner: Option<ClientId>,
    pub primary_owner: Option<ClientId>,
    /// The client with keyboard focus.
    pub keyboard_client: Option<ClientId>,
    /// The selections have to be offered anew: their owner died.
    pub refresh_pending: bool,
    pub x11_owns_clipboard: bool,
    pub x11_owns_primary: bool,
}

/// What is known of the clients, as a mathematical value.
#[verifier::ext_equal]
pub ghost struct LedgerModel {
    pub serials: Seq<(ClientId, Seq<u32>)>,
    pub clipboard_owner: Option<ClientId>,
    pub primary_owner: Option<ClientId>,
    pub keyboard_client: Option<ClientId>,
    pub refresh_pending: bool,
    pub x11_owns_clipboard: bool,
    pub x11_owns_primary: bool,
}

/// The serials of each client in the list.
pub open spec fn serials_of(s: Seq<ClientSerials>) -> Seq<(ClientId, Seq<u32>)> {
    s.map_values(|c: ClientSerials| (c.client, c.serials@))
}

impl View for ClientLedger {
    type V = LedgerModel;

    open spec fn view(&self) -> LedgerModel {
        LedgerModel {
            serials: serials_of(self.clients@),
            clipboard_owner: self.clipboard_owner,
            primary_owner: self.primary_owner,
            keyboard_client: self.keyboard_client,
            refresh_pending: self.refresh_pending,
            x11_owns_clipboard: self.x11_owns_clipboard,
            x11_owns_primary: self.x11_owns_primary,
        }
    }
}

/// Position of the first entry of the client, or the length.
pub open spec fn client_index(s: Seq<(ClientId, Seq<u32>)>, client: ClientId) -> int
    decreases s.len(),
{
    if s.len() == 0 || s[0].0 == client {
        0
    } else {
        1 + client_index(s.drop_first(), client)
    }
}

proof fn lemma_client_index(s: Seq<(ClientId, Seq<u32>)>, client: ClientId, i: int)
    requires
        0 <= i <= s.len(),
        forall|j: int| 0 <= j < i ==> (#[trigger] s[j]).0 != client,
        i < s.len() ==> s[i].0 == client,
    ensures
        client_index(s, client) == i,
    decreases s.len(),
{
    if i > 0 {
        assert(s[0].0 != client);
        let rest = s.drop_first();
        assert forall|j: int| 0 <= j < i - 1 implies (#[trigger] rest[j]).0 != client by {
            assert(rest[j] == s[j + 1]);
        }
        lemma_client_index(rest, client, i - 1);
    }
}

/// Entries of other clients.
pub open spec fn of_other_client(client: ClientId) -> spec_fn((ClientId, Seq<u32>)) -> bool {
    |e: (ClientId, Seq<u32>)| e.0 != client
}

impl LedgerModel {
    /// No ledger is beyond its capacity.
    pub open spec fn wf(self) -> bool {
        forall|i: int|
            0 <= i < self.serials.len() ==> (#[trigger] self.serials[i]).1.len()
                <= INPUT_SERIAL_LEDGER_CAP
    }

    /// The serials of a client; nothing before its first event.
    pub open spec fn serials_for(self, client: ClientId) -> Seq<u32> {
        let i = client_index(self.serials, client);
        if i < self.serials.len() {
            self.serials[i].1
        } else {
            Seq::empty()
        }
    }

    /// An input event delivered to a client.
    pub open spec fn recorded(self, client: ClientId, serial: u32) -> LedgerModel {
        let i = client_index(self.serials, client);
        LedgerModel {
            serials: if i < self.serials.len() {
                self.serials.update(i, (client, noted(self.serials[i].1, serial)))
            } else {
                self.serials.push((client, noted(Seq::empty(), serial)))
            },
            ..self
        }
    }

    /// The serial is one of the client's recent input events.
    pub open spec fn vouches(self, client: ClientId, serial: u32) -> bool {
        serial != 0 && self.serials_for(client).contains(serial)
    }

    /// A selection changed hands: it is owned by the client with the
    /// keyboard, or by nobody when it was given up.
    pub open spec fn selected(self, target: SelectionTarget, offered: bool) -> LedgerModel {
        let owner = if offered {
            self.keyboard_client
        } else {
            None
        };
        match target {
            SelectionTarget::Clipboard => LedgerModel {
                clipboard_owner: owner,
                x11_owns_clipboard: false,
                ..self
            },
            SelectionTarget::Primary => LedgerModel {
                primary_owner: owner,
                x11_owns_primary: false,
                ..self
            },
        }
    }

    /// A client gone: its serials are forgotten, and selections it owned
    /// have to be offered anew.
    pub open spec fn departed(self, client: ClientId) -> LedgerModel {
        let clipboard = self.clipboard_owner == Some(client);
        let primary = self.primary_owner == Some(client);
        LedgerModel {
            serials: self.serials.filter(of_other_client(client)),
            clipboard_owner: if clipboard {
                None
            } else {
                self.clipboard_owner
            },
            primary_owner: if primary {
                None
            } else {
                self.primary_owner
            },
            refresh_pending: self.refresh_pending || clipboard || primary,
            ..self
        }
    }
}

proof fn lemma_departed_is_wf(m: LedgerModel, client: ClientId)
    requires
        m.wf(),
    ensures
        m.departed(client).wf(),
{
    let p = of_other_client(client);
    let d = m.departed(client).serials;
    assert forall|j: int| 0 <= j < d.len() implies (#[trigger] d[j]).1.len()
        <= INPUT_SERIAL_LEDGER_CAP by {
        m.serials.lemma_filter_contains_rev(p, d[j]);
    }
}

impl ClientLedger {
    pub fn new() -> (r: Self)
        ensures
            r@.wf(),
            r@ == (LedgerModel {
                serials: Seq::empty(),
                clipboard_owner: None,
                primary_owner: None,
                keyboard_client: None,
                refresh_pending: false,
                x11_owns_clipboard: false,
                x11_owns_primary: false,
            }),
    {
        ClientLedger {
            clients: Vec::new(),
            clipboard_owner: None,
            primary_owner: None,
            keyboard_client: None,
            refresh_pending: false,
            x11_owns_clipboard: false,
            x11_owns_primary: false,
        }
    }

    fn position(&self, client: ClientId) -> (r: Option<usize>)
        ensures
            match r {
                Some(i) => i < self@.serials.len() && i == client_index(self@.serials, client)
                    && self.clients@[i as int].client == client,
                None => client_index(self@.serials, client) == self@.serials.len(),
            },
    {
        let mut i: usize = 0;
        while i < self.clients.len()
            invariant
                i <= self.clients@.len(),
                forall|j: int| 0 <= j < i ==> (#[trigger] self@.serials[j]).0 != client,
            decreases self.clients@.len() - i,
        {
            if self.clients[i].client == client {
                proof {
                    lemma_client_index(self@.serials, client, i as int);
                }
                return Some(i);
            }
            i = i + 1;
        }
        proof {
            lemma_client_index(self@.serials, client, i as int);
        }
        None
    }

    /// Records the serial of an input event delivered to a client.
    pub fn record_input_serial(&mut self, client: ClientId, serial: u32)
        requires
            old(self)@.wf(),
        ensures
            final(self)@ == old(self)@.recorded(client, serial),
            final(self)@.wf(),
    {
        let ghost s = self@.serials;
        match self.position(client) {
            Some(i) => {
                assert(s[i as int].1.len() <= INPUT_SERIAL_LEDGER_CAP);
                ledger_push(&mut self.clients[i].serials, serial);
                assert(self@.serials =~= s.update(i as int, (client, noted(s[i as int].1, serial))));
            },
            None => {
                let mut serials: VecDeque<u32> = VecDeque::new();
                ledger_push(&mut serials, serial);
                self.clients.push(ClientSerials { client, serials });
                assert(self@.serials =~= s.push((client, noted(Seq::empty(), serial))));
            },
        }
        assert(self@ == old(self)@.recorded(client, serial));
    }

    /// Whether a popup grab with this serial answers a recent input event
    /// of the client.
    pub fn vouches_for(&self, client: ClientId, serial: u32) -> (r: bool)
        ensures
            r == self@.vouches(client, serial),
    {
        match self.position(client) {
            Some(i) => ledger_contains(Some(&self.clients[i].serials), serial),
            None => ledger_contains(None, serial),
        }
    }

    /// Keyboard focus went to a window of this client, or to none.
    pub fn update_data_device_focus(&mut self, client: Option<ClientId>)
        ensures
            final(self)@ == (LedgerModel { keyboard_client: client, ..old(self)@ }),
    {
        self.keyboard_client = client;
    }

    /// A selection changed hands; `offered` says whether somebody offers
    /// it now.
    pub fn new_selection(&mut self, target: SelectionTarget, offered: bool)
        ensures
            final(self)@ == old(self)@.selected(target, offered),
    {
        let owner = if offered {
            self.keyboard_client
        } else {
            None
        };
        match target {
            SelectionTarget::Clipboard => {
                self.clipboard_owner = owner;
                self.x11_owns_clipboard = false;
            },
            SelectionTarget::Primary => {
                self.primary_owner = owner;
                self.x11_owns_primary = false;
            },
        }
    }

    /// A client disconnected.
    pub fn disconnected(&mut self, client: ClientId)
        ensures
            final(self)@ == old(self)@.departed(client),
            old(self)@.wf() ==> final(self)@.wf(),
    {
        if self.clipboard_owner == Some(client) {
            self.clipboard_owner = None;
            self.refresh_pending = true;
        }
        if self.primary_owner == Some(client) {
            self.primary_owner = None;
            self.refresh_pending = true;
        }
        let ghost s = self@.serials;
        let ghost p = of_other_client(client);
        let mut kept: Vec<ClientSerials> = Vec::new();
        let mut rest: Vec<ClientSerials> = Vec::new();
        std::mem::swap(&mut rest, &mut self.clients);
        let ghost mut n: int = 0;
        assert(serials_of(kept@) =~= s.take(0).filter(p)) by {
            reveal(Seq::filter);
        }
        while rest.len() > 0
            invariant
                0 <= n <= s.len(),
                serials_of(rest@) == s.skip(n),
                p == of_other_client(client),
                serials_of(kept@) == s.take(n).filter(p),
            decreases rest@.len(),
        {
            let ghost r0 = rest@;
            let c = rest.remove(0);
            proof {
                reveal(Seq::filter);
                assert(serials_of(r0).len() == s.skip(n).len());
                assert(serials_of(r0)[0] == (c.client, c.serials@));
                assert(s.skip(n)[0] == s[n]);
                assert(s.take(n + 1).drop_last() =~= s.take(n));
                assert(s.take(n + 1).last() == (c.client, c.serials@));
                assert(serials_of(rest@) =~= s.skip(n + 1)) by {
                    assert forall|j: int| 0 <= j < rest@.len() implies serials_of(rest@)[j]
                        == s.skip(n + 1)[j] by {
                        assert(rest@[j] == r0[j + 1]);
                        assert(serials_of(r0)[j + 1] == s.skip(n)[j + 1]);
                    }
                }
            }
            let ghost k0 = kept@;
            if c.client != client {
                let ghost e = (c.client, c.serials@);
                kept.push(c);
                assert(serials_of(kept@) =~= serials_of(k0).push(e));
            }
            proof {
                n = n + 1;
            }
        }
        assert(s.take(n) =~= s);
        self.clients = kept;
        proof {
            if old(self)@.wf() {
                lemma_departed_is_wf(old(self)@, client);
            }
        }
    }

    /// Whether the selections have to be offered anew; asked once.
    pub fn take_refresh(&mut self) -> (r: bool)
        ensures
            r == old(self)@.refresh_pending,
            final(self)@ == (LedgerModel { refresh_pending: false, ..old(self)@ }),
    {
        let pending = self.refresh_pending;
        self.refresh_pending = false;
        pending
    }
}

impl LookingGlass {
    /// Decides on a popup grab. One whose serial is no recent input event
    /// of its client is refused, and the popup dismissed.
    pub fn validate_popup_grab(
        &mut self,
        ledger: &ClientLedger,
        surface: SurfaceId,
        client: Option<ClientId>,
        serial: u32,
    ) -> (r: bool)
        ensures
            r == match client {
                Some(c) => ledger@.vouches(c, serial),
                None => false,
            },
            final(self)@ == if r {
                old(self)@
            } else {
                GlassModel {
                    popups: old(self)@.popups.filter(of_other_surface(surface)),
                    ..old(self)@
                }.ordering(Effect::PopupDone { surface })
            },
    {
        let valid = match client {
            Some(c) => ledger.vouches_for(c, serial),
            None => false,
        };
        if !valid {
            self.order(Effect::PopupDone { surface });
            let ghost before = self@;
            let ghost s = self.popups@;
            let ghost p = of_other_surface(surface);
            let mut kept: Vec<PopupInfo> = Vec::new();
            let mut i: usize = 0;
            while i < self.popups.len()
                invariant
                    i <= self.popups@.len(),
                    self@ == before,
                    self.popups@ == s,
                    p == of_other_surface(surface),
                    kept@ == s.take(i as int).filter(p),
                decreases self.popups@.len() - i,
            {
                let info = self.popups[i];
                proof {
                    reveal(Seq::filter);
                    assert(s.take(i + 1).drop_last() =~= s.take(i as int));
                    assert(s.take(i + 1).last() == info);
                }
                if info.surface != surface {
                    kept.push(info);
                }
                i = i + 1;
            }
            assert(s.take(i as int) =~= s);
            self.popups = kept;
        }
        valid
    }
}

/// A ledger never holds more than its capacity, the serial recorded last
/// is in it, and zero never gets in.
pub proof fn law_ledger_is_bounded(s: Seq<u32>, serial: u32)
    requires
        s.len() <= INPUT_SERIAL_LEDGER_CAP,
    ensures
        noted(s, serial).len() <= INPUT_SERIAL_LEDGER_CAP,
        serial != 0 ==> noted(s, serial).contains(serial),
        !s.contains(0) ==> !noted(s, serial).contains(0),
{
    let n = noted(s, serial);
    if serial != 0 {
        assert(n.last() == serial);
        assert(n[n.len() - 1] == serial);
        if n.contains(0) {
            let i = choose|i: int| 0 <= i < n.len() && n[i] == 0;
            let k = i + (s.len() + 1 - n.len());
            assert(s.push(serial)[k] == 0);
            assert(s[k] == 0);
        }
    }
}

/// A grab is granted on the serial just delivered to its client, never on
/// zero, and never once the client is gone.
pub proof fn law_grab_needs_a_recent_event(m: LedgerModel, client: ClientId, serial: u32)
    requires
        m.wf(),
        serial != 0,
    ensures
        m.recorded(client, serial).vouches(client, serial),
        !m.vouches(client, 0),
        !m.departed(client).vouches(client, serial),
{
    let i = client_index(m.serials, client);
    lemma_client_index_bounds(m.serials, client);
    let r = m.recorded(client, serial);
    if i < m.serials.len() {
        assert(m.serials[i].1.len() <= INPUT_SERIAL_LEDGER_CAP);
        law_ledger_is_bounded(m.serials[i].1, serial);
        assert forall|j: int| 0 <= j < i implies (#[trigger] r.serials[j]).0 != client by {
            assert(r.serials[j] == m.serials[j]);
        }
        lemma_client_index(r.serials, client, i);
    } else {
        law_ledger_is_bounded(Seq::empty(), serial);
        assert forall|j: int| 0 <= j < i implies (#[trigger] r.serials[j]).0 != client by {
            assert(r.serials[j] == m.serials[j]);
        }
        lemma_client_index(r.serials, client, i);
    }
    let d = m.departed(client).serials;
    broadcast use vstd::seq_lib::group_filter_ensures;

    assert forall|j: int| 0 <= j < d.len() implies (#[trigger] d[j]).0 != client by {
        assert(of_other_client(client)(d[j]));
    }
    lemma_client_index(d, client, d.len() as int);
}

proof fn lemma_client_index_bounds(s: Seq<(ClientId, Seq<u32>)>, client: ClientId)
    ensures
        0 <= client_index(s, client) <= s.len(),
        client_index(s, client) < s.len() ==> s[client_index(s, client)].0 == client,
        forall|j: int| 0 <= j < client_index(s, client) ==> (#[trigger] s[j]).0 != client,
    decreases s.len(),
{
    if s.len() > 0 && s[0].0 != client {
        let rest = s.drop_first();
        lemma_client_index_bounds(rest, client);
        assert forall|j: int| 0 <= j < client_index(s, client) implies (#[trigger] s[j]).0
            != client by {
            if j > 0 {
                assert(s[j] == rest[j - 1]);
            }
        }
    }
}

/// The client that offered a selection leaves with it: nobody owns it any
/// more, and the next frame offers the selections anew.
pub proof fn law_dead_owner_is_noticed(m: LedgerModel, target: SelectionTarget, client: ClientId)
    requires
        m.keyboard_client == Some(client),
    ensures
        m.selected(target, true).departed(client).refresh_pending,
        m.selected(target, true).departed(client).clipboard_owner != Some(client),
        m.selected(target, true).departed(client).primary_owner != Some(client),
{
}

/// Sixteen serials are kept: one more takes its place at the end, and
/// where there is no room for it the oldest goes.
pub proof fn law_ledger_keeps_the_newest(s: Seq<u32>, serial: u32)
    requires
        s.len() <= 16,
    ensures
        serial == 0 ==> noted(s, serial) == s,
        serial != 0 && s.len() < 16 ==> noted(s, serial) == s.push(serial),
        serial != 0 && s.len() == 16 ==> noted(s, serial) == s.drop_first().push(serial),
{
    if s.len() == 16 {
        assert(s.push(serial).skip(1) =~= s.drop_first().push(serial));
    }
}

/// An event of one client vouches for no other, and neither does another's
/// departure matter.
pub proof fn law_events_are_each_clients_own(
    m: LedgerModel,
    client: ClientId,
    other: ClientId,
    serial: u32,
    n: u32,
)
    requires
        client != other,
    ensures
        m.recorded(client, serial).vouches(other, n) == m.vouches(other, n),
        m.departed(client).vouches(other, n) == m.vouches(other, n),
{
    lemma_client_index_bounds(m.serials, client);
    lemma_client_index_bounds(m.serials, other);
    let i = client_index(m.serials, client);
    let k = client_index(m.serials, other);
    let r = m.recorded(client, serial);
    assert forall|j: int| 0 <= j < k implies (#[trigger] r.serials[j]).0 != other by {
        assert(m.serials[j].0 != other);
    }
    if k < m.serials.len() {
        lemma_client_index(r.serials, other, k);
    } else {
        assert forall|j: int| 0 <= j < r.serials.len() implies (#[trigger] r.serials[j]).0
            != other by {
            if j < m.serials.len() {
                assert(m.serials[j].0 != other);
            }
        }
        lemma_client_index(r.serials, other, r.serials.len() as int);
    }
    lemma_departure_of_another(m.serials, client, other);
}

proof fn lemma_departure_of_another(
    s: Seq<(ClientId, Seq<u32>)>,
    client: ClientId,
    other: ClientId,
)
    requires
        client != other,
    ensures
        ({
            let f = s.filter(of_other_client(client));
            let i = client_index(s, other);
            let k = client_index(f, other);
            &&& 0 <= k <= f.len()
            &&& i < s.len() <==> k < f.len()
            &&& i < s.len() ==> f[k].1 == s[i].1
        }),
    decreases s.len(),
{
    let p = of_other_client(client);
    let f = s.filter(p);
    lemma_client_index_bounds(f, other);
    lemma_client_index_bounds(s, other);
    if s.len() > 0 {
        let rest = s.drop_last();
        let g = rest.filter(p);
        lemma_departure_of_another(rest, client, other);
        lemma_client_index_bounds(rest, other);
        lemma_client_index_bounds(g, other);
        assert(f == if p(s.last()) {
            g.push(s.last())
        } else {
            g
        }) by {
            reveal(Seq::filter);
        }
        let i = client_index(rest, other);
        let k = client_index(g, other);
        if i < rest.len() {
            assert forall|j: int| 0 <= j < i implies (#[trigger] s[j]).0 != other by {
                assert(rest[j] == s[j]);
            }
            assert(s[i] == rest[i]);
            lemma_client_index(s, other, i);
            assert forall|j: int| 0 <= j < k implies (#[trigger] f[j]).0 != other by {
                assert(g[j] == f[j]);
            }
            assert(f[k] == g[k]);
            lemma_client_index(f, other, k);
        } else {
            let n = s.len() - 1;
            assert forall|j: int| 0 <= j < n implies (#[trigger] s[j]).0 != other by {
                assert(rest[j] == s[j]);
            }
            assert forall|j: int| 0 <= j < g.len() implies (#[trigger] g[j]).0 != other by {
                assert(g[j].0 != other);
            }
            if s.last().0 == other {
                assert(s[n].0 == other);
                lemma_client_index(s, other, n);
                assert forall|j: int| 0 <= j < g.len() implies (#[trigger] f[j]).0 != other by {
                    assert(g[j] == f[j]);
                }
                lemma_client_index(f, other, g.len() as int);
            } else {
                lemma_client_index(s, other, s.len() as int);
                assert forall|j: int| 0 <= j < f.len() implies (#[trigger] f[j]).0 != other by {
                    if j < g.len() {
                        assert(g[j] == f[j]);
                    }
                }
                lemma_client_index(f, other, f.len() as int);
            }
        }
    }
}

/// A selection that is offered belongs to the client with the keyboard,
/// one that is given up to nobody, and the other selection stays as it is.
pub proof fn law_selection_goes_to_the_keyboard(m: LedgerModel, offered: bool)
    ensures
        ({
            let c = m.selected(SelectionTarget::Clipboard, offered);
            let p = m.selected(SelectionTarget::Primary, offered);
            &&& offered ==> c.clipboard_owner == m.keyboard_client
            &&& offered ==> p.primary_owner == m.keyboard_client
            &&& !offered ==> c.clipboard_owner is None
            &&& !offered ==> p.primary_owner is None
            &&& !c.x11_owns_clipboard
            &&& !p.x11_owns_primary
            &&& c.primary_owner == m.primary_owner
            &&& p.clipboard_owner == m.clipboard_owner
            &&& c.x11_owns_primary == m.x11_owns_primary
            &&& p.x11_owns_clipboard == m.x11_owns_clipboard
            &&& c.serials == m.serials
            &&& p.serials == m.serials
            &&& c.refresh_pending == m.refresh_pending
            &&& p.refresh_pending == m.refresh_pending
        }),
{
}

/// A client that owned no selection leaves the selections as they are.
pub proof fn law_departure_of_no_owner_is_quiet(m: LedgerModel, client: ClientId)
    requires
        m.clipboard_owner != Some(client),
        m.primary_owner != Some(client),
    ensures
        m.departed(client).clipboard_owner == m.clipboard_owner,
        m.departed(client).primary_owner == m.primary_owner,
        m.departed(client).refresh_pending == m.refresh_pending,
{
}

} // verus!
