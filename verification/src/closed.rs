//! Closed-window history: tombstones that allow a recently closed window
//! to be reopened with its pose and workspace.
use vstd::prelude::*;

use crate::scene::Transform3D;

verus! {

/// A tombstone recorded when a window is closed or destroyed.
#[derive(Debug)]
pub struct ClosedWindow {
    pub app_id: String,
    pub title: String,
    /// Workspace index the visual belonged to.
    pub workspace: usize,
    /// The visual's pose at close time.
    pub transform: Transform3D,
    pub closed_at_ms: u64,
}

/// A reopen in progress: the application was relaunched, and its toplevel
/// is awaited so that the saved pose and workspace can be applied.
#[derive(Debug)]
pub struct PendingReopen {
    pub app_id: String,
    pub transform: Transform3D,
    pub workspace: usize,
}

/// Bounded history of closed windows, most recent at the end.
#[derive(Debug)]
pub struct ClosedWindowHistory {
    entries: Vec<ClosedWindow>,
    cap: usize,
}

/// What the history holds, as a mathematical value.
#[verifier::ext_equal]
pub ghost struct ClosedModel {
    pub entries: Seq<ClosedWindow>,
    pub cap: nat,
}

impl View for ClosedWindowHistory {
    type V = ClosedModel;

    closed spec fn view(&self) -> ClosedModel {
        ClosedModel { entries: self.entries@, cap: self.cap as nat }
    }
}

impl ClosedModel {
    /// Within its capacity, which is at least one.
    pub open spec fn wf(self) -> bool {
        self.cap >= 1 && self.entries.len() <= self.cap
    }

    /// With one more window, the oldest dropped beyond the capacity.
    pub open spec fn recorded(self, window: ClosedWindow) -> ClosedModel {
        let all = self.entries.push(window);
        ClosedModel {
            entries: if all.len() > self.cap {
                all.skip(all.len() - self.cap)
            } else {
                all
            },
            ..self
        }
    }

    /// Without its most recent window.
    pub open spec fn taken(self) -> ClosedModel {
        if self.entries.len() == 0 {
            self
        } else {
            ClosedModel { entries: self.entries.drop_last(), ..self }
        }
    }
}

/// Position of the last entry of the application, or -1.
pub open spec fn last_for_app(s: Seq<ClosedWindow>, app_id: Seq<char>) -> int
    decreases s.len(),
{
    if s.len() == 0 {
        -1
    } else if s.last().app_id@ == app_id {
        s.len() - 1
    } else {
        last_for_app(s.drop_last(), app_id)
    }
}

impl ClosedWindowHistory {
    pub fn new(cap: usize) -> (r: Self)
        ensures
            r@.wf(),
            r@.entries.len() == 0,
            r@.cap == if cap < 1 {
                1
            } else {
                cap as nat
            },
    {
        ClosedWindowHistory {
            entries: Vec::new(),
            cap: if cap < 1 {
                1
            } else {
                cap
            },
        }
    }

    /// Record a closed window, trimming to the capacity (oldest dropped).
    pub fn record(&mut self, window: ClosedWindow)
        ensures
            final(self)@ == old(self)@.recorded(window),
    {
        self.entries.push(window);
        let total: usize = self.entries.len();
        let ghost all = self.entries@;
        assert(all =~= all.skip(0));
        let mut dropped: usize = 0;
        while self.entries.len() > self.cap
            invariant
                self.entries@ == all.skip(dropped as int),
                dropped <= all.len(),
                self.cap == old(self).cap,
                dropped > 0 ==> all.len() - dropped >= self.cap,
                all.len() == total,
            decreases self.entries@.len(),
        {
            self.entries.remove(0);
            dropped = dropped + 1;
            assert(self.entries@ =~= all.skip(dropped as int));
        }
    }

    /// Most recently closed window.
    pub fn most_recent(&self) -> (r: Option<&ClosedWindow>)
        ensures
            match r {
                Some(w) => self@.entries.len() > 0 && *w == self@.entries.last(),
                None => self@.entries.len() == 0,
            },
    {
        if self.entries.len() == 0 {
            None
        } else {
            Some(&self.entries[self.entries.len() - 1])
        }
    }

    /// Remove and return the most recently closed window.
    pub fn take_most_recent(&mut self) -> (r: Option<ClosedWindow>)
        ensures
            match r {
                Some(w) => old(self)@.entries.len() > 0 && w == old(self)@.entries.last(),
                None => old(self)@.entries.len() == 0,
            },
            final(self)@ == old(self)@.taken(),
    {
        self.entries.pop()
    }

    /// Most recently closed window for the given app id, if any.
    pub fn most_recent_for_app(&self, app_id: &str) -> (r: Option<&ClosedWindow>)
        ensures
            match r {
                Some(w) => last_for_app(self@.entries, app_id@) >= 0 && *w
                    == self@.entries[last_for_app(self@.entries, app_id@)],
                None => last_for_app(self@.entries, app_id@) == -1,
            },
    {
        let wanted = app_id.to_owned();
        let mut i: usize = self.entries.len();
        assert(self@.entries.take(i as int) =~= self@.entries);
        while i > 0
            invariant
                i <= self@.entries.len(),
                wanted@ == app_id@,
                self@.entries == self.entries@,
                last_for_app(self@.entries, app_id@) == last_for_app(
                    self@.entries.take(i as int),
                    app_id@,
                ),
            decreases i,
        {
            assert(self@.entries.take(i as int).last() == self@.entries[i - 1]);
            assert(self@.entries.take(i as int).drop_last() =~= self@.entries.take(i - 1));
            if self.entries[i - 1].app_id == wanted {
                return Some(&self.entries[i - 1]);
            }
            i = i - 1;
        }
        None
    }

    pub fn len(&self) -> (r: usize)
        ensures
            r == self@.entries.len(),
    {
        self.entries.len()
    }

    pub fn is_empty(&self) -> (r: bool)
        ensures
            r == (self@.entries.len() == 0),
    {
        self.entries.len() == 0
    }
}

/// The lower-case form of a text.
pub uninterp spec fn lowercased(s: Seq<char>) -> Seq<char>;

/// Calls `str::to_lowercase`. Trusted: the result is a function of the
/// text alone, named `lowercased`.
#[verifier::external_body]
pub(crate) fn to_lowercase(s: &str) -> (r: String)
    ensures
        r@ == lowercased(s@),
{
    s.to_lowercase()
}

/// What follows the last `c` in the text; the whole text when there is
/// none.
pub open spec fn after_last(s: Seq<char>, c: char) -> Seq<char>
    decreases s.len(),
{
    if s.len() == 0 {
        s
    } else if s.last() == c {
        Seq::empty()
    } else {
        after_last(s.drop_last(), c).push(s.last())
    }
}

proof fn lemma_after_last(s: Seq<char>, c: char, i: int)
    requires
        0 <= i <= s.len(),
        i > 0 ==> s[i - 1] == c,
        forall|j: int| i <= j < s.len() ==> s[j] != c,
    ensures
        after_last(s, c) == s.skip(i),
    decreases s.len(),
{
    if s.len() > i {
        lemma_after_last(s.drop_last(), c, i);
        assert(s.drop_last().skip(i).push(s.last()) =~= s.skip(i));
    } else if s.len() > 0 {
        assert(s.last() == s[i - 1]);
        assert(s.skip(i) =~= Seq::empty());
    } else {
        assert(s.skip(i) =~= s);
    }
}

/// What follows the last `c`.
pub fn tail_after(s: &str, c: char) -> (r: String)
    ensures
        r@ == after_last(s@, c),
{
    let n: usize = s.unicode_len();
    let mut i: usize = n;
    while i > 0
        invariant
            i <= n,
            n == s@.len(),
            forall|j: int| i <= j < n ==> s@[j] != c,
        decreases i,
    {
        if s.get_char(i - 1) == c {
            proof {
                lemma_after_last(s@, c, i as int);
            }
            return s.substring_char(i, n).to_owned();
        }
        i = i - 1;
    }
    proof {
        lemma_after_last(s@, c, 0);
        assert(s@.skip(0) =~= s@);
    }
    s.to_owned()
}

/// Whether a lower-cased app id names a launcher entry: it equals the
/// entry's name, the basename of its command, or the last dot-separated
/// part of that basename.
pub open spec fn lowercased_match(
    app: Seq<char>,
    entry_app_id: Seq<char>,
    entry_name: Option<Seq<char>>,
) -> bool {
    ||| entry_name == Some(app)
    ||| after_last(entry_app_id, '/') == app
    ||| after_last(after_last(entry_app_id, '/'), '.') == app
}

/// Matches texts that are lower-cased already. An entry without a name
/// gives none.
pub fn matches_lowercased(app: &String, entry_app_id: &String, entry_name: Option<&String>) -> (r:
    bool)
    ensures
        r == lowercased_match(
            app@,
            entry_app_id@,
            match entry_name {
                Some(n) => Some(n@),
                None => None,
            },
        ),
{
    if let Some(name) = entry_name {
        if *app == *name {
            return true;
        }
    }
    let base = tail_after(entry_app_id.as_str(), '/');
    if base == *app {
        return true;
    }
    let short = tail_after(base.as_str(), '.');
    short == *app
}

/// The app id of a closed window names the launcher entry.
pub open spec fn entry_matches(
    app_id: Seq<char>,
    entry_app_id: Seq<char>,
    entry_name: Seq<char>,
) -> bool {
    &&& app_id.len() > 0
    &&& entry_app_id.len() > 0
    &&& lowercased_match(
        lowercased(app_id),
        lowercased(entry_app_id),
        if entry_name.len() > 0 {
            Some(lowercased(entry_name))
        } else {
            None
        },
    )
}

/// Whether a closed window's app id corresponds to a launcher entry.
/// Matching ignores case and accepts the entry's name, the basename of
/// its command, or the last dot-separated part of that basename. Empty
/// ids never match.
pub fn app_id_matches_entry(app_id: &str, entry_app_id: &str, entry_name: &str) -> (r: bool)
    ensures
        r == entry_matches(app_id@, entry_app_id@, entry_name@),
{
    if app_id.is_empty() || entry_app_id.is_empty() {
        return false;
    }
    let app = to_lowercase(app_id);
    let entry = to_lowercase(entry_app_id);
    if entry_name.is_empty() {
        matches_lowercased(&app, &entry, None)
    } else {
        let name = to_lowercase(entry_name);
        matches_lowercased(&app, &entry, Some(&name))
    }
}

/// A recorded window is the most recent one, and taking it back leaves
/// the history as a window too many found it: what fitted before is
/// still there.
pub proof fn law_recorded_window_comes_back_first(m: ClosedModel, w: ClosedWindow)
    requires
        m.wf(),
    ensures
        m.recorded(w).wf(),
        m.recorded(w).entries.last() == w,
        m.entries.len() < m.cap ==> m.recorded(w).taken() == m,
        m.entries.len() == m.cap ==> m.recorded(w).taken().entries == m.entries.drop_first(),
{
    let all = m.entries.push(w);
    if m.entries.len() < m.cap {
        assert(all.drop_last() =~= m.entries);
    } else {
        assert(all.skip(1).drop_last() =~= m.entries.drop_first());
    }
}

/// The window to reopen for an application is the last of its windows to
/// have closed.
pub proof fn law_last_window_of_an_application(s: Seq<ClosedWindow>, app_id: Seq<char>, k: int)
    requires
        -1 <= k < s.len(),
        k >= 0 ==> s[k].app_id@ == app_id,
        forall|j: int| k < j < s.len() ==> (#[trigger] s[j]).app_id@ != app_id,
    ensures
        last_for_app(s, app_id) == k,
    decreases s.len(),
{
    if s.len() > 0 && k < s.len() - 1 {
        assert(s[s.len() - 1].app_id@ != app_id);
        let rest = s.drop_last();
        assert forall|j: int| k < j < rest.len() implies (#[trigger] rest[j]).app_id@ != app_id by {
            assert(rest[j] == s[j]);
        }
        law_last_window_of_an_application(rest, app_id, k);
    }
}

/// The last part of a text is what has no separator in it and follows one
/// or is the whole text.
pub proof fn law_last_part_of_a_text(head: Seq<char>, tail: Seq<char>, c: char)
    requires
        !tail.contains(c),
    ensures
        after_last(head.push(c) + tail, c) == tail,
        after_last(tail, c) == tail,
{
    let s = head.push(c) + tail;
    assert forall|j: int| head.len() + 1 <= j < s.len() implies s[j] != c by {
        assert(s[j] == tail[j - head.len() - 1]);
    }
    lemma_after_last(s, c, head.len() as int + 1);
    assert(s.skip(head.len() as int + 1) =~= tail);
    assert forall|j: int| 0 <= j < tail.len() implies tail[j] != c by {
        assert(tail.contains(tail[j]));
    }
    lemma_after_last(tail, c, 0);
    assert(tail.skip(0) =~= tail);
}

/// An application goes by the name of its entry, by the last part of the
/// entry's path, and by what follows the last dot there; an entry or a
/// window without an id matches nothing.
pub proof fn law_entry_goes_by_its_names(
    app: Seq<char>,
    entry: Seq<char>,
    name: Seq<char>,
    dir: Seq<char>,
    base: Seq<char>,
    domain: Seq<char>,
    short: Seq<char>,
)
    requires
        app.len() > 0,
        entry.len() > 0,
    ensures
        name.len() > 0 && lowercased(name) == lowercased(app) ==> entry_matches(app, entry, name),
        lowercased(entry) == dir.push('/') + base && !base.contains('/') && lowercased(app)
            == base ==> entry_matches(app, entry, name),
        lowercased(entry) == dir.push('/') + (domain.push('.') + short) && !(domain.push('.')
            + short).contains('/') && !short.contains('.') && lowercased(app) == short
            ==> entry_matches(app, entry, name),
        !entry_matches(Seq::empty(), entry, name),
        !entry_matches(app, Seq::empty(), name),
{
    if !base.contains('/') {
        law_last_part_of_a_text(dir, base, '/');
    }
    let tail = domain.push('.') + short;
    if !tail.contains('/') {
        law_last_part_of_a_text(dir, tail, '/');
    }
    if !short.contains('.') {
        law_last_part_of_a_text(domain, short, '.');
    }
}

} // verus!
