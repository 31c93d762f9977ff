//! Small lookup tables between visuals and surfaces.
use vstd::prelude::*;

verus! {

/// Rows of a key and a value, no key twice. Keys and values are the
/// numbers behind visual and surface ids.
#[derive(Debug)]
pub struct Table {
    rows: Vec<(u64, u64)>,
}

impl View for Table {
    type V = Seq<(u64, u64)>;

    closed spec fn view(&self) -> Seq<(u64, u64)> {
        self.rows@
    }
}

/// Position of the first row with this key, or the length.
pub open spec fn key_index(s: Seq<(u64, u64)>, k: u64) -> int
    decreases s.len(),
{
    if s.len() == 0 || s[0].0 == k {
        0
    } else {
        1 + key_index(s.drop_first(), k)
    }
}

/// Position of the first row with this value, or the length.
pub open spec fn value_index(s: Seq<(u64, u64)>, v: u64) -> int
    decreases s.len(),
{
    if s.len() == 0 || s[0].1 == v {
        0
    } else {
        1 + value_index(s.drop_first(), v)
    }
}

/// The value of a key.
pub open spec fn value_of(s: Seq<(u64, u64)>, k: u64) -> Option<u64> {
    let i = key_index(s, k);
    if i < s.len() {
        Some(s[i].1)
    } else {
        None
    }
}

/// The first key that has this value.
pub open spec fn key_of(s: Seq<(u64, u64)>, v: u64) -> Option<u64> {
    let i = value_index(s, v);
    if i < s.len() {
        Some(s[i].0)
    } else {
        None
    }
}

/// Rows with another key.
pub open spec fn keyed_otherwise(k: u64) -> spec_fn((u64, u64)) -> bool {
    |r: (u64, u64)| r.0 != k
}

/// Rows with this value.
pub open spec fn valued(v: u64) -> spec_fn((u64, u64)) -> bool {
    |r: (u64, u64)| r.1 == v
}

/// The table without a key.
pub open spec fn dropped(s: Seq<(u64, u64)>, k: u64) -> Seq<(u64, u64)> {
    s.filter(keyed_otherwise(k))
}

/// The table with a key set to a value.
pub open spec fn bound(s: Seq<(u64, u64)>, k: u64, v: u64) -> Seq<(u64, u64)> {
    dropped(s, k).push((k, v))
}

/// The keys that have this value.
pub open spec fn keys_of(s: Seq<(u64, u64)>, v: u64) -> Seq<u64> {
    s.filter(valued(v)).map_values(|r: (u64, u64)| r.0)
}

/// The values, row by row.
pub open spec fn values(s: Seq<(u64, u64)>) -> Seq<u64> {
    s.map_values(|r: (u64, u64)| r.1)
}

/// The value of a key is among the values.
pub proof fn lemma_value_is_listed(s: Seq<(u64, u64)>, k: u64)
    ensures
        value_of(s, k) matches Some(v) ==> values(s).contains(v),
{
    lemma_key_index_bounds(s, k);
    let i = key_index(s, k);
    if i < s.len() {
        assert(values(s)[i] == s[i].1);
    }
}

pub proof fn lemma_key_index(s: Seq<(u64, u64)>, k: u64, i: int)
    requires
        0 <= i <= s.len(),
        forall|j: int| 0 <= j < i ==> (#[trigger] s[j]).0 != k,
        i < s.len() ==> s[i].0 == k,
    ensures
        key_index(s, k) == i,
    decreases s.len(),
{
    if i > 0 {
        assert(s[0].0 != k);
        let rest = s.drop_first();
        assert forall|j: int| 0 <= j < i - 1 implies (#[trigger] rest[j]).0 != k by {
            assert(rest[j] == s[j + 1]);
        }
        lemma_key_index(rest, k, i - 1);
    }
}

pub proof fn lemma_key_index_bounds(s: Seq<(u64, u64)>, k: u64)
    ensures
        0 <= key_index(s, k) <= s.len(),
        key_index(s, k) < s.len() ==> s[key_index(s, k)].0 == k,
        forall|j: int| 0 <= j < key_index(s, k) ==> (#[trigger] s[j]).0 != k,
    decreases s.len(),
{
    if s.len() > 0 && s[0].0 != k {
        let rest = s.drop_first();
        lemma_key_index_bounds(rest, k);
        assert forall|j: int| 0 <= j < key_index(s, k) implies (#[trigger] s[j]).0 != k by {
            if j > 0 {
                assert(s[j] == rest[j - 1]);
            }
        }
    }
}

pub proof fn lemma_value_index(s: Seq<(u64, u64)>, v: u64, i: int)
    requires
        0 <= i <= s.len(),
        forall|j: int| 0 <= j < i ==> (#[trigger] s[j]).1 != v,
        i < s.len() ==> s[i].1 == v,
    ensures
        value_index(s, v) == i,
    decreases s.len(),
{
    if i > 0 {
        assert(s[0].1 != v);
        let rest = s.drop_first();
        assert forall|j: int| 0 <= j < i - 1 implies (#[trigger] rest[j]).1 != v by {
            assert(rest[j] == s[j + 1]);
        }
        lemma_value_index(rest, v, i - 1);
    }
}

/// Looking up a key after setting it gives the value; other keys keep
/// theirs.
pub proof fn law_bound_key_is_found(s: Seq<(u64, u64)>, k: u64, v: u64, other: u64)
    ensures
        value_of(bound(s, k, v), k) == Some(v),
        other != k ==> value_of(bound(s, k, v), other) == value_of(s, other),
{
    law_dropped_key_is_gone(s, k, other);
    let d = dropped(s, k);
    let b = bound(s, k, v);
    lemma_key_index_bounds(d, k);
    lemma_key_index_bounds(d, other);
    assert forall|j: int| 0 <= j < d.len() implies (#[trigger] b[j]).0 != k by {
        assert(b[j] == d[j]);
    }
    lemma_key_index(b, k, d.len() as int);
    if other != k {
        let o = key_index(d, other);
        if o < d.len() {
            lemma_key_index(b, other, o);
        } else {
            assert forall|j: int| 0 <= j < b.len() implies (#[trigger] b[j]).0 != other by {
                if j < d.len() {
                    assert(b[j] == d[j]);
                }
            }
            lemma_key_index(b, other, b.len() as int);
        }
    }
}

/// A dropped key is not found; other keys keep their values.
pub proof fn law_dropped_key_is_gone(s: Seq<(u64, u64)>, k: u64, other: u64)
    ensures
        value_of(dropped(s, k), k) is None,
        other != k ==> value_of(dropped(s, k), other) == value_of(s, other),
        forall|j: int| 0 <= j < dropped(s, k).len() ==> (#[trigger] dropped(s, k)[j]).0 != k,
    decreases s.len(),
{
    reveal(Seq::filter);
    if s.len() > 0 {
        let rest = s.drop_last();
        law_dropped_key_is_gone(rest, k, other);
        let d = dropped(rest, k);
        let r = dropped(s, k);
        assert(r == if s.last().0 != k {
            d.push(s.last())
        } else {
            d
        });
        lemma_key_index_bounds(d, other);
        lemma_key_index_bounds(rest, other);
        assert forall|j: int| 0 <= j < r.len() implies (#[trigger] r[j]).0 != k by {
            if j < d.len() {
                assert(r[j] == d[j]);
            }
        }
        lemma_key_index(r, k, r.len() as int);
        if other != k {
            let o = key_index(rest, other);
            let p = key_index(d, other);
            assert forall|j: int| 0 <= j < o implies (#[trigger] s[j]).0 != other by {
                assert(s[j] == rest[j]);
            }
            if o < rest.len() {
                lemma_key_index(s, other, o);
                lemma_key_index(r, other, p);
            } else if s.last().0 == other {
                lemma_key_index(s, other, rest.len() as int);
                lemma_key_index(r, other, d.len() as int);
            } else {
                assert forall|j: int| 0 <= j < s.len() implies (#[trigger] s[j]).0 != other by {
                    if j < rest.len() {
                        assert(s[j] == rest[j]);
                    }
                }
                lemma_key_index(s, other, s.len() as int);
                assert forall|j: int| 0 <= j < r.len() implies (#[trigger] r[j]).0 != other by {
                    if j < d.len() {
                        assert(r[j] == d[j]);
                    }
                }
                lemma_key_index(r, other, r.len() as int);
            }
        }
    } else {
        assert(dropped(s, k) =~= s);
    }
}

impl Table {
    pub fn new() -> (r: Self)
        ensures
            r@ == Seq::<(u64, u64)>::empty(),
    {
        Table { rows: Vec::new() }
    }

    pub fn get(&self, k: u64) -> (r: Option<u64>)
        ensures
            r == value_of(self@, k),
    {
        let mut i: usize = 0;
        while i < self.rows.len()
            invariant
                i <= self.rows@.len(),
                forall|j: int| 0 <= j < i ==> (#[trigger] self.rows@[j]).0 != k,
            decreases self.rows@.len() - i,
        {
            if self.rows[i].0 == k {
                proof {
                    lemma_key_index(self@, k, i as int);
                }
                return Some(self.rows[i].1);
            }
            i = i + 1;
        }
        proof {
            lemma_key_index(self@, k, i as int);
        }
        None
    }

    /// The first key that has this value.
    pub fn find(&self, v: u64) -> (r: Option<u64>)
        ensures
            r == key_of(self@, v),
    {
        let mut i: usize = 0;
        while i < self.rows.len()
            invariant
                i <= self.rows@.len(),
                forall|j: int| 0 <= j < i ==> (#[trigger] self.rows@[j]).1 != v,
            decreases self.rows@.len() - i,
        {
            if self.rows[i].1 == v {
                proof {
                    lemma_value_index(self@, v, i as int);
                }
                return Some(self.rows[i].0);
            }
            i = i + 1;
        }
        proof {
            lemma_value_index(self@, v, i as int);
        }
        None
    }

    pub fn remove(&mut self, k: u64)
        ensures
            final(self)@ == dropped(old(self)@, k),
    {
        let ghost s = self.rows@;
        let ghost p = keyed_otherwise(k);
        let mut kept: Vec<(u64, u64)> = Vec::new();
        let mut i: usize = 0;
        while i < self.rows.len()
            invariant
                i <= self.rows@.len(),
                self.rows@ == s,
                p == keyed_otherwise(k),
                kept@ == s.take(i as int).filter(p),
            decreases self.rows@.len() - i,
        {
            let r = self.rows[i];
            proof {
                reveal(Seq::filter);
                assert(s.take(i + 1).drop_last() =~= s.take(i as int));
                assert(s.take(i + 1).last() == r);
            }
            if r.0 != k {
                kept.push(r);
            }
            i = i + 1;
        }
        assert(s.take(i as int) =~= s);
        self.rows = kept;
    }

    pub fn insert(&mut self, k: u64, v: u64)
        ensures
            final(self)@ == bound(old(self)@, k, v),
    {
        self.remove(k);
        self.rows.push((k, v));
    }

    /// The keys that have this value.
    pub fn keys_with(&self, v: u64) -> (r: Vec<u64>)
        ensures
            r@ == keys_of(self@, v),
    {
        let ghost s = self.rows@;
        let ghost p = valued(v);
        let ghost f = |r: (u64, u64)| r.0;
        let mut out: Vec<u64> = Vec::new();
        let mut i: usize = 0;
        while i < self.rows.len()
            invariant
                i <= self.rows@.len(),
                self.rows@ == s,
                p == valued(v),
                f == (|r: (u64, u64)| r.0),
                out@ == s.take(i as int).filter(p).map_values(f),
            decreases self.rows@.len() - i,
        {
            let r = self.rows[i];
            proof {
                reveal(Seq::filter);
                assert(s.take(i + 1).drop_last() =~= s.take(i as int));
                assert(s.take(i + 1).last() == r);
            }
            let ghost before = s.take(i as int).filter(p);
            if r.1 == v {
                out.push(r.0);
                assert(before.push(r).map_values(f) =~= before.map_values(f).push(r.0));
            }
            i = i + 1;
        }
        assert(s.take(i as int) =~= s);
        out
    }

    /// The values, row by row.
    pub fn values(&self) -> (r: Vec<u64>)
        ensures
            r@ == values(self@),
    {
        let mut out: Vec<u64> = Vec::new();
        let mut i: usize = 0;
        while i < self.rows.len()
            invariant
                i <= self.rows@.len(),
                out@ == values(self@.take(i as int)),
            decreases self.rows@.len() - i,
        {
            out.push(self.rows[i].1);
            assert(out@ =~= values(self@.take(i + 1)));
            i = i + 1;
        }
        assert(self@.take(i as int) =~= self@);
        out
    }
}

} // verus!
