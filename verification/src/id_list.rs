//! Ordered lists of visual ids: membership, removal and insertion that
//! keep the order of everything else.
use vstd::prelude::*;

use crate::scene::VisualId;

verus! {

/// The list with every occurrence of `v` dropped; the rest keeps its order.
pub open spec fn without(s: Seq<VisualId>, v: VisualId) -> Seq<VisualId> {
    s.filter(|x: VisualId| x != v)
}

/// The list with `v` appended unless it is already a member.
pub open spec fn with_member(s: Seq<VisualId>, v: VisualId) -> Seq<VisualId> {
    if s.contains(v) {
        s
    } else {
        s.push(v)
    }
}

/// Removing `v` leaves exactly the other members.
pub proof fn lemma_without_members(s: Seq<VisualId>, v: VisualId)
    ensures
        forall|x: VisualId| #[trigger]
            without(s, v).contains(x) <==> s.contains(x) && x != v,
    decreases s.len(),
{
    reveal(Seq::filter);
    if s.len() > 0 {
        let rest = s.drop_last();
        lemma_without_members(rest, v);
        assert forall|x: VisualId| #[trigger] without(s, v).contains(x) <==> s.contains(x) && x
            != v by {
            assert(without(rest, v).contains(x) <==> rest.contains(x) && x != v);
            assert(s.contains(x) <==> rest.contains(x) || x == s.last()) by {
                if s.contains(x) {
                    let i = choose|i: int| 0 <= i < s.len() && s[i] == x;
                    if i < s.len() - 1 {
                        assert(rest[i] == x);
                    }
                }
                if rest.contains(x) {
                    let i = choose|i: int| 0 <= i < rest.len() && rest[i] == x;
                    assert(s[i] == x);
                }
                if x == s.last() {
                    assert(s[s.len() - 1] == x);
                }
            }
            if s.last() != v {
                let w = without(rest, v);
                assert(without(s, v) == w.push(s.last()));
                if w.contains(x) {
                    let i = choose|i: int| 0 <= i < w.len() && w[i] == x;
                    assert(w.push(s.last())[i] == x);
                }
                if w.push(s.last()).contains(x) {
                    let i = choose|i: int| 0 <= i < w.len() + 1 && w.push(s.last())[i] == x;
                    if i < w.len() {
                        assert(w[i] == x);
                    }
                }
                assert(w.push(s.last())[w.len() as int] == s.last());
            }
        }
    }
}

/// Removing `v` keeps a list free of repetitions.
pub proof fn lemma_without_no_duplicates(s: Seq<VisualId>, v: VisualId)
    requires
        s.no_duplicates(),
    ensures
        without(s, v).no_duplicates(),
    decreases s.len(),
{
    reveal(Seq::filter);
    if s.len() > 0 {
        let rest = s.drop_last();
        assert(rest.no_duplicates());
        lemma_without_no_duplicates(rest, v);
        lemma_without_members(rest, v);
        if s.last() != v {
            let w = without(rest, v);
            assert(!rest.contains(s.last()));
            assert(!w.contains(s.last()));
            assert forall|i: int, j: int|
                0 <= i < w.len() + 1 && 0 <= j < w.len() + 1 && i != j implies w.push(
                s.last(),
            )[i] != w.push(s.last())[j] by {
                if i < w.len() && j < w.len() {
                } else if i < w.len() {
                    assert(w.contains(w[i]));
                } else {
                    assert(w.contains(w[j]));
                }
            }
        }
    }
}

/// Whether `v` is in the list.
pub fn contains_id(ids: &Vec<VisualId>, v: VisualId) -> (r: bool)
    ensures
        r == ids@.contains(v),
{
    let mut i: usize = 0;
    while i < ids.len()
        invariant
            i <= ids@.len(),
            forall|j: int| 0 <= j < i ==> ids@[j] != v,
        decreases ids@.len() - i,
    {
        if ids[i] == v {
            assert(ids@[i as int] == v);
            return true;
        }
        i = i + 1;
    }
    false
}

/// Drops every occurrence of `v`.
pub fn remove_id(ids: &mut Vec<VisualId>, v: VisualId)
    ensures
        final(ids)@ == without(old(ids)@, v),
{
    let mut kept: Vec<VisualId> = Vec::new();
    let mut i: usize = 0;
    let ghost s = ids@;
    while i < ids.len()
        invariant
            i <= ids@.len(),
            ids@ == s,
            kept@ == without(s.take(i as int), v),
        decreases ids@.len() - i,
    {
        let x = ids[i];
        proof {
            reveal(Seq::filter);
            assert(s.take(i + 1).drop_last() =~= s.take(i as int));
            assert(s.take(i + 1).last() == x);
        }
        if x != v {
            kept.push(x);
        }
        i = i + 1;
    }
    proof {
        assert(s.take(i as int) =~= s);
    }
    *ids = kept;
}

/// Appends `v` unless it is already a member.
pub fn add_id(ids: &mut Vec<VisualId>, v: VisualId)
    ensures
        final(ids)@ == with_member(old(ids)@, v),
{
    if !contains_id(ids, v) {
        ids.push(v);
    }
}

/// A copy of the list.
pub fn copy_ids(ids: &Vec<VisualId>) -> (r: Vec<VisualId>)
    ensures
        r@ == ids@,
{
    let mut out: Vec<VisualId> = Vec::new();
    let mut i: usize = 0;
    while i < ids.len()
        invariant
            i <= ids@.len(),
            out@ == ids@.take(i as int),
        decreases ids@.len() - i,
    {
        out.push(ids[i]);
        i = i + 1;
        assert(out@ =~= ids@.take(i as int));
    }
    assert(ids@.take(i as int) =~= ids@);
    out
}

} // verus!
