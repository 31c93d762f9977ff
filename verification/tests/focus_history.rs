use std::cell::RefCell;

use veyra::focus_history::FocusHistory;
use veyra::scene::VisualId;

/// The acceptance sequence, end to end:
///
/// A → B → C (mapped+focused in order)
/// focus B → MRU = B, C, A
/// focus A → MRU = A, B, C
/// minimize A → focused = B, MRU = B, C
/// restore A, focus A → MRU = A, B, C
/// destroy B → MRU = A, C
#[test]
fn j1_acceptance_sequence() {
    let a = VisualId(1);
    let b = VisualId(2);
    let c = VisualId(3);
    let mut mru = FocusHistory::new();
    let minimized: RefCell<Vec<VisualId>> = RefCell::new(Vec::new());
    let focusable = |v: VisualId| !minimized.borrow().contains(&v);

    // A → B → C: three focus transitions in creation order
    mru.touch(a);
    mru.touch(b);
    mru.touch(c);
    assert_eq!(mru.order(), &[c, b, a]);

    // focus B
    mru.touch(b);
    assert_eq!(mru.order(), &[b, c, a]);

    // focus A
    mru.touch(a);
    assert_eq!(mru.order(), &[a, b, c]);

    // minimize A: focused replacement must be B (most recent other).
    // The minimized window leaves the history immediately.
    minimized.borrow_mut().push(a);
    mru.remove(a);
    assert_eq!(mru.order(), &[b, c]);
    let replacement = mru.focus_replacement(Some(a), &focusable);
    assert_eq!(replacement, Some(b));

    // restore A + focus A
    minimized.borrow_mut().retain(|v| *v != a);
    mru.touch(a);
    assert_eq!(mru.order(), &[a, b, c]);

    // destroy B
    mru.remove(b);
    assert_eq!(mru.order(), &[a, c]);
}

#[test]
fn alt_tab_wraps_and_skips_minimized() {
    let a = VisualId(1);
    let b = VisualId(2);
    let c = VisualId(3);
    let mut mru = FocusHistory::new();
    mru.touch(a);
    mru.touch(b);
    mru.touch(c); // MRU = [c, b, a]; focused = c

    // next after c = b
    assert_eq!(mru.next_after(Some(c), &|_v| true), Some(b));
    // previous before c = a
    assert_eq!(mru.previous_before(Some(c), &|_v| true), Some(a));

    // minimize b: Alt+Tab from c skips b and lands on a
    let focusable = |v: VisualId| v != b;
    assert_eq!(mru.next_after(Some(c), &focusable), Some(a));
}

#[test]
fn popups_and_externals_are_not_registered() {
    // Registration is the compositor's job (only toplevels get
    // touched); this documents the guarantee: a vid never touched
    // can never be returned.
    let mru = FocusHistory::new();
    assert!(mru.next_after(Some(VisualId(9)), &|_v| true).is_none());
    assert!(mru.focus_replacement(None, &|_v| true).is_none());
}

#[test]
fn stale_current_falls_back_to_extremes() {
    let a = VisualId(1);
    let b = VisualId(2);
    let c = VisualId(3);
    let mut mru = FocusHistory::new();
    mru.touch(a);
    mru.touch(b);
    mru.touch(c);
    // current already destroyed: next scans from the most recent,
    // previous scans from the least recent (the anchor is gone, so
    // both degrade to deterministic extremes of the MRU order).
    let gone = VisualId(99);
    assert_eq!(mru.next_after(Some(gone), &|_v| true), Some(c));
    assert_eq!(mru.previous_before(Some(gone), &|_v| true), Some(a));
}

#[test]
fn single_window_cycles_to_none() {
    let mut mru = FocusHistory::new();
    let a = VisualId(1);
    mru.touch(a);
    // Nothing else to focus: cycling keeps the window focused, no
    // bogus wrap to itself is returned.
    assert_eq!(mru.next_after(Some(a), &|_v| true), None);
    assert_eq!(mru.previous_before(Some(a), &|_v| true), None);
}

#[test]
fn replacement_excludes_the_dead_window() {
    let a = VisualId(1);
    let b = VisualId(2);
    let mut mru = FocusHistory::new();
    mru.touch(a);
    mru.touch(b); // focused = b, MRU = [b, a]
    // b destroyed: replacement for b is a, never b itself
    assert_eq!(mru.focus_replacement(Some(b), &|_v| true), Some(a));
}

#[test]
fn replacement_is_the_most_recent_other_window() {
    let mut mru = FocusHistory::new();
    for id in [1, 2, 3] {
        mru.touch(VisualId(id)); // MRU = [3, 2, 1]
    }
    let any = |_v: VisualId| true;
    assert_eq!(mru.focus_replacement(Some(VisualId(2)), &any), Some(VisualId(3)));
    assert_eq!(mru.focus_replacement(Some(VisualId(3)), &any), Some(VisualId(2)));
    assert_eq!(mru.focus_replacement(None, &any), Some(VisualId(3)));
    let old = |v: VisualId| v == VisualId(1);
    assert_eq!(mru.focus_replacement(Some(VisualId(2)), &old), Some(VisualId(1)));
    assert_eq!(mru.focus_replacement(Some(VisualId(1)), &old), None);
}
