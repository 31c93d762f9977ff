use std::collections::VecDeque;

use veyra::compositor::ledger::{
    ledger_contains, ledger_push, ClientLedger, SelectionTarget, INPUT_SERIAL_LEDGER_CAP,
};
use veyra::table::Table;

fn q(items: &[u32]) -> VecDeque<u32> {
    items.iter().copied().collect()
}

#[test]
fn ledger_skips_serial_zero() {
    let mut l = VecDeque::new();
    ledger_push(&mut l, 0);
    assert!(l.is_empty());
    assert!(!ledger_contains(Some(&l), 0));
}

#[test]
fn ledger_caps_at_limit_dropping_oldest() {
    let mut l = VecDeque::new();
    for s in 1..=(INPUT_SERIAL_LEDGER_CAP as u32 + 5) {
        ledger_push(&mut l, s);
    }
    assert_eq!(l.len(), INPUT_SERIAL_LEDGER_CAP);
    assert!(ledger_contains(Some(&l), INPUT_SERIAL_LEDGER_CAP as u32 + 5));
    assert!(!ledger_contains(Some(&l), 1));
}

#[test]
fn ledger_rejects_unknown_and_empty() {
    assert!(!ledger_contains(None, 7));
    assert!(!ledger_contains(Some(&q(&[1, 2, 3])), 9));
    assert!(ledger_contains(Some(&q(&[1, 2, 3])), 2));
}

#[test]
fn ledger_survives_window_wraparound() {
    let mut l = VecDeque::new();
    ledger_push(&mut l, u32::MAX - 2);
    ledger_push(&mut l, 4);
    assert!(ledger_contains(Some(&l), u32::MAX - 2));
    assert!(ledger_contains(Some(&l), 4));
}

#[test]
fn each_client_vouches_for_its_own_events() {
    let mut l = ClientLedger::new();
    l.record_input_serial(1, 10);
    l.record_input_serial(2, 20);
    assert!(l.vouches_for(1, 10));
    assert!(!l.vouches_for(1, 20));
    assert!(!l.vouches_for(2, 10));
    assert!(!l.vouches_for(3, 10));
}

#[test]
fn a_client_that_left_vouches_for_nothing() {
    let mut l = ClientLedger::new();
    l.record_input_serial(1, 10);
    l.record_input_serial(2, 20);
    l.disconnected(1);
    assert!(!l.vouches_for(1, 10));
    assert!(l.vouches_for(2, 20));
}

#[test]
fn a_refresh_is_asked_for_once() {
    let mut l = ClientLedger::new();
    l.new_selection(SelectionTarget::Clipboard, true);
    let _ = l.take_refresh();
    assert!(!l.take_refresh());
}

#[test]
fn a_selection_whose_owner_left_is_offered_anew() {
    let mut l = ClientLedger::new();
    l.update_data_device_focus(Some(3));
    l.new_selection(SelectionTarget::Clipboard, true);
    l.update_data_device_focus(Some(4));
    l.new_selection(SelectionTarget::Primary, true);
    assert_eq!(l.clipboard_owner, Some(3));
    assert_eq!(l.primary_owner, Some(4));
    l.disconnected(5);
    assert!(!l.refresh_pending);
    l.disconnected(3);
    assert!(l.refresh_pending);
    assert_eq!(l.clipboard_owner, None);
    assert_eq!(l.primary_owner, Some(4));
}

#[test]
fn a_table_keeps_one_value_for_each_key() {
    let mut t = Table::new();
    t.insert(1, 10);
    t.insert(2, 20);
    t.insert(1, 20);
    assert_eq!(t.get(1), Some(20));
    assert_eq!(t.find(10), None);
    assert_eq!(t.keys_with(20).len(), 2);
    assert_eq!(t.values(), vec![20, 20]);
    t.remove(1);
    assert_eq!(t.get(1), None);
    assert_eq!(t.get(2), Some(20));
    assert_eq!(t.find(20), Some(2));
}
