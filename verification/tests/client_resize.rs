use veyra::client_resize::{ClientResizeCoordinator, CommitOutcome, Serial};
use veyra::scene::VisualId;

fn vid(n: u64) -> VisualId {
    VisualId(n)
}

#[test]
fn configure_ack_matching_buffer_is_fulfilled() {
    let mut c = ClientResizeCoordinator::default();
    let v = vid(1);
    assert!(!c.awaiting_ack(v));
    c.mark_sent(v, Serial::from(10u32), (800, 600));
    assert!(c.awaiting_ack(v));
    assert!(c.note_ack(Serial::from(10u32)), "ack marks the request");
    assert!(!c.awaiting_ack(v), "acked — new configures may be sent");
    assert_eq!(c.note_commit(v, (800, 600)), CommitOutcome::Fulfilled);
    assert!(c.is_empty(), "request cleared after commit");
}

#[test]
fn wrong_sized_buffer_means_client_wins() {
    let mut c = ClientResizeCoordinator::default();
    let v = vid(1);
    c.mark_sent(v, Serial::from(11u32), (800, 600));
    c.note_ack(Serial::from(11u32));
    // Client commits a size we did not request (or an old buffer).
    assert_eq!(c.note_commit(v, (640, 480)), CommitOutcome::ClientOverride);
    assert!(c.is_empty(), "override abandons the request");
    // The coordinator never stores a size to enforce afterwards.
}

#[test]
fn no_duplicate_configure_while_unacked() {
    let mut c = ClientResizeCoordinator::default();
    let v = vid(1);
    c.mark_sent(v, Serial::from(12u32), (800, 600));
    assert!(
        c.awaiting_ack(v),
        "second motion must not produce another configure"
    );
    // Even a second mark_sent for the same visual replaces, never queues.
    c.mark_sent(v, Serial::from(13u32), (900, 700));
    assert_eq!(c.entry(v).map(|e| e.serial), Some(Serial::from(13u32)));
    assert_eq!(c.entries_len(), 1);
}

#[test]
fn ack_for_older_serial_does_not_complete_current_request() {
    let mut c = ClientResizeCoordinator::default();
    let v = vid(1);
    // An older configure was outstanding and then superseded.
    c.mark_sent(v, Serial::from(20u32), (700, 500));
    c.mark_sent(v, Serial::from(21u32), (800, 600));
    assert!(!c.note_ack(Serial::from(20u32)), "stale ack ignored");
    assert!(c.awaiting_ack(v), "current request still outstanding");
    assert!(c.note_ack(Serial::from(21u32)));
    assert!(!c.awaiting_ack(v));
}

#[test]
fn request_survives_multiple_commit_cycles() {
    let mut c = ClientResizeCoordinator::default();
    let v = vid(1);

    // Cycle 1: request 800x600, ack, commit.
    c.mark_sent(v, Serial::from(30u32), (800, 600));
    c.note_ack(Serial::from(30u32));
    assert_eq!(c.note_commit(v, (800, 600)), CommitOutcome::Fulfilled);

    // Cycle 2: a new request with a new serial works independently.
    c.mark_sent(v, Serial::from(31u32), (1000, 700));
    assert!(c.awaiting_ack(v));
    c.note_ack(Serial::from(31u32));
    assert_eq!(c.note_commit(v, (1000, 700)), CommitOutcome::Fulfilled);
    assert!(c.is_empty());
}

#[test]
fn pointer_release_while_configure_outstanding_aborts() {
    let mut c = ClientResizeCoordinator::default();
    let v = vid(1);
    c.mark_sent(v, Serial::from(40u32), (800, 600));
    assert!(c.abort(v), "outstanding request dropped");
    assert!(c.is_empty());
    // A late ack/commit afterwards touches nothing.
    assert!(!c.note_ack(Serial::from(40u32)));
    assert_eq!(c.note_commit(v, (800, 600)), CommitOutcome::NotResizing);
}

#[test]
fn surface_destruction_while_configure_outstanding() {
    let mut c = ClientResizeCoordinator::default();
    let a = vid(1);
    let b = vid(2);
    c.mark_sent(a, Serial::from(50u32), (800, 600));
    c.mark_sent(b, Serial::from(51u32), (400, 300));
    c.abort(a); // destruction cleanup path
    assert_eq!(c.entry(a), None);
    assert_eq!(c.entry(b).map(|e| e.requested), Some((400, 300)));
    assert!(c.note_ack(Serial::from(51u32)));
    assert_eq!(c.note_commit(b, (400, 300)), CommitOutcome::Fulfilled);
}

#[test]
fn multiple_windows_resize_independently() {
    let mut c = ClientResizeCoordinator::default();
    let a = vid(1);
    let b = vid(2);
    c.mark_sent(a, Serial::from(60u32), (800, 600));
    c.mark_sent(b, Serial::from(61u32), (500, 400));
    assert!(c.awaiting_ack(a) && c.awaiting_ack(b));
    c.note_ack(Serial::from(61u32));
    assert!(c.awaiting_ack(a), "a unaffected by b's ack");
    assert!(!c.awaiting_ack(b));
    assert_eq!(c.note_commit(a, (800, 600)), CommitOutcome::Fulfilled);
    assert_eq!(c.entry(b).map(|e| e.requested), Some((500, 400)));
}

#[test]
fn commits_without_requests_are_normal() {
    let mut c = ClientResizeCoordinator::default();
    assert_eq!(c.note_commit(vid(9), (1920, 1080)), CommitOutcome::NotResizing);
    assert!(!c.note_ack(Serial::from(70u32)));
}

#[test]
fn client_may_commit_without_acking_and_keeps_geometry() {
    // A client that ignores our size entirely: ack never arrives,
    // it commits its own size. The request must be abandoned and
    // nothing may force the requested size afterwards.
    let mut c = ClientResizeCoordinator::default();
    let v = vid(1);
    c.mark_sent(v, Serial::from(80u32), (1600, 900));
    assert_eq!(c.note_commit(v, (640, 480)), CommitOutcome::ClientOverride);
    assert!(c.is_empty());
    assert!(!c.awaiting_ack(v));
    assert_eq!(c.entry(v), None);
}
