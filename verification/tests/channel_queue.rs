//! The queue protocol: order, non-blocking receive, and closure.

use frostbit::channel::{RecvOutcome, TextQueue};

#[test]
fn queue_preserves_order() {
    let mut q = TextQueue::new();
    assert!(q.send(String::from("a")));
    assert!(q.send(String::from("b")));
    assert!(q.send(String::from("c")));
    assert_eq!(q.len(), 3);
    match q.try_recv() {
        RecvOutcome::Received(t) => assert_eq!(t, "a"),
        other => panic!("expected a payload, got {:?}", other),
    }
    match q.try_recv() {
        RecvOutcome::Received(t) => assert_eq!(t, "b"),
        other => panic!("expected a payload, got {:?}", other),
    }
    match q.try_recv() {
        RecvOutcome::Received(t) => assert_eq!(t, "c"),
        other => panic!("expected a payload, got {:?}", other),
    }
}

#[test]
fn empty_open_queue_reports_empty() {
    let mut q = TextQueue::new();
    assert!(matches!(q.try_recv(), RecvOutcome::Empty));
    assert!(!q.is_closed());
}

#[test]
fn send_to_closed_queue_fails() {
    let mut q = TextQueue::new();
    q.close();
    assert!(!q.send(String::from("dropped")));
    assert_eq!(q.len(), 0);
}

#[test]
fn close_drains_pending_before_disconnecting() {
    let mut q = TextQueue::new();
    assert!(q.send(String::from("pending")));
    q.close();
    assert!(q.is_closed());
    // the pending item is still delivered
    match q.try_recv() {
        RecvOutcome::Received(t) => assert_eq!(t, "pending"),
        other => panic!("expected a payload, got {:?}", other),
    }
    // only then does the closure become observable
    assert!(matches!(q.try_recv(), RecvOutcome::Disconnected));
    assert!(matches!(q.try_recv(), RecvOutcome::Disconnected));
}
