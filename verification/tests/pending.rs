use mom_rpc::{CorrelationId, PendingRequests};

#[test]
fn test_register_and_complete() {
    let mut pending = PendingRequests::new();
    let correlation_id = CorrelationId::generate();

    let rx = pending.register(correlation_id.clone());
    assert_eq!(pending.len(), 1);

    let response = b"test response".to_vec();
    assert!(pending.complete(&correlation_id, response.clone()));

    // Removed once completed.
    assert_eq!(pending.len(), 0);

    // The receiver gets the response.
    let received = rx.blocking_recv().unwrap();
    assert_eq!(received, response);
}

#[test]
fn test_remove() {
    let mut pending = PendingRequests::new();
    let correlation_id = CorrelationId::generate();

    let _rx = pending.register(correlation_id.clone());
    assert_eq!(pending.len(), 1);

    assert!(pending.remove(&correlation_id));
    assert_eq!(pending.len(), 0);

    // A second remove finds nothing.
    assert!(!pending.remove(&correlation_id));
}

#[test]
fn test_complete_unknown_id() {
    let mut pending = PendingRequests::new();
    let correlation_id = CorrelationId::generate();

    let response = b"test".to_vec();
    assert!(!pending.complete(&correlation_id, response));
}

#[test]
fn pending_second_response_is_dropped() {
    let mut pending = PendingRequests::new();
    let id = CorrelationId::from_text("corr-1");
    let rx = pending.register(id.clone());
    assert!(pending.complete(&id, vec![1, 2, 3]));
    assert!(!pending.complete(&id, vec![9]));
    assert_eq!(rx.blocking_recv().unwrap(), vec![1, 2, 3]);
}

#[test]
fn pending_requests_are_independent() {
    let mut pending = PendingRequests::new();
    let a = CorrelationId::from_text("a");
    let b = CorrelationId::from_text("b");
    let rx_a = pending.register(a.clone());
    let rx_b = pending.register(b.clone());
    assert_eq!(pending.len(), 2);
    assert!(pending.complete(&b, vec![2]));
    assert_eq!(pending.len(), 1);
    assert!(pending.complete(&a, vec![1]));
    assert_eq!(rx_a.blocking_recv().unwrap(), vec![1]);
    assert_eq!(rx_b.blocking_recv().unwrap(), vec![2]);
}

#[test]
fn pending_register_same_id_replaces() {
    let mut pending = PendingRequests::new();
    let id = CorrelationId::from_text("dup");
    let rx_old = pending.register(id.clone());
    let rx_new = pending.register(id.clone());
    assert_eq!(pending.len(), 1);
    assert!(pending.complete(&id, vec![7]));
    assert!(rx_old.blocking_recv().is_err());
    assert_eq!(rx_new.blocking_recv().unwrap(), vec![7]);
}
