use mom_rpc::channel::TrySendLog;
use mom_rpc::{deliver_and_evict, Address, Envelope, SubscriberTable, Subscription};
use tokio::sync::mpsc;

fn envelope(addr: &str, payload: &[u8]) -> Envelope {
    Envelope::request(
        Address::new(addr),
        "".into(),
        payload.to_vec(),
        "corr".into(),
        Address::new("tbd"),
        "application/json".into(),
    )
}

#[test]
fn hub_subscribe_then_publish_reaches_exact_match_only() {
    let mut table: SubscriberTable<u32> = SubscriberTable::new();
    table.subscribe(Subscription::new("test.address"), 1);
    table.subscribe(Subscription::new("test.address"), 2);
    table.subscribe(Subscription::new("other"), 3);
    assert_eq!(table.subscribers(&Address::new("test.address")), Some(&vec![1, 2]));
    assert_eq!(table.subscribers(&Address::new("other")), Some(&vec![3]));
    assert_eq!(table.subscribers(&Address::new("test")), None);
    assert_eq!(table.subscribers(&Address::new("test.address.x")), None);
    table.clear();
    assert_eq!(table.subscribers(&Address::new("test.address")), None);
}

#[test]
fn hub_retain_flagged_keeps_order() {
    let mut table: SubscriberTable<char> = SubscriberTable::new();
    for c in ['a', 'b', 'c', 'd'] {
        table.subscribe(Subscription::new("t"), c);
    }
    table.retain_flagged(&"t".to_string(), &vec![true, false, true, false]);
    assert_eq!(table.subscribers(&Address::new("t")), Some(&vec!['a', 'c']));
    table.retain_flagged(&"absent".to_string(), &vec![]);
    assert_eq!(table.subscribers(&Address::new("absent")), None);
}

#[test]
fn hub_deliver_and_evict_drops_dead_subscribers() {
    let mut table: SubscriberTable<mpsc::Sender<Envelope>> = SubscriberTable::new();
    let (tx_live, mut rx_live) = mpsc::channel(16);
    let (tx_dead, rx_dead) = mpsc::channel(16);
    let (tx_full, mut rx_full) = mpsc::channel(1);
    tx_full.try_send(envelope("t", b"filler")).unwrap();
    drop(rx_dead);
    table.subscribe(Subscription::new("t"), tx_live);
    table.subscribe(Subscription::new("t"), tx_dead);
    table.subscribe(Subscription::new("t"), tx_full);

    let env = envelope("t", b"hello");
    let mut log = TrySendLog::new();
    let _ = deliver_and_evict(&mut table, &"t".to_string(), &env, &mut log);

    let got = rx_live.try_recv().unwrap();
    assert_eq!(got.payload, b"hello".to_vec());
    assert_eq!(got.address, Address::new("t"));
    assert_eq!(got.correlation_id.as_deref(), Some("corr"));
    assert_eq!(table.subscribers(&Address::new("t")).map(|v| v.len()), Some(1));
    assert_eq!(rx_full.try_recv().unwrap().payload, b"filler".to_vec());

    // Nothing happens for a topic without subscribers.
    let _ = deliver_and_evict(&mut table, &"nobody".to_string(), &env, &mut log);
    assert_eq!(table.subscribers(&Address::new("nobody")).map(|v| v.len()), None);
}

#[test]
fn hub_deliver_and_evict_sends_once_per_subscriber_of_topic_only() {
    let mut table: SubscriberTable<mpsc::Sender<Envelope>> = SubscriberTable::new();
    let (tx_a, mut rx_a) = mpsc::channel(16);
    let (tx_b, mut rx_b) = mpsc::channel(16);
    let (tx_other, mut rx_other) = mpsc::channel(16);
    table.subscribe(Subscription::new("t"), tx_a);
    table.subscribe(Subscription::new("t"), tx_b);
    table.subscribe(Subscription::new("u"), tx_other);

    let mut log = TrySendLog::new();
    let _ = deliver_and_evict(&mut table, &"t".to_string(), &envelope("t", b"one"), &mut log);

    assert_eq!(rx_a.try_recv().unwrap().payload, b"one".to_vec());
    assert!(rx_a.try_recv().is_err());
    assert_eq!(rx_b.try_recv().unwrap().payload, b"one".to_vec());
    assert!(rx_b.try_recv().is_err());
    assert!(rx_other.try_recv().is_err());
    assert_eq!(table.subscribers(&Address::new("t")).map(|v| v.len()), Some(2));
    assert_eq!(table.subscribers(&Address::new("u")).map(|v| v.len()), Some(1));
}

#[test]
fn envelope_duplicate_is_equal() {
    let env = envelope("x", b"abc");
    let copy = env.duplicate();
    assert_eq!(copy.address, env.address);
    assert_eq!(copy.payload, env.payload);
    assert_eq!(copy.method, env.method);
    assert_eq!(copy.correlation_id, env.correlation_id);
    assert_eq!(copy.reply_to, env.reply_to);
    assert_eq!(copy.content_type, env.content_type);
}
