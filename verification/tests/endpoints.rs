use mom_rpc::endpoints::{
    step_after, ActorCommand, ActorStep, PublishPlan, PublishTracker,
    build_rpc_reader_qos, build_rpc_writer_qos, is_disconnect, parse_broker_addr, strip_scheme,
    ConnectionFailure, DurabilityKind, HistoryKind, ReliabilityKind, SubscribeGate,
};
use mom_rpc::text::{parse_u16, str_starts_with};
use mom_rpc::{parse_domain_id, Ack, RpcError};

#[test]
fn domain_id_parsing() {
    assert_eq!(parse_domain_id(None), 0);
    assert_eq!(parse_domain_id(Some("dds:45")), 45);
    assert_eq!(parse_domain_id(Some("dds:0")), 0);
    assert_eq!(parse_domain_id(Some("dds:+7")), 7);
    assert_eq!(parse_domain_id(Some("dds:65535")), 65535);
    assert_eq!(parse_domain_id(Some("dds:65536")), 0);
    assert_eq!(parse_domain_id(Some("dds:abc")), 0);
    assert_eq!(parse_domain_id(Some("dds:")), 0);
    assert_eq!(parse_domain_id(Some("mqtt://x")), 0);
    assert_eq!(parse_domain_id(Some("45")), 0);
}

#[test]
fn u16_parsing_matches_std() {
    for s in ["", "+", "-", "-1", "0", "007", "+12", "65535", "65536", "99999999999", "1a", " 1", "++1", "١"] {
        assert_eq!(parse_u16(s), s.parse::<u16>().ok(), "input {s:?}");
    }
}

#[test]
fn broker_addr_parsing() {
    assert_eq!(parse_broker_addr("mqtt://localhost:1883").unwrap(), ("localhost".to_string(), 1883));
    assert_eq!(parse_broker_addr("tcp://broker:8883").unwrap(), ("broker".to_string(), 8883));
    assert_eq!(parse_broker_addr("localhost").unwrap(), ("localhost".to_string(), 1883));
    assert_eq!(parse_broker_addr("host:1:2").is_err(), true);
    match parse_broker_addr("mqtt://localhost:http") {
        Err(RpcError::Transport(m)) => assert_eq!(m, "invalid port in broker URL mqtt://localhost:http"),
        other => panic!("unexpected {other:?}"),
    }
    assert_eq!(strip_scheme("mqtt://a"), "a");
    assert_eq!(strip_scheme("tcp://a"), "a");
    assert_eq!(strip_scheme("amqp://a"), "amqp://a");
    assert!(str_starts_with("dds:1", "dds:"));
    assert!(!str_starts_with("dd", "dds:"));
}

#[test]
fn subscribe_gate_serializes() {
    let mut gate = SubscribeGate::new();
    assert_eq!(gate.begin(), None);
    assert_eq!(gate.begin(), Some(Ack::Retry));
    assert_eq!(gate.finish(Ok(())).unwrap(), Ack::Subscribed);
    assert_eq!(gate.begin(), None);
    assert!(matches!(gate.finish(Err(RpcError::Transport("nope".into()))), Err(RpcError::Transport(_))));
    assert_eq!(gate.begin(), None);
}

#[test]
fn disconnect_classification() {
    assert!(is_disconnect(ConnectionFailure::Io));
    assert!(is_disconnect(ConnectionFailure::MqttState));
    assert!(!is_disconnect(ConnectionFailure::Other));
}

#[test]
fn rpc_qos_profiles() {
    let w = build_rpc_writer_qos();
    assert_eq!(w, build_rpc_reader_qos());
    assert_eq!(w.reliability, ReliabilityKind::Reliable);
    assert_eq!(w.history, HistoryKind::KeepLast(1));
    assert_eq!(w.durability, DurabilityKind::Volatile);
    assert_eq!((w.max_blocking_secs, w.max_blocking_nanos), (0, 0));
}

#[test]
fn actor_stops_only_on_close() {
    assert_eq!(step_after(ActorCommand::Close), ActorStep::Stop);
    assert_eq!(step_after(ActorCommand::Publish), ActorStep::Continue);
    assert_eq!(step_after(ActorCommand::Subscribe), ActorStep::Continue);
}

#[test]
fn amqp_consumer_tag() {
    assert_eq!(mom_rpc::endpoints::consumer_tag("node-1"), "node-1-consumer");
}

#[test]
fn dds_first_publish_waits_for_discovery_once() {
    let mut t = PublishTracker::new();
    let topic = "requests/sensor".to_string();
    assert_eq!(t.plan(&topic), PublishPlan { create_writer: true, wait_for_discovery: true });
    t.record_writer(&topic);
    assert_eq!(t.plan(&topic), PublishPlan { create_writer: false, wait_for_discovery: true });
    t.record_published(&topic);
    assert_eq!(t.plan(&topic), PublishPlan { create_writer: false, wait_for_discovery: false });
    assert_eq!(t.plan(&"other".to_string()), PublishPlan { create_writer: true, wait_for_discovery: true });
}
