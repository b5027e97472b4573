use mom_rpc::transport_builder::TransportKind;
use mom_rpc::{after_factory, factory_plan, FactoryStep, RpcError, TransportBuilder, TransportMode};

fn conflict_message(r: Result<mom_rpc::TransportConfig, RpcError>) -> String {
    match r {
        Err(RpcError::ConfigConflict(m)) => m,
        other => panic!("expected a conflict, got {other:?}"),
    }
}

fn missing_message(r: Result<mom_rpc::TransportConfig, RpcError>) -> String {
    match r {
        Err(RpcError::MissingConfig(m)) => m,
        other => panic!("expected missing config, got {other:?}"),
    }
}

#[test]
fn builder_client_mode_derives_response_queue() {
    let c = TransportBuilder::new().uri("mqtt://localhost:1883").node_id("sensor-client").client_mode().resolve().unwrap();
    assert_eq!(c.mode, TransportMode::Client);
    assert_eq!(c.response_queue.as_deref(), Some("responses/sensor-client"));
    assert_eq!(c.request_queue, None);
    assert_eq!(c.uri, "mqtt://localhost:1883");
    assert_eq!(c.node_id, "sensor-client");
}

#[test]
fn builder_server_mode_derives_request_queue() {
    let c = TransportBuilder::new().uri("memory://").node_id("env-sensor-42").server_mode().resolve().unwrap();
    assert_eq!(c.mode, TransportMode::Server);
    assert_eq!(c.request_queue.as_deref(), Some("requests/env-sensor-42"));
    assert_eq!(c.response_queue, None);
}

#[test]
fn builder_full_duplex_derives_both_queues() {
    let c = TransportBuilder::new().uri("memory://").node_id("edge-agent").full_duplex().keep_alive_secs(30).transport_type("memory").resolve().unwrap();
    assert_eq!(c.mode, TransportMode::FullDuplex);
    assert_eq!(c.request_queue.as_deref(), Some("requests/edge-agent"));
    assert_eq!(c.response_queue.as_deref(), Some("responses/edge-agent"));
    assert_eq!(c.keep_alive_secs, Some(30));
    assert_eq!(c.transport_type.as_deref(), Some("memory"));
}

#[test]
fn builder_explicit_queues_infer_mode() {
    let c = TransportBuilder::new().uri("x").node_id("server-42").request_queue("requests/server-42").resolve().unwrap();
    assert_eq!(c.mode, TransportMode::Server);
    let c = TransportBuilder::new().uri("x").node_id("n").response_queue("r").resolve().unwrap();
    assert_eq!(c.mode, TransportMode::Client);
    let c = TransportBuilder::new().uri("x").node_id("n").request_queue("q").response_queue("r").resolve().unwrap();
    assert_eq!(c.mode, TransportMode::FullDuplex);
}

#[test]
fn builder_missing_uri_and_node_id() {
    assert_eq!(missing_message(TransportBuilder::new().node_id("n").client_mode().resolve()), "uri");
    assert_eq!(missing_message(TransportBuilder::new().uri("x").client_mode().resolve()), "node_id");
}

#[test]
fn builder_no_queue_is_error() {
    assert_eq!(
        missing_message(TransportBuilder::new().uri("x").node_id("n").resolve()),
        "at least one queue (request or response) or a mode method"
    );
}

#[test]
fn builder_conflicts() {
    assert_eq!(
        conflict_message(TransportBuilder::new().uri("x").node_id("n").client_mode().server_mode().resolve()),
        "Cannot call multiple mode sugar methods (client_mode, server_mode, full_duplex)"
    );
    assert_eq!(
        conflict_message(TransportBuilder::new().uri("x").node_id("n").full_duplex().request_queue("q").resolve()),
        "Cannot use both mode sugar methods and explicit queue configuration"
    );
}

#[test]
fn factory_plan_orders() {
    assert_eq!(
        factory_plan(&None).unwrap(),
        vec![TransportKind::DustDds, TransportKind::Rumqttc, TransportKind::Lapin, TransportKind::Memory]
    );
    assert_eq!(factory_plan(&Some("memory".to_string())).unwrap(), vec![TransportKind::Memory]);
    assert_eq!(factory_plan(&Some("lapin".to_string())).unwrap(), vec![TransportKind::Lapin]);
    assert_eq!(factory_plan(&Some("rumqttc".to_string())).unwrap(), vec![TransportKind::Rumqttc]);
    assert_eq!(factory_plan(&Some("dust-dds".to_string())).unwrap(), vec![TransportKind::DustDds]);
    match factory_plan(&Some("kafka".to_string())) {
        Err(RpcError::Transport(m)) => assert_eq!(
            m,
            "unrecognized transport_type: kafka, valid values: memory, rumqttc, lapin, dust-dds"
        ),
        other => panic!("unexpected {other:?}"),
    }
}

#[test]
fn builder_default_is_empty_new() {
    let d = TransportBuilder::default().uri("memory://").node_id("n").client_mode().resolve().unwrap();
    let n = TransportBuilder::new().uri("memory://").node_id("n").client_mode().resolve().unwrap();
    assert_eq!(d.uri, n.uri);
    assert_eq!(d.node_id, n.node_id);
    assert_eq!(d.mode, n.mode);
    assert_eq!(d.response_queue, n.response_queue);
    assert_eq!(d.request_queue, n.request_queue);
    assert_eq!(d.transport_type, n.transport_type);
    assert!(matches!(TransportBuilder::default().resolve(), Err(RpcError::MissingConfig(_))));
}

#[test]
fn factory_fallback_returns_first_success() {
    // A success returns at once, wherever it stands.
    assert_eq!(after_factory(0, 4, true), FactoryStep::Return);
    assert_eq!(after_factory(2, 4, true), FactoryStep::Return);
    // A failure moves on, except after the last factory.
    assert_eq!(after_factory(0, 4, false), FactoryStep::TryNext);
    assert_eq!(after_factory(2, 4, false), FactoryStep::TryNext);
    assert_eq!(after_factory(3, 4, false), FactoryStep::Return);
    // Walking a plan where only the memory transport succeeds picks it.
    let results = [false, false, false, true];
    let mut chosen = None;
    for (i, ok) in results.iter().enumerate() {
        if after_factory(i, results.len(), *ok) == FactoryStep::Return {
            chosen = Some(i);
            break;
        }
    }
    assert_eq!(chosen, Some(3));
}
