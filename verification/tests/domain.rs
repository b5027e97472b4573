use mom_rpc::{
    Address, BrokerMode, Envelope, RetryConfig, RpcConfig, Subscription, TransportBase,
    TransportConfig, TransportMode,
};

#[test]
fn envelope_request_and_response() {
    let req = Envelope::request(
        Address::new("requests/sensor-service"),
        "read_temperature".into(),
        b"payload".to_vec(),
        "correlation-123".into(),
        Address::new("responses/client-1"),
        "application/json".into(),
    );
    assert_eq!(req.method.as_deref(), Some("read_temperature"));
    assert_eq!(req.reply_to, Some(Address::new("responses/client-1")));
    let resp = Envelope::response(
        Address::new("responses/client-1"),
        b"result".to_vec(),
        "correlation-123".into(),
        "application/json".into(),
    );
    assert!(resp.method.is_none());
    assert!(resp.reply_to.is_none());
    assert_eq!(resp.correlation_id.as_deref(), Some("correlation-123"));
}

#[test]
fn transport_base_from_config() {
    let config = TransportConfig {
        uri: String::new(),
        node_id: "mstpd".into(),
        mode: TransportMode::FullDuplex,
        request_queue: Some("requests/mstpd".into()),
        response_queue: None,
        transport_type: None,
        keep_alive_secs: None,
    };
    let base = TransportBase::from_config(&config);
    assert_eq!(base.transport_id(), "mstpd");
    assert_eq!(base.mode(), TransportMode::FullDuplex);
    assert_eq!(base.request_queue.as_deref(), Some("requests/mstpd"));
    assert_eq!(base.response_queue, None);
}

#[test]
fn subscription_matching_is_exact() {
    let sub = Subscription::from(Address::new("a/b"));
    assert!(sub.matches(&Address::new("a/b")));
    assert!(!sub.matches(&Address::new("a/b/")));
    assert!(!sub.matches(&Address::new("a/+")));
    assert_eq!(Subscription::from("x".to_string()), Subscription::new("x"));
    assert_eq!(Address::from("x".to_string()).as_str(), "x");
}

#[test]
fn broker_mode_roles() {
    assert!(BrokerMode::Client.allows_requests() && !BrokerMode::Client.allows_serving());
    assert!(!BrokerMode::Server.allows_requests() && BrokerMode::Server.allows_serving());
    assert!(BrokerMode::FullDuplex.allows_requests() && BrokerMode::FullDuplex.allows_serving());
}

#[test]
fn rpc_config_builders() {
    let c = RpcConfig::with_broker("mqtt://localhost:1883", "client")
        .with_keep_alive_secs(10)
        .with_request_queue_name("rq")
        .with_response_queue_name("sq")
        .with_retry(RetryConfig::default())
        .with_request_timeout(10_000_000_000);
    assert_eq!(c.transport_uri.as_deref(), Some("mqtt://localhost:1883"));
    assert_eq!(c.transport_id, "client");
    assert_eq!(c.keep_alive_secs, Some(10));
    assert_eq!(c.request_queue_name.as_deref(), Some("rq"));
    assert_eq!(c.response_queue_name.as_deref(), Some("sq"));
    assert!(c.retry_config.is_some());
    assert_eq!(c.request_timeout_nanos, 10_000_000_000);
    let m = RpcConfig::memory("client");
    assert!(m.transport_uri.is_none());
    assert_eq!(m.request_timeout_nanos, 30_000_000_000);
    assert!(m.retry_config.is_none());
}
