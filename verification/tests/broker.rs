use mom_rpc::broker::closed_channel_error;
use mom_rpc::{
    Address, BrokerCore, BrokerMode, BrokerSettings, Envelope, ResponseRoute, RetryConfig,
    RpcBrokerBuilder, RpcError, ServerStep, ServingOp, TransportBase, TransportMode,
};

fn settings(node: &str, mode: BrokerMode, retry: Option<RetryConfig>) -> BrokerSettings {
    BrokerSettings {
        node_id: node.to_string(),
        mode,
        retry_config: retry,
        request_timeout_nanos: 30_000_000_000,
    }
}

#[test]
fn broker_mode_permissions() {
    let client: BrokerCore<u32> = BrokerCore::new(settings("c", BrokerMode::Client, None));
    let server: BrokerCore<u32> = BrokerCore::new(settings("s", BrokerMode::Server, None));
    let duplex: BrokerCore<u32> = BrokerCore::new(settings("d", BrokerMode::FullDuplex, None));
    assert!(client.check_request_allowed().is_ok());
    assert!(duplex.check_request_allowed().is_ok());
    match server.check_request_allowed() {
        Err(RpcError::InvalidMode(m)) => assert_eq!(m, "request_to() not allowed in Server mode"),
        other => panic!("unexpected {other:?}"),
    }
    for (op, msg) in [
        (ServingOp::RegisterHandler, "register_rpc_handler() not allowed in Client mode"),
        (ServingOp::Spawn, "spawn() not allowed in Client mode"),
        (ServingOp::Run, "run() not allowed in Client mode"),
    ] {
        assert!(server.check_serving_allowed(op).is_ok());
        assert!(duplex.check_serving_allowed(op).is_ok());
        match client.check_serving_allowed(op) {
            Err(RpcError::InvalidMode(m)) => assert_eq!(m, msg),
            other => panic!("unexpected {other:?}"),
        }
    }
    assert!(client.runs_response_loop() && !client.runs_request_loop());
    assert!(!server.runs_response_loop() && server.runs_request_loop());
    assert!(duplex.runs_response_loop() && duplex.runs_request_loop());
}

#[test]
fn broker_register_handler_refused_in_client_mode() {
    let mut client: BrokerCore<u32> = BrokerCore::new(settings("c", BrokerMode::Client, None));
    assert!(client.register_rpc_handler("temperature", 1).is_err());
    assert!(client.handler(&"temperature".to_string()).is_none());
    let mut server: BrokerCore<u32> = BrokerCore::new(settings("s", BrokerMode::Server, None));
    assert!(server.register_rpc_handler("temperature", 1).is_ok());
    assert!(server.register_rpc_handler("temperature", 2).is_ok());
    assert_eq!(server.handler(&"temperature".to_string()), Some(&2));
}

#[test]
fn broker_request_response_round_trip() {
    let mut client: BrokerCore<u32> = BrokerCore::new(settings("controller", BrokerMode::Client, None));
    let mut server: BrokerCore<u32> = BrokerCore::new(settings("sensor", BrokerMode::Server, None));
    server.register_rpc_handler("temperature", 7).unwrap();

    assert_eq!(client.response_subscription().as_str(), "responses/controller");
    assert_eq!(server.request_subscription().as_str(), "requests/sensor");

    let (request, rx) = client.begin_request("sensor", "temperature", b"{\"unit\":\"C\"}".to_vec());
    assert_eq!(request.address.as_str(), "requests/sensor");
    assert_eq!(request.method.as_deref(), Some("temperature"));
    assert_eq!(request.reply_to.as_ref().unwrap().as_str(), "responses/controller");
    assert_eq!(request.content_type.as_deref(), Some("application/json"));
    let cid = request.correlation_id.clone().unwrap();
    assert_eq!(cid.len(), 36);
    assert_eq!(client.pending_len(), 1);

    let plan = match server.plan_request(request) {
        ServerStep::Dispatch(p) => p,
        other => panic!("unexpected {other:?}"),
    };
    assert_eq!(plan.method, "temperature");
    assert_eq!(plan.payload, b"{\"unit\":\"C\"}".to_vec());
    assert_eq!(server.handler(&plan.method), Some(&7));

    let response = mom_rpc::broker::response_envelope(plan.reply_to, plan.correlation_id, b"23".to_vec());
    assert_eq!(response.address.as_str(), "responses/controller");
    assert_eq!(response.correlation_id.as_deref(), Some(cid.as_str()));
    assert!(response.method.is_none() && response.reply_to.is_none());

    assert_eq!(client.route_response(response.clone()), ResponseRoute::Delivered);
    assert_eq!(client.pending_len(), 0);
    assert_eq!(rx.blocking_recv().unwrap(), b"23".to_vec());
    // A duplicate response finds nothing pending.
    assert_eq!(client.route_response(response), ResponseRoute::Unmatched);
}

#[test]
fn broker_concurrent_requests_are_matched_by_correlation() {
    let mut client: BrokerCore<u32> = BrokerCore::new(settings("controller", BrokerMode::FullDuplex, None));
    let mut receivers = Vec::new();
    let mut ids = Vec::new();
    for i in 0..10u8 {
        let (env, rx) = client.begin_request("sensor", "temperature", vec![i]);
        ids.push(env.correlation_id.unwrap());
        receivers.push(rx);
    }
    assert_eq!(client.pending_len(), 10);
    for (i, id) in ids.iter().enumerate().rev() {
        let resp = Envelope::response(Address::new("responses/controller"), vec![i as u8 + 100], id.clone(), "application/json".into());
        assert_eq!(client.route_response(resp), ResponseRoute::Delivered);
    }
    for (i, rx) in receivers.into_iter().enumerate() {
        assert_eq!(rx.blocking_recv().unwrap(), vec![i as u8 + 100]);
    }
}

#[test]
fn broker_drops_malformed_envelopes() {
    let mut client: BrokerCore<u32> = BrokerCore::new(settings("c", BrokerMode::Client, None));
    let mut no_id = Envelope::response(Address::new("responses/c"), vec![], "x".into(), "application/json".into());
    no_id.correlation_id = None;
    assert_eq!(client.route_response(no_id), ResponseRoute::MissingCorrelationId);

    let mut server: BrokerCore<u32> = BrokerCore::new(settings("s", BrokerMode::Server, None));
    server.register_rpc_handler("m", 1).unwrap();
    let base = Envelope::request(Address::new("requests/s"), "m".into(), vec![], "id".into(), Address::new("responses/c"), "application/json".into());
    let mut e = base.clone();
    e.method = None;
    assert!(matches!(server.plan_request(e), ServerStep::MissingMethod));
    let mut e = base.clone();
    e.reply_to = None;
    assert!(matches!(server.plan_request(e), ServerStep::MissingReplyTo));
    let mut e = base.clone();
    e.correlation_id = None;
    assert!(matches!(server.plan_request(e), ServerStep::MissingCorrelationId));
    let mut e = base;
    e.method = Some("other".into());
    match server.plan_request(e) {
        ServerStep::NoHandler(m) => assert_eq!(m, "other"),
        other => panic!("unexpected {other:?}"),
    }
}

#[test]
fn broker_timeout_errors() {
    let plain: BrokerCore<u32> = BrokerCore::new(settings("c", BrokerMode::Client, None));
    assert!(matches!(plain.timeout_error(), RpcError::Timeout));
    let retrying: BrokerCore<u32> = BrokerCore::new(settings("c", BrokerMode::Client, Some(RetryConfig::default())));
    match retrying.timeout_error() {
        RpcError::TransportRetryable(m) => assert_eq!(m, "request timeout waiting for response, will retry"),
        other => panic!("unexpected {other:?}"),
    }
    match closed_channel_error("RecvError(())") {
        RpcError::Transport(m) => assert_eq!(m, "response channel closed (server dropped or transport shutdown:RecvError(()))"),
        other => panic!("unexpected {other:?}"),
    }
}

#[test]
fn broker_builder_defaults_and_overrides() {
    let base = TransportBase::new("env-sensor-42".into(), TransportMode::FullDuplex, None, None);
    let (t, s) = RpcBrokerBuilder::new("handle", &base).build();
    assert_eq!(t, "handle");
    assert_eq!(s.node_id, "env-sensor-42");
    assert_eq!(s.mode, BrokerMode::FullDuplex);
    assert!(s.retry_config.is_none());
    assert_eq!(s.request_timeout_nanos, 30_000_000_000);

    let client_base = TransportBase::new("client".into(), TransportMode::Client, None, None);
    let (_, s) = RpcBrokerBuilder::new((), &client_base)
        .node_id("controller-1")
        .retry_max_attempts(20)
        .retry_initial_delay(200_000_000)
        .request_timeout(200_000_000)
        .build();
    assert_eq!(s.node_id, "controller-1");
    assert_eq!(s.mode, BrokerMode::Client);
    assert_eq!(s.request_timeout_nanos, 200_000_000);
    let r = s.retry_config.unwrap();
    assert_eq!(r.max_attempts, 20);
    assert_eq!(r.multiplier_permille, 2000);
    assert_eq!(r.initial_delay_nanos, 200_000_000);
    assert_eq!(r.max_delay_nanos, 5_000_000_000);

    let server_base = TransportBase::new("server".into(), TransportMode::Server, None, None);
    let (_, s) = RpcBrokerBuilder::new((), &server_base).retry_multiplier(3000).retry_max_delay(10_000_000_000).build();
    assert_eq!(s.mode, BrokerMode::Server);
    let r = s.retry_config.unwrap();
    assert_eq!(r.max_attempts, 3);
    assert_eq!(r.multiplier_permille, 3000);
    assert_eq!(r.initial_delay_nanos, 100_000_000);
    assert_eq!(r.max_delay_nanos, 10_000_000_000);
}
