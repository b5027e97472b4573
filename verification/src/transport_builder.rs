//! Fluent configuration of transports.
//!
//! A builder collects the URI, node id and queue choices; `resolve` checks
//! them and produces the `TransportConfig` from which a transport is created,
//! and `factory_plan` says which transport factories to try, in order.

use crate::domain::{
    opt_str_view, request_queue_name, request_queue_of, response_queue_name, response_queue_of,
    TransportConfig, TransportMode,
};
use crate::error::RpcError;
use vstd::prelude::*;
use vstd::string::*;

verus! {

/// Builder for transport configurations.
pub struct TransportBuilder {
    uri: Option<String>,
    node_id: Option<String>,
    request_queue: Option<String>,
    response_queue: Option<String>,
    transport_type: Option<String>,
    keep_alive_secs: Option<u16>,
    called_client_mode: bool,
    called_server_mode: bool,
    called_full_duplex: bool,
}

/// What a `TransportBuilder` holds.
pub ghost struct TransportBuilderView {
    pub uri: Option<Seq<char>>,
    pub node_id: Option<Seq<char>>,
    pub request_queue: Option<Seq<char>>,
    pub response_queue: Option<Seq<char>>,
    pub transport_type: Option<Seq<char>>,
    pub keep_alive_secs: Option<u16>,
    pub client_mode: bool,
    pub server_mode: bool,
    pub full_duplex: bool,
}

impl View for TransportBuilder {
    type V = TransportBuilderView;

    closed spec fn view(&self) -> TransportBuilderView {
        TransportBuilderView {
            uri: opt_str_view(self.uri),
            node_id: opt_str_view(self.node_id),
            request_queue: opt_str_view(self.request_queue),
            response_queue: opt_str_view(self.response_queue),
            transport_type: opt_str_view(self.transport_type),
            keep_alive_secs: self.keep_alive_secs,
            client_mode: self.called_client_mode,
            server_mode: self.called_server_mode,
            full_duplex: self.called_full_duplex,
        }
    }
}

/// Number of mode shorthands called.
pub open spec fn sugar_count(b: TransportBuilderView) -> nat {
    (if b.client_mode { 1nat } else { 0nat }) + (if b.server_mode { 1nat } else { 0nat }) + (
    if b.full_duplex { 1nat } else { 0nat })
}

/// The request queue after the shorthands are applied (node id given).
pub open spec fn resolved_request_queue(b: TransportBuilderView) -> Option<Seq<char>> {
    if b.client_mode {
        b.request_queue
    } else if b.server_mode || b.full_duplex {
        Some(request_queue_of(b.node_id.unwrap()))
    } else {
        b.request_queue
    }
}

/// The response queue after the shorthands are applied (node id given).
pub open spec fn resolved_response_queue(b: TransportBuilderView) -> Option<Seq<char>> {
    if b.client_mode || (!b.server_mode && b.full_duplex) {
        Some(response_queue_of(b.node_id.unwrap()))
    } else {
        b.response_queue
    }
}

/// The mode implied by which queues are set (at least one is).
pub open spec fn mode_of_queues(req: Option<Seq<char>>, resp: Option<Seq<char>>) -> TransportMode {
    if req.is_some() && resp.is_some() {
        TransportMode::FullDuplex
    } else if req.is_some() {
        TransportMode::Server
    } else {
        TransportMode::Client
    }
}

impl Default for TransportBuilder {
    /// The same as `TransportBuilder::new()`: nothing set.
    fn default() -> (r: Self)
        ensures
            r@ == (TransportBuilderView {
                uri: None,
                node_id: None,
                request_queue: None,
                response_queue: None,
                transport_type: None,
                keep_alive_secs: None,
                client_mode: false,
                server_mode: false,
                full_duplex: false,
            }),
    {
        TransportBuilder::new()
    }
}

/// Which configuration error, if any, `resolve` reports for `b`.
pub enum ResolveFailure {
    MissingUri,
    MissingNodeId,
    MultipleShorthands,
    ShorthandAndExplicitQueues,
    NoQueue,
}

/// The first rule that `b` breaks, in the order `resolve` checks them.
pub open spec fn resolve_failure(b: TransportBuilderView) -> Option<ResolveFailure> {
    if b.uri.is_none() {
        Some(ResolveFailure::MissingUri)
    } else if b.node_id.is_none() {
        Some(ResolveFailure::MissingNodeId)
    } else if sugar_count(b) > 1 {
        Some(ResolveFailure::MultipleShorthands)
    } else if sugar_count(b) > 0 && (b.request_queue.is_some() || b.response_queue.is_some()) {
        Some(ResolveFailure::ShorthandAndExplicitQueues)
    } else if resolved_request_queue(b).is_none() && resolved_response_queue(b).is_none() {
        Some(ResolveFailure::NoQueue)
    } else {
        None
    }
}

/// Whether `e` is the error that `resolve` reports for failure `f`.
pub open spec fn is_error_for(e: RpcError, f: ResolveFailure) -> bool {
    match f {
        ResolveFailure::MissingUri => e matches RpcError::MissingConfig(m) && m@ == "uri"@,
        ResolveFailure::MissingNodeId => e matches RpcError::MissingConfig(m) && m@ == "node_id"@,
        ResolveFailure::MultipleShorthands => e matches RpcError::ConfigConflict(m) && m@
            == "Cannot call multiple mode sugar methods (client_mode, server_mode, full_duplex)"@,
        ResolveFailure::ShorthandAndExplicitQueues => e matches RpcError::ConfigConflict(m) && m@
            == "Cannot use both mode sugar methods and explicit queue configuration"@,
        ResolveFailure::NoQueue => e matches RpcError::MissingConfig(m) && m@
            == "at least one queue (request or response) or a mode method"@,
    }
}

/// A transport factory.
#[derive(Debug, Clone, Copy, PartialEq, Eq, Structural)]
pub enum TransportKind {
    /// DDS via dust_dds.
    DustDds,
    /// MQTT via rumqttc.
    Rumqttc,
    /// AMQP via lapin.
    Lapin,
    /// In-process memory transport.
    Memory,
}

impl TransportBuilder {
    /// An empty builder.
    pub fn new() -> (r: Self)
        ensures
            r@ == (TransportBuilderView {
                uri: None,
                node_id: None,
                request_queue: None,
                response_queue: None,
                transport_type: None,
                keep_alive_secs: None,
                client_mode: false,
                server_mode: false,
                full_duplex: false,
            }),
    {
        TransportBuilder {
            uri: None,
            node_id: None,
            request_queue: None,
            response_queue: None,
            transport_type: None,
            keep_alive_secs: None,
            called_client_mode: false,
            called_server_mode: false,
            called_full_duplex: false,
        }
    }

    /// Sets the transport URI (required).
    pub fn uri(self, uri: &str) -> (r: Self)
        ensures
            r@ == (TransportBuilderView { uri: Some(uri@), ..self@ }),
    {
        TransportBuilder { uri: Some(String::from_str(uri)), ..self }
    }

    /// Sets the node id (required); shorthand queue names derive from it.
    pub fn node_id(self, id: &str) -> (r: Self)
        ensures
            r@ == (TransportBuilderView { node_id: Some(id@), ..self@ }),
    {
        TransportBuilder { node_id: Some(String::from_str(id)), ..self }
    }

    /// Sets an explicit request queue name.
    pub fn request_queue(self, queue: &str) -> (r: Self)
        ensures
            r@ == (TransportBuilderView { request_queue: Some(queue@), ..self@ }),
    {
        TransportBuilder { request_queue: Some(String::from_str(queue)), ..self }
    }

    /// Sets an explicit response queue name.
    pub fn response_queue(self, queue: &str) -> (r: Self)
        ensures
            r@ == (TransportBuilderView { response_queue: Some(queue@), ..self@ }),
    {
        TransportBuilder { response_queue: Some(String::from_str(queue)), ..self }
    }

    /// Client mode shorthand: response queue `responses/{node_id}`.
    pub fn client_mode(self) -> (r: Self)
        ensures
            r@ == (TransportBuilderView { client_mode: true, ..self@ }),
    {
        TransportBuilder { called_client_mode: true, ..self }
    }

    /// Server mode shorthand: request queue `requests/{node_id}`.
    pub fn server_mode(self) -> (r: Self)
        ensures
            r@ == (TransportBuilderView { server_mode: true, ..self@ }),
    {
        TransportBuilder { called_server_mode: true, ..self }
    }

    /// Full-duplex shorthand: both queues.
    pub fn full_duplex(self) -> (r: Self)
        ensures
            r@ == (TransportBuilderView { full_duplex: true, ..self@ }),
    {
        TransportBuilder { called_full_duplex: true, ..self }
    }

    /// Sets an explicit transport type (`memory`, `rumqttc`, `lapin`, `dust-dds`).
    pub fn transport_type(self, flag: &str) -> (r: Self)
        ensures
            r@ == (TransportBuilderView { transport_type: Some(flag@), ..self@ }),
    {
        TransportBuilder { transport_type: Some(String::from_str(flag)), ..self }
    }

    /// Sets the broker keep-alive interval in seconds.
    pub fn keep_alive_secs(self, secs: u16) -> (r: Self)
        ensures
            r@ == (TransportBuilderView { keep_alive_secs: Some(secs), ..self@ }),
    {
        TransportBuilder { keep_alive_secs: Some(secs), ..self }
    }

    /// Checks the builder and produces the transport configuration.
    ///
    /// Fails, in this order, when the URI or node id is missing, when more
    /// than one mode shorthand was called, when a shorthand is combined with
    /// explicit queues, or when no queue results. The mode follows from the
    /// queues: both give full duplex, only the request queue gives server,
    /// only the response queue gives client.
    pub fn resolve(self) -> (r: Result<TransportConfig, RpcError>)
        ensures
            match resolve_failure(self@) {
                Some(f) => r matches Err(e) && is_error_for(e, f),
                None => r matches Ok(c) && {
                    &&& c.uri@ == self@.uri.unwrap()
                    &&& c.node_id@ == self@.node_id.unwrap()
                    &&& opt_str_view(c.request_queue) == resolved_request_queue(self@)
                    &&& opt_str_view(c.response_queue) == resolved_response_queue(self@)
                    &&& c.mode == mode_of_queues(
                        resolved_request_queue(self@),
                        resolved_response_queue(self@),
                    )
                    &&& opt_str_view(c.transport_type) == self@.transport_type
                    &&& c.keep_alive_secs == self@.keep_alive_secs
                },
            },
    {
        let uri = match self.uri {
            Some(u) => u,
            None => {
                return Err(RpcError::MissingConfig(String::from_str("uri")));
            },
        };
        let node_id = match self.node_id {
            Some(n) => n,
            None => {
                return Err(RpcError::MissingConfig(String::from_str("node_id")));
            },
        };
        let mut sugar_count: u8 = 0;
        if self.called_client_mode {
            sugar_count = sugar_count + 1;
        }
        if self.called_server_mode {
            sugar_count = sugar_count + 1;
        }
        if self.called_full_duplex {
            sugar_count = sugar_count + 1;
        }
        if sugar_count > 1 {
            return Err(
                RpcError::ConfigConflict(
                    String::from_str(
                        "Cannot call multiple mode sugar methods (client_mode, server_mode, full_duplex)",
                    ),
                ),
            );
        }
        let has_explicit_queues = self.request_queue.is_some() || self.response_queue.is_some();
        if sugar_count > 0 && has_explicit_queues {
            return Err(
                RpcError::ConfigConflict(
                    String::from_str(
                        "Cannot use both mode sugar methods and explicit queue configuration",
                    ),
                ),
            );
        }
        let mut request_queue = self.request_queue;
        let mut response_queue = self.response_queue;
        if self.called_client_mode {
            response_queue = Some(response_queue_name(node_id.as_str()));
        } else if self.called_server_mode {
            request_queue = Some(request_queue_name(node_id.as_str()));
        } else if self.called_full_duplex {
            request_queue = Some(request_queue_name(node_id.as_str()));
            response_queue = Some(response_queue_name(node_id.as_str()));
        }
        if request_queue.is_none() && response_queue.is_none() {
            return Err(
                RpcError::MissingConfig(
                    String::from_str("at least one queue (request or response) or a mode method"),
                ),
            );
        }
        let mode = if request_queue.is_some() && response_queue.is_some() {
            TransportMode::FullDuplex
        } else if request_queue.is_some() {
            TransportMode::Server
        } else {
            TransportMode::Client
        };
        Ok(
            TransportConfig {
                uri,
                node_id,
                mode,
                request_queue,
                response_queue,
                transport_type: self.transport_type,
                keep_alive_secs: self.keep_alive_secs,
            },
        )
    }
}

/// The factories that `transport_type` selects, in the order they are tried
/// (the first that succeeds wins). An explicit type names one factory; none
/// tries DDS, then MQTT, then AMQP, then the memory transport, which always
/// succeeds. An unknown type is an error naming it and the valid values.
pub fn factory_plan(transport_type: &Option<String>) -> (r: Result<Vec<TransportKind>, RpcError>)
    ensures
        match transport_type {
            None => r matches Ok(v) && v@ == seq![
                TransportKind::DustDds,
                TransportKind::Rumqttc,
                TransportKind::Lapin,
                TransportKind::Memory,
            ],
            Some(t) => if t@ == "rumqttc"@ {
                r matches Ok(v) && v@ == seq![TransportKind::Rumqttc]
            } else if t@ == "lapin"@ {
                r matches Ok(v) && v@ == seq![TransportKind::Lapin]
            } else if t@ == "dust-dds"@ {
                r matches Ok(v) && v@ == seq![TransportKind::DustDds]
            } else if t@ == "memory"@ {
                r matches Ok(v) && v@ == seq![TransportKind::Memory]
            } else {
                r matches Err(RpcError::Transport(m)) && m@ == "unrecognized transport_type: "@
                    + t@ + ", valid values: memory, rumqttc, lapin, dust-dds"@
            },
        },
{
    match transport_type {
        None => {
            let mut v: Vec<TransportKind> = Vec::new();
            v.push(TransportKind::DustDds);
            v.push(TransportKind::Rumqttc);
            v.push(TransportKind::Lapin);
            v.push(TransportKind::Memory);
            assert(v@ =~= seq![
                TransportKind::DustDds,
                TransportKind::Rumqttc,
                TransportKind::Lapin,
                TransportKind::Memory,
            ]);
            Ok(v)
        },
        Some(t) => {
            let kind = if *t == String::from_str("rumqttc") {
                TransportKind::Rumqttc
            } else if *t == String::from_str("lapin") {
                TransportKind::Lapin
            } else if *t == String::from_str("dust-dds") {
                TransportKind::DustDds
            } else if *t == String::from_str("memory") {
                TransportKind::Memory
            } else {
                let mut m = String::from_str("unrecognized transport_type: ");
                m.append(t.as_str());
                m.append(", valid values: memory, rumqttc, lapin, dust-dds");
                return Err(RpcError::Transport(m));
            };
            let mut v: Vec<TransportKind> = Vec::new();
            v.push(kind);
            assert(v@ =~= seq![kind]);
            Ok(v)
        },
    }
}

/// The queues that the mode shorthands create are the ones brokers address:
/// a client (or full-duplex) node `n` receives on `responses/{n}`, where
/// brokers on `n` send their reply address, and a server (or full-duplex)
/// node `n` receives on `requests/{n}`, where requests for `n` are sent.
pub proof fn lemma_shorthand_queues(b: TransportBuilderView)
    requires
        resolve_failure(b).is_none(),
    ensures
        b.client_mode || b.full_duplex ==> resolved_response_queue(b) == Some(
            response_queue_of(b.node_id.unwrap()),
        ),
        b.server_mode || b.full_duplex ==> resolved_request_queue(b) == Some(
            request_queue_of(b.node_id.unwrap()),
        ),
        b.client_mode ==> mode_of_queues(resolved_request_queue(b), resolved_response_queue(b))
            == TransportMode::Client,
        b.server_mode ==> mode_of_queues(resolved_request_queue(b), resolved_response_queue(b))
            == TransportMode::Server,
        b.full_duplex ==> mode_of_queues(resolved_request_queue(b), resolved_response_queue(b))
            == TransportMode::FullDuplex,
{
}

/// Which queues a resolved configuration has. Without a mode shorthand the
/// queues are exactly the explicit ones set on the builder, and the mode
/// follows from which are set (request only: server; response only: client;
/// both: full duplex). With one shorthand and no explicit queue (the only
/// way a shorthand resolves), `client_mode` gives just `responses/{node}`,
/// `server_mode` just `requests/{node}`, and `full_duplex` both.
pub proof fn lemma_resolved_queues(b: TransportBuilderView)
    ensures
        sugar_count(b) == 0 ==> resolved_request_queue(b) == b.request_queue
            && resolved_response_queue(b) == b.response_queue,
        sugar_count(b) == 0 && b.request_queue.is_some() && b.response_queue.is_none()
            ==> mode_of_queues(resolved_request_queue(b), resolved_response_queue(b))
            == TransportMode::Server,
        sugar_count(b) == 0 && b.request_queue.is_none() && b.response_queue.is_some()
            ==> mode_of_queues(resolved_request_queue(b), resolved_response_queue(b))
            == TransportMode::Client,
        sugar_count(b) == 0 && b.request_queue.is_some() && b.response_queue.is_some()
            ==> mode_of_queues(resolved_request_queue(b), resolved_response_queue(b))
            == TransportMode::FullDuplex,
        resolve_failure(b).is_none() && b.client_mode ==> {
            &&& resolved_request_queue(b).is_none()
            &&& resolved_response_queue(b) == Some("responses/"@ + b.node_id.unwrap())
            &&& mode_of_queues(resolved_request_queue(b), resolved_response_queue(b))
                == TransportMode::Client
        },
        resolve_failure(b).is_none() && b.server_mode ==> {
            &&& resolved_request_queue(b) == Some("requests/"@ + b.node_id.unwrap())
            &&& resolved_response_queue(b).is_none()
            &&& mode_of_queues(resolved_request_queue(b), resolved_response_queue(b))
                == TransportMode::Server
        },
        resolve_failure(b).is_none() && b.full_duplex ==> {
            &&& resolved_request_queue(b) == Some("requests/"@ + b.node_id.unwrap())
            &&& resolved_response_queue(b) == Some("responses/"@ + b.node_id.unwrap())
            &&& mode_of_queues(resolved_request_queue(b), resolved_response_queue(b))
                == TransportMode::FullDuplex
        },
{
}

/// What building a transport does after trying one factory of its plan.
#[derive(Debug, Clone, Copy, PartialEq, Eq, Structural)]
pub enum FactoryStep {
    /// Return this factory's result.
    Return,
    /// Try the next factory of the plan.
    TryNext,
}

/// After factory number `index` of a plan of `len` factories: a success is
/// returned at once; a failure moves on to the next factory, except after
/// the last one, whose failure is returned.
pub fn after_factory(index: usize, len: usize, succeeded: bool) -> (r: FactoryStep)
    requires
        index < len,
    ensures
        (r == FactoryStep::Return) == (succeeded || index + 1 == len),
{
    if succeeded || index + 1 == len {
        FactoryStep::Return
    } else {
        FactoryStep::TryNext
    }
}

/// The factory whose result is returned when trying from position `i`,
/// given which factories succeed (`results`), following `after_factory`.
pub open spec fn fallback_choice(results: Seq<bool>, i: nat) -> nat
    decreases results.len() - i,
{
    if i + 1 >= results.len() || results[i as int] {
        i
    } else {
        fallback_choice(results, i + 1)
    }
}

/// First success wins: the factory whose result is returned is the first
/// that succeeds, or the last one if none does; every factory tried before
/// it failed, and none after it is tried. With the memory transport last,
/// which always succeeds, the result is a success.
pub proof fn lemma_fallback(results: Seq<bool>, i: nat)
    requires
        i < results.len(),
    ensures
        i <= fallback_choice(results, i) < results.len(),
        results[fallback_choice(results, i) as int] || fallback_choice(results, i) == results.len()
            - 1,
        forall|j: int| i <= j < fallback_choice(results, i) ==> !results[j],
        results.last() ==> results[fallback_choice(results, i) as int],
    decreases results.len() - i,
{
    if !(i + 1 >= results.len() || results[i as int]) {
        lemma_fallback(results, i + 1);
    }
}

} // verus!
