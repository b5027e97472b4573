//! The decisions of an RPC broker: which operations its mode allows, how a
//! request is addressed and correlated, where an incoming response goes, and
//! how an incoming request is dispatched and answered.
//!
//! The broker's tasks (publishing, awaiting, spawning handlers) run outside
//! this module and consult a `BrokerCore` for every step.

use crate::broker_builder::BrokerSettings;
use crate::broker_mode::BrokerMode;
use crate::channel::{OneshotLink, OneshotSendRecord};
use crate::correlation::{is_uuid_v4_text, CorrelationId};
use crate::domain::{
    json_content_type, json_content_type_string, request_queue_name, request_queue_of,
    response_queue_name, response_queue_of, Address, Envelope, Subscription,
};
use crate::error::RpcError;
use crate::pending::PendingRequests;
use crate::retry::RetryConfig;
use crate::table::KeyedTable;
use tokio::sync::oneshot::{Receiver, Sender};
use vstd::prelude::*;
use vstd::string::*;

verus! {

/// Operations reserved to brokers that serve requests.
#[derive(Debug, Clone, Copy, PartialEq, Eq, Structural)]
pub enum ServingOp {
    /// `register_rpc_handler()`.
    RegisterHandler,
    /// `spawn()`.
    Spawn,
    /// `run()`.
    Run,
}

/// The message of the error refused to `op` in client mode.
pub open spec fn serving_refusal(op: ServingOp) -> Seq<char> {
    match op {
        ServingOp::RegisterHandler => "register_rpc_handler() not allowed in Client mode"@,
        ServingOp::Spawn => "spawn() not allowed in Client mode"@,
        ServingOp::Run => "run() not allowed in Client mode"@,
    }
}

/// What happened to an incoming response.
#[derive(Debug, Clone, Copy, PartialEq, Eq, Structural)]
pub enum ResponseRoute {
    /// The envelope carried no correlation id; it is dropped.
    MissingCorrelationId,
    /// No request awaits this correlation id; it is dropped.
    Unmatched,
    /// The payload was handed to the waiting request, which is no longer pending.
    Delivered,
}

/// A request accepted for dispatch to its handler.
#[derive(Debug)]
pub struct DispatchPlan {
    /// Method whose handler is called.
    pub method: String,
    /// Where the response goes.
    pub reply_to: Address,
    /// Correlation id the response carries.
    pub correlation_id: String,
    /// Request payload handed to the handler.
    pub payload: Vec<u8>,
}

/// What a serving broker does with an incoming envelope.
#[derive(Debug)]
pub enum ServerStep {
    /// No method: dropped.
    MissingMethod,
    /// No reply address: dropped.
    MissingReplyTo,
    /// No correlation id: dropped.
    MissingCorrelationId,
    /// No handler for the method: dropped.
    NoHandler(String),
    /// Call the handler and answer.
    Dispatch(DispatchPlan),
}

/// Where an incoming response goes, given the pending requests.
pub open spec fn route_of<S>(pending: Map<Seq<char>, S>, env: Envelope) -> ResponseRoute {
    match env.correlation_id {
        None => ResponseRoute::MissingCorrelationId,
        Some(c) => if pending.contains_key(c@) {
            ResponseRoute::Delivered
        } else {
            ResponseRoute::Unmatched
        },
    }
}

/// What a serving broker does with `env`, given its handlers.
pub open spec fn step_of<H>(handlers: Map<Seq<char>, H>, env: Envelope) -> ServerStep {
    match (env.method, env.reply_to, env.correlation_id) {
        (None, _, _) => ServerStep::MissingMethod,
        (Some(_), None, _) => ServerStep::MissingReplyTo,
        (Some(_), Some(_), None) => ServerStep::MissingCorrelationId,
        (Some(m), Some(a), Some(c)) => if handlers.contains_key(m@) {
            ServerStep::Dispatch(
                DispatchPlan { method: m, reply_to: a, correlation_id: c, payload: env.payload },
            )
        } else {
            ServerStep::NoHandler(m)
        },
    }
}

/// `resp` answers the dispatched request `plan`: it goes to the reply
/// address, carries the same correlation id, and is a response envelope.
pub open spec fn is_response_for(resp: Envelope, plan: DispatchPlan) -> bool {
    &&& resp.address@ == plan.reply_to@
    &&& resp.correlation_id matches Some(c) && c@ == plan.correlation_id@
    &&& resp.method.is_none()
    &&& resp.reply_to.is_none()
    &&& resp.content_type matches Some(t) && t@ == json_content_type()
}

/// `env` is the request that node `node` sends to `target` for `method`
/// under correlation id `cid`.
pub open spec fn is_request_from(
    env: Envelope,
    node: Seq<char>,
    target: Seq<char>,
    method: Seq<char>,
    cid: Seq<char>,
) -> bool {
    &&& env.address@ == request_queue_of(target)
    &&& env.method matches Some(m) && m@ == method
    &&& env.correlation_id matches Some(c) && c@ == cid
    &&& env.reply_to matches Some(a) && a@ == response_queue_of(node)
    &&& env.content_type matches Some(t) && t@ == json_content_type()
}

/// The response envelope answering `plan` with `payload`.
pub fn response_envelope(plan_reply_to: Address, correlation_id: String, payload: Vec<u8>) -> (r:
    Envelope)
    ensures
        r.address == plan_reply_to,
        r.correlation_id == Some(correlation_id),
        r.payload == payload,
        r.method.is_none(),
        r.reply_to.is_none(),
        r.content_type matches Some(t) && t@ == json_content_type(),
{
    Envelope::response(plan_reply_to, payload, correlation_id, json_content_type_string())
}

/// State of a broker: its settings, the requests awaiting a response and the
/// registered handlers (of type `H`).
pub struct BrokerCore<H> {
    settings: BrokerSettings,
    pending: PendingRequests,
    handlers: KeyedTable<H>,
}

impl<H> BrokerCore<H> {
    /// The broker's settings.
    pub closed spec fn settings(&self) -> BrokerSettings {
        self.settings
    }

    /// The requests awaiting a response, by correlation id.
    pub closed spec fn pending(&self) -> Map<Seq<char>, Sender<Vec<u8>>> {
        self.pending@
    }

    /// The registered handlers, by method name.
    pub closed spec fn handlers(&self) -> Map<Seq<char>, H> {
        self.handlers@
    }

    /// For each pending correlation id, the link between its stored sender
    /// and the receiver the request waits on.
    pub closed spec fn pending_links(&self) -> Map<Seq<char>, OneshotLink<Vec<u8>>> {
        self.pending.links()
    }

    /// The response payloads handed to waiting requests so far (ghost record).
    pub closed spec fn deliveries(&self) -> Seq<OneshotSendRecord<Vec<u8>>> {
        self.pending.deliveries()
    }

    /// In a well-formed broker every pending id has a link, which joins the
    /// stored sender to the waiting receiver.
    pub proof fn lemma_pending_links(&self)
        requires
            self.wf(),
        ensures
            self.pending_links().dom() == self.pending().dom(),
            forall|k: Seq<char>| #[trigger]
                self.pending().contains_key(k) ==> self.pending_links()[k].sender()
                    == self.pending()[k],
    {
        self.pending.lemma_links();
    }

    /// Internal consistency of the tables.
    pub closed spec fn wf(&self) -> bool {
        self.pending.wf() && self.handlers.wf()
    }

    /// A broker with the given settings, no pending request and no handler.
    pub fn new(settings: BrokerSettings) -> (r: Self)
        ensures
            r.wf(),
            r.settings() == settings,
            r.pending() == Map::<Seq<char>, Sender<Vec<u8>>>::empty(),
            r.deliveries() == Seq::<OneshotSendRecord<Vec<u8>>>::empty(),
            r.handlers() == Map::<Seq<char>, H>::empty(),
    {
        BrokerCore { settings, pending: PendingRequests::new(), handlers: KeyedTable::new() }
    }

    /// The broker's mode.
    pub fn mode(&self) -> (r: BrokerMode)
        ensures
            r == self.settings().mode,
    {
        self.settings.mode
    }

    /// The broker's node id.
    pub fn node_id(&self) -> (r: &str)
        ensures
            r@ == self.settings().node_id@,
    {
        self.settings.node_id.as_str()
    }

    /// The retry policy.
    pub fn retry_config(&self) -> (r: Option<RetryConfig>)
        ensures
            r == self.settings().retry_config,
    {
        self.settings.retry_config
    }

    /// The default time budget of a request, in nanoseconds.
    pub fn request_timeout_nanos(&self) -> (r: u64)
        ensures
            r == self.settings().request_timeout_nanos,
    {
        self.settings.request_timeout_nanos
    }

    /// Number of requests awaiting a response.
    pub fn pending_len(&self) -> (r: usize)
        requires
            self.wf(),
        ensures
            r == self.pending().len(),
    {
        self.pending.len()
    }

    /// Whether this broker runs the task that receives responses (client side).
    pub fn runs_response_loop(&self) -> (r: bool)
        ensures
            r == self.settings().mode.may_request(),
    {
        self.settings.mode.allows_requests()
    }

    /// Whether this broker runs the task that receives requests (server side).
    pub fn runs_request_loop(&self) -> (r: bool)
        ensures
            r == self.settings().mode.may_serve(),
    {
        self.settings.mode.allows_serving()
    }

    /// The subscription on which responses arrive: `responses/{node_id}`.
    pub fn response_subscription(&self) -> (r: Subscription)
        ensures
            r@ == response_queue_of(self.settings().node_id@),
    {
        Subscription(response_queue_name(self.settings.node_id.as_str()))
    }

    /// The subscription on which requests arrive: `requests/{node_id}`.
    pub fn request_subscription(&self) -> (r: Subscription)
        ensures
            r@ == request_queue_of(self.settings().node_id@),
    {
        Subscription(request_queue_name(self.settings.node_id.as_str()))
    }

    /// Refuses requests in server mode.
    pub fn check_request_allowed(&self) -> (r: Result<(), RpcError>)
        ensures
            r.is_ok() == self.settings().mode.may_request(),
            r matches Err(e) ==> e matches RpcError::InvalidMode(m) && m@
                == "request_to() not allowed in Server mode"@,
    {
        if self.settings.mode.allows_requests() {
            Ok(())
        } else {
            Err(RpcError::InvalidMode(String::from_str("request_to() not allowed in Server mode")))
        }
    }

    /// Refuses handler registration, spawning and running in client mode.
    pub fn check_serving_allowed(&self, op: ServingOp) -> (r: Result<(), RpcError>)
        ensures
            r.is_ok() == self.settings().mode.may_serve(),
            r matches Err(e) ==> e matches RpcError::InvalidMode(m) && m@ == serving_refusal(op),
    {
        if self.settings.mode.allows_serving() {
            Ok(())
        } else {
            let msg = match op {
                ServingOp::RegisterHandler => String::from_str(
                    "register_rpc_handler() not allowed in Client mode",
                ),
                ServingOp::Spawn => String::from_str("spawn() not allowed in Client mode"),
                ServingOp::Run => String::from_str("run() not allowed in Client mode"),
            };
            Err(RpcError::InvalidMode(msg))
        }
    }

    /// Registers `handler` for `method`, replacing any previous handler.
    /// Refused in client mode, leaving the handlers unchanged.
    pub fn register_rpc_handler(&mut self, method: &str, handler: H) -> (r: Result<(), RpcError>)
        requires
            old(self).wf(),
        ensures
            final(self).wf(),
            final(self).settings() == old(self).settings(),
            final(self).pending() == old(self).pending(),
            final(self).pending_links() == old(self).pending_links(),
            final(self).deliveries() == old(self).deliveries(),
            r.is_ok() == old(self).settings().mode.may_serve(),
            r.is_ok() ==> final(self).handlers() == old(self).handlers().insert(method@, handler),
            r matches Err(e) ==> final(self).handlers() == old(self).handlers() && (e matches RpcError::InvalidMode(m)
                && m@ == serving_refusal(ServingOp::RegisterHandler)),
    {
        match self.check_serving_allowed(ServingOp::RegisterHandler) {
            Err(e) => Err(e),
            Ok(()) => {
                let _ = self.handlers.insert(String::from_str(method), handler);
                Ok(())
            },
        }
    }

    /// The handler registered for `method`.
    pub fn handler(&self, method: &String) -> (r: Option<&H>)
        requires
            self.wf(),
        ensures
            match r {
                Some(h) => self.handlers().contains_key(method@) && *h == self.handlers()[method@],
                None => !self.handlers().contains_key(method@),
            },
    {
        self.handlers.get(method)
    }

    /// Starts one attempt of a request to `target` for `method`: a fresh
    /// correlation id is registered as pending, and the request envelope is
    /// addressed to `requests/{target}` with reply address
    /// `responses/{node_id}`. Returns the envelope to publish and the
    /// receiver on which the response will arrive.
    pub fn begin_request(&mut self, target: &str, method: &str, payload: Vec<u8>) -> (r: (
        Envelope,
        Receiver<Vec<u8>>,
    ))
        requires
            old(self).wf(),
        ensures
            final(self).wf(),
            final(self).settings() == old(self).settings(),
            final(self).handlers() == old(self).handlers(),
            r.0.correlation_id matches Some(c) && {
                &&& is_uuid_v4_text(c@)
                &&& is_request_from(r.0, old(self).settings().node_id@, target@, method@, c@)
                &&& final(self).pending().contains_key(c@)
                &&& final(self).pending() == old(self).pending().insert(
                    c@,
                    final(self).pending()[c@],
                )
                &&& final(self).pending_links() == old(self).pending_links().insert(
                    c@,
                    final(self).pending_links()[c@],
                )
                &&& final(self).pending_links()[c@].sender() == final(self).pending()[c@]
                &&& final(self).pending_links()[c@].receiver() == r.1
            },
            final(self).deliveries() == old(self).deliveries(),
            r.0.payload == payload,
    {
        let correlation_id = CorrelationId::generate();
        let cid_text = correlation_id.to_string();
        let rx = self.pending.register(correlation_id);
        let env = Envelope::request(
            Address(request_queue_name(target)),
            String::from_str(method),
            payload,
            cid_text,
            Address(response_queue_name(self.settings.node_id.as_str())),
            json_content_type_string(),
        );
        (env, rx)
    }

    /// Routes an incoming response: one without a correlation id, or whose
    /// id is not pending, is dropped; otherwise its payload is handed to the
    /// waiting request, which stops being pending.
    pub fn route_response(&mut self, env: Envelope) -> (r: ResponseRoute)
        requires
            old(self).wf(),
        ensures
            final(self).wf(),
            final(self).settings() == old(self).settings(),
            final(self).handlers() == old(self).handlers(),
            r == route_of(old(self).pending(), env),
            final(self).pending() == match env.correlation_id {
                Some(c) => old(self).pending().remove(c@),
                None => old(self).pending(),
            },
            final(self).pending_links() == match env.correlation_id {
                Some(c) => old(self).pending_links().remove(c@),
                None => old(self).pending_links(),
            },
            r == ResponseRoute::Delivered ==> {
                &&& final(self).deliveries().len() == old(self).deliveries().len() + 1
                &&& final(self).deliveries().drop_last() == old(self).deliveries()
                &&& final(self).deliveries().last().sender() == old(self).pending()[env.correlation_id.unwrap()@]
                &&& final(self).deliveries().last().value() == env.payload
            },
            r != ResponseRoute::Delivered ==> final(self).deliveries() == old(self).deliveries(),
    {
        match env.correlation_id {
            None => ResponseRoute::MissingCorrelationId,
            Some(c) => {
                let cid = CorrelationId::new(c);
                if self.pending.complete(&cid, env.payload) {
                    ResponseRoute::Delivered
                } else {
                    ResponseRoute::Unmatched
                }
            },
        }
    }

    /// Decides what to do with an incoming request: requests without a
    /// method, reply address or correlation id, or for a method without a
    /// handler, are dropped; the others are dispatched.
    pub fn plan_request(&self, env: Envelope) -> (r: ServerStep)
        requires
            self.wf(),
        ensures
            r == step_of(self.handlers(), env),
    {
        let method = match env.method {
            Some(m) => m,
            None => {
                return ServerStep::MissingMethod;
            },
        };
        let reply_to = match env.reply_to {
            Some(a) => a,
            None => {
                return ServerStep::MissingReplyTo;
            },
        };
        let correlation_id = match env.correlation_id {
            Some(c) => c,
            None => {
                return ServerStep::MissingCorrelationId;
            },
        };
        if self.handlers.contains_key(&method) {
            ServerStep::Dispatch(
                DispatchPlan { method, reply_to, correlation_id, payload: env.payload },
            )
        } else {
            ServerStep::NoHandler(method)
        }
    }

    /// The error of an attempt whose response did not arrive in time: with a
    /// retry policy it is retryable, otherwise it is a timeout.
    pub fn timeout_error(&self) -> (r: RpcError)
        ensures
            self.settings().retry_config.is_some() ==> (r matches RpcError::TransportRetryable(m)
                && m@ == "request timeout waiting for response, will retry"@),
            self.settings().retry_config.is_none() ==> r matches RpcError::Timeout,
    {
        if self.settings.retry_config.is_some() {
            RpcError::TransportRetryable(
                String::from_str("request timeout waiting for response, will retry"),
            )
        } else {
            RpcError::Timeout
        }
    }
}

/// The error of an attempt whose response channel closed without a value;
/// `detail` describes the closure.
pub fn closed_channel_error(detail: &str) -> (r: RpcError)
    ensures
        r matches RpcError::Transport(m) && m@ == "response channel closed (server dropped or transport shutdown:"@
            + detail@ + ")"@,
{
    let mut m = String::from_str("response channel closed (server dropped or transport shutdown:");
    m.append(detail);
    m.append(")");
    RpcError::Transport(m)
}

/// A request sent by node `client` and served by a broker that has a handler
/// for its method is dispatched; the answer goes to `responses/{client}` with
/// the request's correlation id, and reaches the request that `client` holds
/// pending under that id, which then stops being pending.
pub proof fn lemma_round_trip<H, S>(
    client: Seq<char>,
    target: Seq<char>,
    method: Seq<char>,
    cid: Seq<char>,
    request: Envelope,
    handlers: Map<Seq<char>, H>,
    pending: Map<Seq<char>, S>,
    response: Envelope,
)
    requires
        is_request_from(request, client, target, method, cid),
        handlers.contains_key(method),
        pending.contains_key(cid),
        forall|p: DispatchPlan|
            step_of(handlers, request) == ServerStep::Dispatch(p) ==> is_response_for(response, p),
    ensures
        step_of(handlers, request) matches ServerStep::Dispatch(p) && p.reply_to@
            == response_queue_of(client) && p.correlation_id@ == cid && p.method@ == method
            && p.payload == request.payload,
        response.address@ == response_queue_of(client),
        route_of(pending, response) == ResponseRoute::Delivered,
        !pending.remove(cid).contains_key(cid),
{
    let p = DispatchPlan {
        method: request.method.unwrap(),
        reply_to: request.reply_to.unwrap(),
        correlation_id: request.correlation_id.unwrap(),
        payload: request.payload,
    };
    assert(step_of(handlers, request) == ServerStep::Dispatch(p));
    assert(is_response_for(response, p));
}

/// Each waiting request gets its own response, and only the first. Take a
/// broker `waiting` in which the request `c` waits on `rx` (as
/// `begin_request` leaves it), and `answered`, the broker after
/// `route_response` handled a response carrying `c`. Then the response was
/// delivered; the one send made went to the sender whose other half is `rx`,
/// with the response's payload; every other pending request still waits with
/// its own sender and link; and a second response with the same id finds
/// nothing pending.
pub proof fn lemma_each_waiter_gets_its_response<H>(
    waiting: BrokerCore<H>,
    answered: BrokerCore<H>,
    c: Seq<char>,
    rx: Receiver<Vec<u8>>,
    response: Envelope,
)
    requires
        waiting.wf(),
        waiting.pending().contains_key(c),
        waiting.pending_links()[c].receiver() == rx,
        response.correlation_id matches Some(id) && id@ == c,
        answered.pending() == waiting.pending().remove(c),
        answered.pending_links() == waiting.pending_links().remove(c),
        route_of(waiting.pending(), response) == ResponseRoute::Delivered ==> {
            &&& answered.deliveries().len() == waiting.deliveries().len() + 1
            &&& answered.deliveries().drop_last() == waiting.deliveries()
            &&& answered.deliveries().last().sender() == waiting.pending()[route_key(response)]
            &&& answered.deliveries().last().value() == response.payload
        },
    ensures
        route_of(waiting.pending(), response) == ResponseRoute::Delivered,
        answered.deliveries().len() == waiting.deliveries().len() + 1,
        answered.deliveries().last().sender() == waiting.pending_links()[c].sender(),
        waiting.pending_links()[c].receiver() == rx,
        answered.deliveries().last().value() == response.payload,
        forall|other: Seq<char>|
            other != c && #[trigger] waiting.pending().contains_key(other) ==> {
                &&& answered.pending().contains_key(other)
                &&& answered.pending()[other] == waiting.pending()[other]
                &&& answered.pending_links()[other] == waiting.pending_links()[other]
            },
        route_of(answered.pending(), response) == ResponseRoute::Unmatched,
{
    waiting.lemma_pending_links();
}

/// The correlation id under which a response is routed.
pub open spec fn route_key(response: Envelope) -> Seq<char> {
    response.correlation_id.unwrap()@
}

} // verus!
