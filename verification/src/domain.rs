//! Transport-level domain types: modes, configuration, addresses and envelopes.
//!
//! The transport layer only delivers envelopes; correlation, retries and
//! timeouts are decided by the layers above it.

use vstd::prelude::*;
use vstd::string::*;

verus! {

/// Operational mode of a transport: which queues it subscribes to.
#[derive(Debug, Clone, Copy, PartialEq, Eq, Structural)]
pub enum TransportMode {
    /// Subscribes to the response queue only.
    Client,
    /// Subscribes to the request queue only.
    Server,
    /// Subscribes to both queues.
    FullDuplex,
}

/// The queue name on which a node receives requests: `requests/{node}`.
pub open spec fn request_queue_of(node: Seq<char>) -> Seq<char> {
    "requests/"@ + node
}

/// The queue name on which a node receives responses: `responses/{node}`.
pub open spec fn response_queue_of(node: Seq<char>) -> Seq<char> {
    "responses/"@ + node
}

/// Builds `requests/{node}`.
pub fn request_queue_name(node: &str) -> (r: String)
    ensures
        r@ == request_queue_of(node@),
{
    let mut s = String::from_str("requests/");
    s.append(node);
    s
}

/// Builds `responses/{node}`.
pub fn response_queue_name(node: &str) -> (r: String)
    ensures
        r@ == response_queue_of(node@),
{
    let mut s = String::from_str("responses/");
    s.append(node);
    s
}

/// Content type carried by every envelope the RPC layer builds.
pub open spec fn json_content_type() -> Seq<char> {
    "application/json"@
}

/// Returns `application/json`.
pub fn json_content_type_string() -> (r: String)
    ensures
        r@ == json_content_type(),
{
    String::from_str("application/json")
}

/// Copies an optional string.
pub fn copy_opt_string(s: &Option<String>) -> (r: Option<String>)
    ensures
        r.is_some() == s.is_some(),
        r.is_some() ==> r.unwrap()@ == s.unwrap()@,
{
    match s {
        Some(v) => Some(v.clone()),
        None => None,
    }
}

/// Shared state of every transport: its id, mode and queue names.
#[derive(Debug)]
pub struct TransportBase {
    /// Identifier of the transport instance (the node id).
    pub transport_id: String,
    /// Operational mode.
    pub mode: TransportMode,
    /// Request queue name (Server and FullDuplex).
    pub request_queue: Option<String>,
    /// Response queue name (Client and FullDuplex).
    pub response_queue: Option<String>,
}

impl TransportBase {
    /// Creates a transport base from its parts.
    pub fn new(
        transport_id: String,
        mode: TransportMode,
        request_queue: Option<String>,
        response_queue: Option<String>,
    ) -> (r: Self)
        ensures
            r.transport_id == transport_id,
            r.mode == mode,
            r.request_queue == request_queue,
            r.response_queue == response_queue,
    {
        TransportBase { transport_id, mode, request_queue, response_queue }
    }

    /// The base that a transport built from `config` carries: the node id,
    /// the mode and the queue names of the configuration.
    pub fn from_config(config: &TransportConfig) -> (r: Self)
        ensures
            r.transport_id@ == config.node_id@,
            r.mode == config.mode,
            opt_str_view(r.request_queue) == opt_str_view(config.request_queue),
            opt_str_view(r.response_queue) == opt_str_view(config.response_queue),
    {
        TransportBase {
            transport_id: config.node_id.clone(),
            mode: config.mode,
            request_queue: copy_opt_string(&config.request_queue),
            response_queue: copy_opt_string(&config.response_queue),
        }
    }

    /// The transport id.
    pub fn transport_id(&self) -> (r: &str)
        ensures
            r@ == self.transport_id@,
    {
        self.transport_id.as_str()
    }

    /// The transport mode.
    pub fn mode(&self) -> (r: TransportMode)
        ensures
            r == self.mode,
    {
        self.mode
    }
}

/// The characters of an optional string.
pub open spec fn opt_str_view(s: Option<String>) -> Option<Seq<char>> {
    match s {
        Some(v) => Some(v@),
        None => None,
    }
}

/// Configuration from which a transport instance is created.
#[derive(Debug, Clone)]
pub struct TransportConfig {
    /// Broker URI (for example `mqtt://localhost:1883`).
    pub uri: String,
    /// Node id of this transport instance.
    pub node_id: String,
    /// Operational mode.
    pub mode: TransportMode,
    /// Request queue name (Server and FullDuplex).
    pub request_queue: Option<String>,
    /// Response queue name (Client and FullDuplex).
    pub response_queue: Option<String>,
    /// Explicit transport type, or `None` to try each in turn.
    pub transport_type: Option<String>,
    /// Broker keep-alive interval in seconds.
    pub keep_alive_secs: Option<u16>,
}

/// A destination to which envelopes are published; opaque to the domain layer.
#[derive(Debug, Clone, PartialEq, Eq, Hash)]
pub struct Address(pub String);

impl View for Address {
    type V = Seq<char>;

    open spec fn view(&self) -> Seq<char> {
        self.0@
    }
}

impl Address {
    /// An address with the given characters.
    pub fn new(s: &str) -> (r: Self)
        ensures
            r@ == s@,
    {
        Address(String::from_str(s))
    }

    /// The address as a string slice.
    pub fn as_str(&self) -> (r: &str)
        ensures
            r@ == self@,
    {
        self.0.as_str()
    }

    /// A copy of this address.
    pub fn duplicate(&self) -> (r: Self)
        ensures
            r@ == self@,
    {
        Address(self.0.clone())
    }
}

impl From<String> for Address {
    fn from(value: String) -> (r: Self) {
        Address(value)
    }
}

impl vstd::std_specs::convert::FromSpecImpl<String> for Address {
    open spec fn obeys_from_spec() -> bool {
        true
    }

    open spec fn from_spec(v: String) -> Self {
        Address(v)
    }
}

/// A request to receive the envelopes published to matching addresses.
///
/// Reference semantics: a subscription matches an address exactly when
/// their characters are equal.
#[derive(Debug, Clone, PartialEq, Eq, Hash)]
pub struct Subscription(pub String);

impl View for Subscription {
    type V = Seq<char>;

    open spec fn view(&self) -> Seq<char> {
        self.0@
    }
}

impl Subscription {
    /// A subscription with the given characters.
    pub fn new(s: &str) -> (r: Self)
        ensures
            r@ == s@,
    {
        Subscription(String::from_str(s))
    }

    /// The subscription as a string slice.
    pub fn as_str(&self) -> (r: &str)
        ensures
            r@ == self@,
    {
        self.0.as_str()
    }

    /// Whether this subscription receives envelopes published to `address`.
    pub fn matches(&self, address: &Address) -> (r: bool)
        ensures
            r == (self@ == address@),
    {
        self.0 == address.0
    }
}

impl From<String> for Subscription {
    fn from(value: String) -> (r: Self) {
        Subscription(value)
    }
}

impl vstd::std_specs::convert::FromSpecImpl<String> for Subscription {
    open spec fn obeys_from_spec() -> bool {
        true
    }

    open spec fn from_spec(v: String) -> Self {
        Subscription(v)
    }
}

impl From<Address> for Subscription {
    fn from(address: Address) -> (r: Self) {
        Subscription(address.0)
    }
}

impl vstd::std_specs::convert::FromSpecImpl<Address> for Subscription {
    open spec fn obeys_from_spec() -> bool {
        true
    }

    open spec fn from_spec(v: Address) -> Self {
        Subscription(v.0)
    }
}

/// The unit of transport: a payload with the metadata that the RPC layer uses.
#[derive(Debug, Clone)]
pub struct Envelope {
    /// Delivery address.
    pub address: Address,
    /// Method name; set on requests, `None` on responses.
    pub method: Option<String>,
    /// Opaque payload bytes.
    pub payload: Vec<u8>,
    /// Identifier that associates a response with its request.
    pub correlation_id: Option<String>,
    /// Where the response to a request must be sent.
    pub reply_to: Option<Address>,
    /// Payload format (informational).
    pub content_type: Option<String>,
}

/// Two envelopes carry the same address, metadata and payload.
pub open spec fn same_envelope(a: Envelope, b: Envelope) -> bool {
    &&& a.address@ == b.address@
    &&& opt_str_view(a.method) == opt_str_view(b.method)
    &&& a.payload@ == b.payload@
    &&& opt_str_view(a.correlation_id) == opt_str_view(b.correlation_id)
    &&& a.reply_to.is_some() == b.reply_to.is_some()
    &&& (a.reply_to.is_some() ==> a.reply_to.unwrap()@ == b.reply_to.unwrap()@)
    &&& opt_str_view(a.content_type) == opt_str_view(b.content_type)
}

impl Envelope {
    /// A copy of this envelope with the same addresses, metadata and payload.
    pub fn duplicate(&self) -> (r: Self)
        ensures
            same_envelope(r, *self),
            r.address@ == self.address@,
            opt_str_view(r.method) == opt_str_view(self.method),
            r.payload@ == self.payload@,
            opt_str_view(r.correlation_id) == opt_str_view(self.correlation_id),
            r.reply_to.is_some() == self.reply_to.is_some(),
            r.reply_to.is_some() ==> r.reply_to.unwrap()@ == self.reply_to.unwrap()@,
            opt_str_view(r.content_type) == opt_str_view(self.content_type),
    {
        let reply_to = match &self.reply_to {
            Some(a) => Some(a.duplicate()),
            None => None,
        };
        let mut payload: Vec<u8> = Vec::new();
        let mut i: usize = 0;
        while i < self.payload.len()
            invariant
                0 <= i <= self.payload@.len(),
                payload@ == self.payload@.take(i as int),
            decreases self.payload@.len() - i,
        {
            payload.push(self.payload[i]);
            i = i + 1;
            assert(payload@ =~= self.payload@.take(i as int));
        }
        assert(self.payload@.take(self.payload@.len() as int) =~= self.payload@);
        Envelope {
            address: self.address.duplicate(),
            method: copy_opt_string(&self.method),
            payload,
            correlation_id: copy_opt_string(&self.correlation_id),
            reply_to,
            content_type: copy_opt_string(&self.content_type),
        }
    }

    /// A request envelope: every metadata field is set.
    pub fn request(
        address: Address,
        method: String,
        payload: Vec<u8>,
        correlation_id: String,
        reply_to: Address,
        content_type: String,
    ) -> (r: Self)
        ensures
            r.address == address,
            r.method == Some(method),
            r.payload == payload,
            r.correlation_id == Some(correlation_id),
            r.reply_to == Some(reply_to),
            r.content_type == Some(content_type),
    {
        Envelope {
            address,
            method: Some(method),
            payload,
            correlation_id: Some(correlation_id),
            reply_to: Some(reply_to),
            content_type: Some(content_type),
        }
    }

    /// A response envelope: no method and no reply address.
    pub fn response(
        address: Address,
        payload: Vec<u8>,
        correlation_id: String,
        content_type: String,
    ) -> (r: Self)
        ensures
            r.address == address,
            r.method.is_none(),
            r.payload == payload,
            r.correlation_id == Some(correlation_id),
            r.reply_to.is_none(),
            r.content_type == Some(content_type),
    {
        Envelope {
            method: None,
            address,
            payload,
            correlation_id: Some(correlation_id),
            reply_to: None,
            content_type: Some(content_type),
        }
    }
}

} // verus!
