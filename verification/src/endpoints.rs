//! Decisions of the broker-backed transports that do not depend on the
//! broker client: reading endpoint URIs, serializing subscription requests,
//! classifying connection failures and the delivery profile of RPC traffic.

use crate::error::RpcError;
use crate::text::{
    find_char, first_index_of, parse_u16, parse_u16_spec, starts_with, str_skip, str_starts_with,
    str_take,
};
use vstd::prelude::*;
use vstd::string::*;

verus! {

/// The DDS domain named by a transport URI of the form `dds:<domain>`:
/// domain 0 when there is no URI, when it lacks the `dds:` prefix, or when
/// the rest is not a `u16`.
pub open spec fn domain_id_of(uri: Option<Seq<char>>) -> u16 {
    match uri {
        None => 0,
        Some(u) => {
            let rest = if starts_with(u, "dds:"@) {
                u.skip(4)
            } else {
                Seq::<char>::empty()
            };
            match parse_u16_spec(rest) {
                Some(d) => d,
                None => 0,
            }
        },
    }
}

/// Parses the DDS domain id from the transport URI (`dds:45` is domain 45).
pub fn parse_domain_id(uri: Option<&str>) -> (r: u16)
    ensures
        r == domain_id_of(match uri {
            Some(u) => Some(u@),
            None => None,
        }),
{
    match uri {
        None => 0,
        Some(u) => {
            proof {
                reveal_strlit("dds:");
            }
            let rest: &str = if str_starts_with(u, "dds:") {
                str_skip(u, 4)
            } else {
                ""
            };
            proof {
                reveal_strlit("");
            }
            match parse_u16(rest) {
                Some(d) => d,
                None => 0,
            }
        },
    }
}

/// Default MQTT broker port.
pub const DEFAULT_MQTT_PORT: u16 = 1883;

/// The broker address without its `mqtt://` or `tcp://` scheme.
pub open spec fn without_scheme(addr: Seq<char>) -> Seq<char> {
    if starts_with(addr, "mqtt://"@) {
        addr.skip(7)
    } else if starts_with(addr, "tcp://"@) {
        addr.skip(6)
    } else {
        addr
    }
}

/// Host and port of an MQTT broker address, or `None` when the text after
/// the first `:` is not a valid port.
pub open spec fn host_port_of(addr: Seq<char>) -> Option<(Seq<char>, u16)> {
    let url = without_scheme(addr);
    match first_index_of(url, ':') {
        None => Some((url, 1883u16)),
        Some(i) => match parse_u16_spec(url.skip(i + 1)) {
            Some(p) => Some((url.take(i), p)),
            None => None,
        },
    }
}

/// The broker address without its `mqtt://` or `tcp://` scheme.
pub fn strip_scheme(broker_addr: &str) -> (r: &str)
    ensures
        r@ == without_scheme(broker_addr@),
{
    proof {
        reveal_strlit("mqtt://");
        reveal_strlit("tcp://");
    }
    if str_starts_with(broker_addr, "mqtt://") {
        str_skip(broker_addr, 7)
    } else if str_starts_with(broker_addr, "tcp://") {
        str_skip(broker_addr, 6)
    } else {
        broker_addr
    }
}

/// Host and port of `url` (an address without scheme): the text before the
/// first `:` and the port after it (1883 when there is no `:`); `None` when
/// the port is invalid.
fn split_host_port(url: &str) -> (r: Option<(String, u16)>)
    ensures
        match first_index_of(url@, ':') {
            None => r matches Some((h, p)) && h@ == url@ && p == 1883,
            Some(i) => match parse_u16_spec(url@.skip(i + 1)) {
                Some(port) => r matches Some((h, p)) && h@ == url@.take(i) && p == port,
                None => r.is_none(),
            },
        },
{
    let _len = url.unicode_len();
    assert(url@.len() == _len);
    match find_char(url, ':') {
        None => Some((String::from_str(url), DEFAULT_MQTT_PORT)),
        Some(i) => {
            let port_text = str_skip(url, i + 1);
            match parse_u16(port_text) {
                Some(p) => Some((String::from_str(str_take(url, i)), p)),
                None => None,
            }
        },
    }
}

/// Splits an MQTT broker address (`mqtt://host:port`, `tcp://host:port`,
/// `host:port` or `host`) into host and port; the port defaults to 1883.
/// An invalid port is a transport error naming the address.
pub fn parse_broker_addr(broker_addr: &str) -> (r: Result<(String, u16), RpcError>)
    ensures
        match host_port_of(broker_addr@) {
            Some((h, p)) => r matches Ok((host, port)) && host@ == h && port == p,
            None => r matches Err(RpcError::Transport(m)) && m@ == "invalid port in broker URL "@
                + broker_addr@,
        },
{
    let url = strip_scheme(broker_addr);
    match split_host_port(url) {
        Some(hp) => Ok(hp),
        None => {
            let mut m = String::from_str("invalid port in broker URL ");
            m.append(broker_addr);
            Err(RpcError::Transport(m))
        },
    }
}

/// The first `:` of `h + ":" + t`, when `h` has none, is the one after `h`.
proof fn lemma_first_colon_after_host(h: Seq<char>, t: Seq<char>)
    requires
        forall|i: int| 0 <= i < h.len() ==> h[i] != ':',
    ensures
        first_index_of(h + seq![':'] + t, ':') == Some(h.len() as int),
{
    let u = h + seq![':'] + t;
    assert(u[h.len() as int] == ':');
    let c = choose|i: int| 0 <= i < u.len() && u[i] == ':' && forall|j: int| 0 <= j < i ==> u[j] != ':';
    assert(forall|j: int| 0 <= j < h.len() ==> u[j] == h[j]);
    assert(forall|j: int| 0 <= j < h.len() as int ==> u[j] != ':');
    assert(0 <= c < u.len() && u[c] == ':' && forall|j: int| 0 <= j < c ==> u[j] != ':');
    if c < h.len() {
        assert(u[c] == h[c]);
    }
    if c > h.len() {
        assert(u[h.len() as int] == ':');
    }
}

/// The scheme does not matter: `mqtt://` or `tcp://` in front of an address
/// without scheme gives the same host and port as the bare address.
pub proof fn lemma_broker_addr_scheme(h: Seq<char>)
    requires
        !starts_with(h, "mqtt://"@),
        !starts_with(h, "tcp://"@),
    ensures
        host_port_of("mqtt://"@ + h) == host_port_of(h),
        host_port_of("tcp://"@ + h) == host_port_of(h),
{
    reveal_strlit("mqtt://");
    reveal_strlit("tcp://");
    let m = "mqtt://"@;
    let tc = "tcp://"@;
    assert((m + h).take(7) =~= m);
    assert((m + h).skip(7) =~= h);
    assert(without_scheme(m + h) == h);
    assert((tc + h).take(6) =~= tc);
    assert((tc + h).skip(6) =~= h);
    assert(!starts_with(tc + h, m)) by {
        if starts_with(tc + h, m) {
            assert((tc + h).take(7)[0] == (tc + h)[0]);
        }
    }
    assert(without_scheme(tc + h) == h);
}

/// An address with no `:` after its scheme is all host, on port 1883.
pub proof fn lemma_broker_addr_default_port(a: Seq<char>)
    requires
        forall|i: int| 0 <= i < without_scheme(a).len() ==> without_scheme(a)[i] != ':',
    ensures
        host_port_of(a) == Some((without_scheme(a), 1883u16)),
{
}

/// An address whose first `:` (after the scheme) follows the host `h` splits
/// there: a valid port text `t` gives host `h` and that port; an invalid one
/// gives no host and port (`parse_broker_addr` then reports an error).
pub proof fn lemma_broker_addr_explicit_port(h: Seq<char>, t: Seq<char>)
    requires
        forall|i: int| 0 <= i < h.len() ==> h[i] != ':',
    ensures
        host_port_of("mqtt://"@ + h + seq![':'] + t) == match parse_u16_spec(t) {
            Some(p) => Some((h, p)),
            None => None,
        },
{
    reveal_strlit("mqtt://");
    let m = "mqtt://"@;
    let u = h + seq![':'] + t;
    lemma_first_colon_after_host(h, t);
    let a = m + h + seq![':'] + t;
    assert(a =~= m + u);
    assert(a.take(7) =~= m);
    assert(a.skip(7) =~= u);
    assert(without_scheme(a) == u);
    assert(u.take(h.len() as int) =~= h);
    assert(u.skip(h.len() as int + 1) =~= t);
}

/// Answer to a subscription request sent to a transport's actor.
#[derive(Debug, Clone, Copy, PartialEq, Eq, Structural)]
pub enum Ack {
    /// The subscription is confirmed.
    Subscribed,
    /// Another subscription is in flight: wait and ask again.
    Retry,
}

/// How long a subscriber waits after `Ack::Retry` before asking again.
pub const SUBSCRIBE_RETRY_DELAY_MILLIS: u64 = 200;

/// Serializes broker subscriptions: at most one is in flight at a time.
pub struct SubscribeGate {
    pending: bool,
}

impl SubscribeGate {
    /// Whether a subscription is in flight.
    pub closed spec fn in_flight(&self) -> bool {
        self.pending
    }

    /// A gate with no subscription in flight.
    pub fn new() -> (r: Self)
        ensures
            !r.in_flight(),
    {
        SubscribeGate { pending: false }
    }

    /// Asks to start a subscription. While another is in flight the answer
    /// is `Some(Ack::Retry)` and nothing changes; otherwise the subscription
    /// starts (`None`) and is now in flight.
    pub fn begin(&mut self) -> (r: Option<Ack>)
        ensures
            old(self).in_flight() ==> r == Some(Ack::Retry) && final(self).in_flight(),
            !old(self).in_flight() ==> r.is_none() && final(self).in_flight(),
    {
        if self.pending {
            Some(Ack::Retry)
        } else {
            self.pending = true;
            None
        }
    }

    /// Ends the subscription in flight; its broker result becomes the answer.
    pub fn finish(&mut self, subscribed: Result<(), RpcError>) -> (r: Result<Ack, RpcError>)
        ensures
            !final(self).in_flight(),
            subscribed.is_ok() ==> r == Ok::<Ack, RpcError>(Ack::Subscribed),
            subscribed matches Err(e) ==> r == Err::<Ack, RpcError>(e),
    {
        self.pending = false;
        match subscribed {
            Ok(()) => Ok(Ack::Subscribed),
            Err(e) => Err(e),
        }
    }
}

/// Kinds of MQTT connection failure that the transport distinguishes.
#[derive(Debug, Clone, Copy, PartialEq, Eq, Structural)]
pub enum ConnectionFailure {
    /// An I/O error on the socket.
    Io,
    /// The MQTT protocol state machine failed.
    MqttState,
    /// Any other failure.
    Other,
}

/// Whether a connection failure means the broker connection is gone.
pub fn is_disconnect(err: ConnectionFailure) -> (r: bool)
    ensures
        r == (err == ConnectionFailure::Io || err == ConnectionFailure::MqttState),
{
    match err {
        ConnectionFailure::Io | ConnectionFailure::MqttState => true,
        ConnectionFailure::Other => false,
    }
}

/// DDS reliability.
#[derive(Debug, Clone, Copy, PartialEq, Eq, Structural)]
pub enum ReliabilityKind {
    BestEffort,
    Reliable,
}

/// DDS history.
#[derive(Debug, Clone, Copy, PartialEq, Eq, Structural)]
pub enum HistoryKind {
    KeepLast(u32),
    KeepAll,
}

/// DDS durability.
#[derive(Debug, Clone, Copy, PartialEq, Eq, Structural)]
pub enum DurabilityKind {
    Volatile,
    TransientLocal,
    Transient,
    Persistent,
}

/// The delivery profile of an RPC data writer or reader.
#[derive(Debug, Clone, Copy, PartialEq, Eq, Structural)]
pub struct RpcQos {
    /// Reliability kind.
    pub reliability: ReliabilityKind,
    /// Longest time a reliable write may block: seconds part.
    pub max_blocking_secs: i32,
    /// Longest time a reliable write may block: nanoseconds part.
    pub max_blocking_nanos: u32,
    /// History kept per instance.
    pub history: HistoryKind,
    /// Durability kind.
    pub durability: DurabilityKind,
}

/// The RPC profile: reliable delivery that never blocks, only the latest
/// sample kept, and no persistence.
pub open spec fn rpc_qos() -> RpcQos {
    RpcQos {
        reliability: ReliabilityKind::Reliable,
        max_blocking_secs: 0,
        max_blocking_nanos: 0,
        history: HistoryKind::KeepLast(1),
        durability: DurabilityKind::Volatile,
    }
}

/// The profile of RPC data writers.
pub fn build_rpc_writer_qos() -> (r: RpcQos)
    ensures
        r == rpc_qos(),
{
    RpcQos {
        reliability: ReliabilityKind::Reliable,
        max_blocking_secs: 0,
        max_blocking_nanos: 0,
        history: HistoryKind::KeepLast(1),
        durability: DurabilityKind::Volatile,
    }
}

/// The profile of RPC data readers (the same as the writers', so that they match).
pub fn build_rpc_reader_qos() -> (r: RpcQos)
    ensures
        r == rpc_qos(),
{
    RpcQos {
        reliability: ReliabilityKind::Reliable,
        max_blocking_secs: 0,
        max_blocking_nanos: 0,
        history: HistoryKind::KeepLast(1),
        durability: DurabilityKind::Volatile,
    }
}

/// Commands that a transport's actor task receives.
#[derive(Debug, Clone, Copy, PartialEq, Eq, Structural)]
pub enum ActorCommand {
    /// Publish an envelope.
    Publish,
    /// Register a subscription.
    Subscribe,
    /// Shut the transport down.
    Close,
}

/// Whether the actor keeps running after handling a command.
#[derive(Debug, Clone, Copy, PartialEq, Eq, Structural)]
pub enum ActorStep {
    /// Wait for the next command.
    Continue,
    /// Stop the actor.
    Stop,
}

/// The actor stops after `Close` and continues after anything else.
pub fn step_after(cmd: ActorCommand) -> (r: ActorStep)
    ensures
        (r == ActorStep::Stop) == (cmd == ActorCommand::Close),
{
    match cmd {
        ActorCommand::Close => ActorStep::Stop,
        _ => ActorStep::Continue,
    }
}

/// The consumer tag under which an AMQP transport consumes its queues:
/// `{transport_id}-consumer`.
pub fn consumer_tag(transport_id: &str) -> (r: String)
    ensures
        r@ == transport_id@ + "-consumer"@,
{
    let mut s = String::from_str(transport_id);
    s.append("-consumer");
    s
}

/// What publishing on a topic requires first.
#[derive(Debug, Clone, Copy, PartialEq, Eq, Structural)]
pub struct PublishPlan {
    /// No writer exists for the topic yet: create one.
    pub create_writer: bool,
    /// Nothing was published on the topic yet: wait until a reader matches.
    pub wait_for_discovery: bool,
}

/// Per-topic publishing state of a DDS transport: which topics have a
/// writer and on which the first message has gone out.
pub struct PublishTracker {
    writers: crate::table::KeyedTable<bool>,
    first_sent: crate::table::KeyedTable<bool>,
}

impl PublishTracker {
    /// Topics with a writer.
    pub closed spec fn writers(&self) -> Set<Seq<char>> {
        self.writers@.dom()
    }

    /// Topics on which a message has been published.
    pub closed spec fn published(&self) -> Set<Seq<char>> {
        self.first_sent@.dom()
    }

    /// Internal consistency.
    pub closed spec fn wf(&self) -> bool {
        self.writers.wf() && self.first_sent.wf()
    }

    /// No writer, nothing published.
    pub fn new() -> (r: Self)
        ensures
            r.wf(),
            r.writers() == Set::<Seq<char>>::empty(),
            r.published() == Set::<Seq<char>>::empty(),
    {
        let r = PublishTracker {
            writers: crate::table::KeyedTable::new(),
            first_sent: crate::table::KeyedTable::new(),
        };
        assert(r.writers() =~= Set::<Seq<char>>::empty());
        assert(r.published() =~= Set::<Seq<char>>::empty());
        r
    }

    /// What publishing on `topic` requires: a writer if there is none, and
    /// a discovery wait if nothing was published on it yet.
    pub fn plan(&self, topic: &String) -> (r: PublishPlan)
        requires
            self.wf(),
        ensures
            r.create_writer == !self.writers().contains(topic@),
            r.wait_for_discovery == !self.published().contains(topic@),
    {
        PublishPlan {
            create_writer: !self.writers.contains_key(topic),
            wait_for_discovery: !self.first_sent.contains_key(topic),
        }
    }

    /// Records that `topic` has a writer.
    pub fn record_writer(&mut self, topic: &String)
        requires
            old(self).wf(),
        ensures
            final(self).wf(),
            final(self).writers() == old(self).writers().insert(topic@),
            final(self).published() == old(self).published(),
    {
        let _ = self.writers.insert(topic.clone(), true);
        assert(self.writers() =~= old(self).writers().insert(topic@));
    }

    /// Records that the first message on `topic` went out.
    pub fn record_published(&mut self, topic: &String)
        requires
            old(self).wf(),
        ensures
            final(self).wf(),
            final(self).published() == old(self).published().insert(topic@),
            final(self).writers() == old(self).writers(),
    {
        let _ = self.first_sent.insert(topic.clone(), true);
        assert(self.published() =~= old(self).published().insert(topic@));
    }
}

} // verus!
