//! Fluent configuration of RPC brokers.
//!
//! The builder holds the transport handle with its id and mode, and the
//! optional retry and timeout settings; `build` resolves them into the
//! settings a broker runs with.

use crate::broker_mode::BrokerMode;
use crate::domain::{TransportBase, TransportMode};
use crate::retry::RetryConfig;
use crate::rpc_config::DEFAULT_REQUEST_TIMEOUT_NANOS;
use vstd::prelude::*;
use vstd::string::*;

verus! {

/// The broker mode that a transport mode implies.
pub open spec fn broker_mode_of(mode: TransportMode) -> BrokerMode {
    match mode {
        TransportMode::Client => BrokerMode::Client,
        TransportMode::Server => BrokerMode::Server,
        TransportMode::FullDuplex => BrokerMode::FullDuplex,
    }
}

/// Maps a transport mode to the broker mode.
pub fn broker_mode_for(mode: TransportMode) -> (r: BrokerMode)
    ensures
        r == broker_mode_of(mode),
{
    match mode {
        TransportMode::Client => BrokerMode::Client,
        TransportMode::Server => BrokerMode::Server,
        TransportMode::FullDuplex => BrokerMode::FullDuplex,
    }
}

/// Resolved broker settings.
#[derive(Debug, Clone)]
pub struct BrokerSettings {
    /// Logical node id of the broker.
    pub node_id: String,
    /// Operational mode.
    pub mode: BrokerMode,
    /// Retry policy, if any retry setting was given.
    pub retry_config: Option<RetryConfig>,
    /// Default time budget of a request, in nanoseconds.
    pub request_timeout_nanos: u64,
}

/// Builder for RPC brokers over a transport handle `T`.
pub struct RpcBrokerBuilder<T> {
    transport: T,
    transport_id: String,
    transport_mode: TransportMode,
    node_id: Option<String>,
    retry_max_attempts: Option<u32>,
    retry_multiplier: Option<u32>,
    retry_initial_delay: Option<u64>,
    retry_max_delay: Option<u64>,
    request_timeout: Option<u64>,
}

/// What an `RpcBrokerBuilder` holds besides the transport handle.
pub ghost struct RpcBrokerBuilderView {
    pub transport_id: Seq<char>,
    pub transport_mode: TransportMode,
    pub node_id: Option<Seq<char>>,
    pub retry_max_attempts: Option<u32>,
    pub retry_multiplier: Option<u32>,
    pub retry_initial_delay: Option<u64>,
    pub retry_max_delay: Option<u64>,
    pub request_timeout: Option<u64>,
}

/// The retry policy that the builder settings give: none unless some retry
/// setting was given; otherwise each missing setting takes its default
/// (3 retries, factor 2, 100 ms, 5 s).
pub open spec fn retry_config_of(b: RpcBrokerBuilderView) -> Option<RetryConfig> {
    if b.retry_max_attempts.is_some() || b.retry_multiplier.is_some()
        || b.retry_initial_delay.is_some() || b.retry_max_delay.is_some() {
        Some(
            RetryConfig {
                max_attempts: match b.retry_max_attempts {
                    Some(v) => v,
                    None => 3,
                },
                multiplier_permille: match b.retry_multiplier {
                    Some(v) => v,
                    None => 2000,
                },
                initial_delay_nanos: match b.retry_initial_delay {
                    Some(v) => v,
                    None => 100_000_000,
                },
                max_delay_nanos: match b.retry_max_delay {
                    Some(v) => v,
                    None => 5_000_000_000,
                },
            },
        )
    } else {
        None
    }
}

/// Each retry setting given to the builder turns the retry policy on and is
/// carried into it unchanged; a setting left out takes its default (3
/// retries, factor 2, 100 ms, 5 s); with no retry setting at all there is no
/// policy.
pub proof fn lemma_retry_settings(b: RpcBrokerBuilderView)
    ensures
        b.retry_max_attempts matches Some(n) ==> retry_config_of(b) matches Some(c)
            && c.max_attempts == n,
        b.retry_multiplier matches Some(m) ==> retry_config_of(b) matches Some(c)
            && c.multiplier_permille == m,
        b.retry_initial_delay matches Some(d) ==> retry_config_of(b) matches Some(c)
            && c.initial_delay_nanos == d,
        b.retry_max_delay matches Some(d) ==> retry_config_of(b) matches Some(c)
            && c.max_delay_nanos == d,
        retry_config_of(b) matches Some(c) ==> {
            &&& b.retry_max_attempts.is_none() ==> c.max_attempts == 3
            &&& b.retry_multiplier.is_none() ==> c.multiplier_permille == 2000
            &&& b.retry_initial_delay.is_none() ==> c.initial_delay_nanos == 100_000_000
            &&& b.retry_max_delay.is_none() ==> c.max_delay_nanos == 5_000_000_000
        },
        b.retry_max_attempts.is_none() && b.retry_multiplier.is_none()
            && b.retry_initial_delay.is_none() && b.retry_max_delay.is_none()
            ==> retry_config_of(b).is_none(),
{
}

impl<T> View for RpcBrokerBuilder<T> {
    type V = RpcBrokerBuilderView;

    closed spec fn view(&self) -> RpcBrokerBuilderView {
        RpcBrokerBuilderView {
            transport_id: self.transport_id@,
            transport_mode: self.transport_mode,
            node_id: match self.node_id {
                Some(n) => Some(n@),
                None => None,
            },
            retry_max_attempts: self.retry_max_attempts,
            retry_multiplier: self.retry_multiplier,
            retry_initial_delay: self.retry_initial_delay,
            retry_max_delay: self.retry_max_delay,
            request_timeout: self.request_timeout,
        }
    }
}

impl<T> RpcBrokerBuilder<T> {
    /// The transport handle the builder holds.
    pub closed spec fn transport(&self) -> T {
        self.transport
    }

    /// A builder over `transport`, whose id and mode are those of `base`.
    pub fn new(transport: T, base: &TransportBase) -> (r: Self)
        ensures
            r.transport() == transport,
            r@ == (RpcBrokerBuilderView {
                transport_id: base.transport_id@,
                transport_mode: base.mode,
                node_id: None,
                retry_max_attempts: None,
                retry_multiplier: None,
                retry_initial_delay: None,
                retry_max_delay: None,
                request_timeout: None,
            }),
    {
        RpcBrokerBuilder {
            transport,
            transport_id: base.transport_id.clone(),
            transport_mode: base.mode,
            node_id: None,
            retry_max_attempts: None,
            retry_multiplier: None,
            retry_initial_delay: None,
            retry_max_delay: None,
            request_timeout: None,
        }
    }

    /// Overrides the broker's node id (default: the transport id).
    pub fn node_id(self, id: &str) -> (r: Self)
        ensures
            r.transport() == self.transport(),
            r@ == (RpcBrokerBuilderView { node_id: Some(id@), ..self@ }),
    {
        RpcBrokerBuilder { node_id: Some(String::from_str(id)), ..self }
    }

    /// Sets the maximum number of retries.
    pub fn retry_max_attempts(self, attempts: u32) -> (r: Self)
        ensures
            r.transport() == self.transport(),
            r@ == (RpcBrokerBuilderView { retry_max_attempts: Some(attempts), ..self@ }),
    {
        RpcBrokerBuilder { retry_max_attempts: Some(attempts), ..self }
    }

    /// Sets the backoff multiplier, in thousandths.
    pub fn retry_multiplier(self, multiplier_permille: u32) -> (r: Self)
        ensures
            r.transport() == self.transport(),
            r@ == (RpcBrokerBuilderView { retry_multiplier: Some(multiplier_permille), ..self@ }),
    {
        RpcBrokerBuilder { retry_multiplier: Some(multiplier_permille), ..self }
    }

    /// Sets the delay before the first retry, in nanoseconds.
    pub fn retry_initial_delay(self, delay_nanos: u64) -> (r: Self)
        ensures
            r.transport() == self.transport(),
            r@ == (RpcBrokerBuilderView { retry_initial_delay: Some(delay_nanos), ..self@ }),
    {
        RpcBrokerBuilder { retry_initial_delay: Some(delay_nanos), ..self }
    }

    /// Sets the cap on the delay between retries, in nanoseconds.
    pub fn retry_max_delay(self, delay_nanos: u64) -> (r: Self)
        ensures
            r.transport() == self.transport(),
            r@ == (RpcBrokerBuilderView { retry_max_delay: Some(delay_nanos), ..self@ }),
    {
        RpcBrokerBuilder { retry_max_delay: Some(delay_nanos), ..self }
    }

    /// Sets the default time budget of a request, in nanoseconds.
    pub fn request_timeout(self, timeout_nanos: u64) -> (r: Self)
        ensures
            r.transport() == self.transport(),
            r@ == (RpcBrokerBuilderView { request_timeout: Some(timeout_nanos), ..self@ }),
    {
        RpcBrokerBuilder { request_timeout: Some(timeout_nanos), ..self }
    }

    /// Resolves the settings: the mode follows the transport mode, the node
    /// id defaults to the transport id, a retry policy exists only if some
    /// retry setting was given, and the timeout defaults to 30 s.
    pub fn build(self) -> (r: (T, BrokerSettings))
        ensures
            r.0 == self.transport(),
            r.1.mode == broker_mode_of(self@.transport_mode),
            r.1.node_id@ == match self@.node_id {
                Some(n) => n,
                None => self@.transport_id,
            },
            r.1.retry_config == retry_config_of(self@),
            r.1.request_timeout_nanos == match self@.request_timeout {
                Some(t) => t,
                None => DEFAULT_REQUEST_TIMEOUT_NANOS,
            },
    {
        let mode = broker_mode_for(self.transport_mode);
        let node_id = match self.node_id {
            Some(n) => n,
            None => self.transport_id,
        };
        let retry_config = if self.retry_max_attempts.is_some() || self.retry_multiplier.is_some()
            || self.retry_initial_delay.is_some() || self.retry_max_delay.is_some() {
            Some(
                RetryConfig {
                    max_attempts: match self.retry_max_attempts {
                        Some(v) => v,
                        None => 3,
                    },
                    multiplier_permille: match self.retry_multiplier {
                        Some(v) => v,
                        None => 2000,
                    },
                    initial_delay_nanos: match self.retry_initial_delay {
                        Some(v) => v,
                        None => 100_000_000,
                    },
                    max_delay_nanos: match self.retry_max_delay {
                        Some(v) => v,
                        None => 5_000_000_000,
                    },
                },
            )
        } else {
            None
        };
        let request_timeout_nanos = match self.request_timeout {
            Some(t) => t,
            None => DEFAULT_REQUEST_TIMEOUT_NANOS,
        };
        (self.transport, BrokerSettings { node_id, mode, retry_config, request_timeout_nanos })
    }
}

} // verus!
