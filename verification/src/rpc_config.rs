//! Transport-agnostic RPC configuration.

use crate::retry::RetryConfig;
use vstd::prelude::*;
use vstd::string::*;

verus! {

/// Default time to wait for a response on each attempt: 30 s, in nanoseconds.
pub const DEFAULT_REQUEST_TIMEOUT_NANOS: u64 = 30_000_000_000;

/// Connection parameters and request policy of an RPC endpoint.
#[derive(Debug, Clone)]
pub struct RpcConfig {
    /// Transport URI; `None` for brokerless transports.
    pub transport_uri: Option<String>,
    /// Broker keep-alive interval in seconds.
    pub keep_alive_secs: Option<u16>,
    /// Identifier of the transport instance.
    pub transport_id: String,
    /// Custom request queue name.
    pub request_queue_name: Option<String>,
    /// Custom response queue name.
    pub response_queue_name: Option<String>,
    /// Retry policy for retryable transport failures.
    pub retry_config: Option<RetryConfig>,
    /// Time to wait for a response on each attempt, in nanoseconds.
    pub request_timeout_nanos: u64,
}

impl RpcConfig {
    /// A configuration for a broker at `transport_uri`.
    pub fn with_broker(transport_uri: &str, transport_id: &str) -> (r: Self)
        ensures
            r.transport_uri matches Some(u) && u@ == transport_uri@,
            r.keep_alive_secs.is_none(),
            r.transport_id@ == transport_id@,
            r.request_queue_name.is_none(),
            r.response_queue_name.is_none(),
            r.retry_config.is_none(),
            r.request_timeout_nanos == DEFAULT_REQUEST_TIMEOUT_NANOS,
    {
        RpcConfig {
            transport_uri: Some(String::from_str(transport_uri)),
            keep_alive_secs: None,
            transport_id: String::from_str(transport_id),
            request_queue_name: None,
            response_queue_name: None,
            retry_config: None,
            request_timeout_nanos: DEFAULT_REQUEST_TIMEOUT_NANOS,
        }
    }

    /// A configuration for the in-memory transport (no broker).
    pub fn memory(transport_id: &str) -> (r: Self)
        ensures
            r.transport_uri.is_none(),
            r.keep_alive_secs.is_none(),
            r.transport_id@ == transport_id@,
            r.request_queue_name.is_none(),
            r.response_queue_name.is_none(),
            r.retry_config.is_none(),
            r.request_timeout_nanos == DEFAULT_REQUEST_TIMEOUT_NANOS,
    {
        RpcConfig {
            transport_uri: None,
            keep_alive_secs: None,
            transport_id: String::from_str(transport_id),
            request_queue_name: None,
            response_queue_name: None,
            retry_config: None,
            request_timeout_nanos: DEFAULT_REQUEST_TIMEOUT_NANOS,
        }
    }

    /// Sets the keep-alive interval.
    pub fn with_keep_alive_secs(self, secs: u16) -> (r: Self)
        ensures
            r == (RpcConfig { keep_alive_secs: Some(secs), ..self }),
    {
        RpcConfig { keep_alive_secs: Some(secs), ..self }
    }

    /// Sets a custom request queue name.
    pub fn with_request_queue_name(self, name: &str) -> (r: Self)
        ensures
            r.request_queue_name matches Some(n) && n@ == name@,
            r == (RpcConfig { request_queue_name: r.request_queue_name, ..self }),
    {
        RpcConfig { request_queue_name: Some(String::from_str(name)), ..self }
    }

    /// Sets a custom response queue name.
    pub fn with_response_queue_name(self, name: &str) -> (r: Self)
        ensures
            r.response_queue_name matches Some(n) && n@ == name@,
            r == (RpcConfig { response_queue_name: r.response_queue_name, ..self }),
    {
        RpcConfig { response_queue_name: Some(String::from_str(name)), ..self }
    }

    /// Enables retries with the given policy.
    pub fn with_retry(self, config: RetryConfig) -> (r: Self)
        ensures
            r == (RpcConfig { retry_config: Some(config), ..self }),
    {
        RpcConfig { retry_config: Some(config), ..self }
    }

    /// Sets the per-attempt response timeout.
    pub fn with_request_timeout(self, timeout_nanos: u64) -> (r: Self)
        ensures
            r == (RpcConfig { request_timeout_nanos: timeout_nanos, ..self }),
    {
        RpcConfig { request_timeout_nanos: timeout_nanos, ..self }
    }
}

} // verus!
