//! Errors surfaced by the RPC layer.

use vstd::prelude::*;

verus! {

/// Errors surfaced by the RPC layer.
///
/// The variants are transport-agnostic: each transport maps its own failures
/// onto one of them.
#[derive(Debug, Clone)]
pub enum RpcError {
    /// A request did not receive a response within its time budget.
    Timeout,
    /// The underlying transport connection was lost.
    ConnectionLost,
    /// A payload could not be serialized or deserialized.
    Serialization(String),
    /// A transport-level failure that is not worth retrying.
    Transport(String),
    /// A transport-level failure that the retry policy may retry.
    TransportRetryable(String),
    /// An operation was called on a broker whose mode forbids it.
    InvalidMode(String),
    /// A required configuration value was not provided.
    MissingConfig(String),
    /// Two configuration choices contradict each other.
    ConfigConflict(String),
    /// No handler is registered for the named method.
    HandlerNotFound(String),
    /// A response could not be interpreted as an RPC response.
    InvalidResponse,
    /// A request carried no method.
    InvalidRequest,
    /// A request carried no reply address.
    MissingResponseTopic,
}

impl RpcError {
    /// True for the one variant that the retry policy retries.
    pub open spec fn is_retryable(self) -> bool {
        self is TransportRetryable
    }

    /// Whether this error is the retryable transport failure.
    pub fn retryable(&self) -> (r: bool)
        ensures
            r == self.is_retryable(),
            r == (self is TransportRetryable),
    {
        match self {
            RpcError::TransportRetryable(_) => true,
            _ => false,
        }
    }
}

/// Only a retryable transport failure is retried: every other error (a lost
/// connection, a timeout, a serialization failure, a plain transport
/// failure, ...) is not retryable.
pub proof fn lemma_only_transport_retryable_retries(e: RpcError)
    ensures
        e.is_retryable() <==> e is TransportRetryable,
        e is ConnectionLost ==> !e.is_retryable(),
        e is Timeout ==> !e.is_retryable(),
        e is Serialization ==> !e.is_retryable(),
        e is Transport ==> !e.is_retryable(),
{
}

} // verus!
