//! Wire-level request and response records of the RPC protocol.

use vstd::prelude::*;

pub use crate::correlation::CorrelationId;

verus! {

/// A request record: the correlation id, the topic on which the response is
/// expected, and the typed payload.
#[derive(Debug)]
pub struct RpcRequest<TReq> {
    /// Correlation id the response must carry.
    pub correlation_id: CorrelationId,
    /// Topic on which the response is expected.
    pub response_topic: String,
    /// Request payload.
    pub payload: TReq,
}

/// A response record: the correlation id of the request it answers and the
/// typed payload.
#[derive(Debug)]
pub struct RpcResponse<TResp> {
    /// Correlation id of the answered request.
    pub correlation_id: CorrelationId,
    /// Response payload.
    pub payload: TResp,
}

} // verus!
