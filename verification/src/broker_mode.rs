//! Operational mode of an RPC broker.

use vstd::prelude::*;

verus! {

/// Operational mode of an RPC broker, which decides the valid operations.
///
/// - `Client`: may send requests, may not register handlers or serve.
/// - `Server`: may register handlers and serve, may not send requests.
/// - `FullDuplex`: may do both.
#[derive(Debug, Clone, Copy, PartialEq, Eq, Structural)]
pub enum BrokerMode {
    /// Subscribes to its response queue and publishes to request queues.
    Client,
    /// Subscribes to its request queue and publishes to response queues.
    Server,
    /// Subscribes to both queues.
    FullDuplex,
}

impl BrokerMode {
    /// Modes in which a broker may send requests.
    pub open spec fn may_request(self) -> bool {
        self is Client || self is FullDuplex
    }

    /// Modes in which a broker may register handlers and serve them.
    pub open spec fn may_serve(self) -> bool {
        self is Server || self is FullDuplex
    }

    /// Whether requests may be sent in this mode.
    pub fn allows_requests(&self) -> (r: bool)
        ensures
            r == self.may_request(),
    {
        match self {
            BrokerMode::Client | BrokerMode::FullDuplex => true,
            BrokerMode::Server => false,
        }
    }

    /// Whether handlers may be registered and served in this mode.
    pub fn allows_serving(&self) -> (r: bool)
        ensures
            r == self.may_serve(),
    {
        match self {
            BrokerMode::Server | BrokerMode::FullDuplex => true,
            BrokerMode::Client => false,
        }
    }
}

/// Every mode allows at least one of the two roles, and only full duplex allows both.
pub proof fn lemma_mode_roles(mode: BrokerMode)
    ensures
        mode.may_request() || mode.may_serve(),
        (mode.may_request() && mode.may_serve()) <==> mode == BrokerMode::FullDuplex,
{
}

} // verus!
