//! Transport-agnostic RPC over message-oriented middleware: the verified core.
//!
//! The modules below hold the decisions of the RPC layer (configuration
//! resolution, correlation of requests and responses, handler dispatch,
//! subscription fan-out and retry scheduling) with their contracts.

pub mod broker;
pub mod broker_builder;
pub mod broker_mode;
pub mod channel;
pub mod correlation;
pub mod domain;
pub mod endpoints;
pub mod error;
pub mod hub;
pub mod pending;
pub mod protocol;
pub mod retry;
pub mod rpc_config;
pub mod table;
pub mod text;
pub mod transport_builder;

pub use broker_mode::BrokerMode;
pub use domain::{Address, Envelope, Subscription, TransportBase, TransportConfig, TransportMode};
pub use error::RpcError;
pub use correlation::CorrelationId;
pub use pending::PendingRequests;
pub use retry::{apply_jitter, RetryAction, RetryConfig, RetryState};
pub use transport_builder::{after_factory, factory_plan, FactoryStep, TransportBuilder, TransportKind};
pub use broker_builder::{BrokerSettings, RpcBrokerBuilder};
pub use rpc_config::RpcConfig;
pub use broker::{BrokerCore, DispatchPlan, ResponseRoute, ServerStep, ServingOp};
pub use hub::{deliver_and_evict, SubscriberTable};
pub use endpoints::{parse_domain_id, Ack};
pub use protocol::{RpcRequest, RpcResponse};
