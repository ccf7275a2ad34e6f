//! Verified core of a LoRes app node: error mapping, reconnection backoff,
//! the decisions of the subscription, drain, outbox and publish flows, the
//! projection database's schema bookkeeping, and the websites app's
//! operations and projections.

pub mod errors;
pub mod text;
pub mod backoff;
pub mod subscription;
pub mod consumer;
pub mod node;
pub mod outbox;
pub mod projection;
pub mod websites;
pub mod static_sites;
pub mod realtime;
pub mod grpc;
