//! Client-side request assembly for Azure Service Bus queues and topic
//! subscriptions: shared-access-signature tokens, their cache, the addresses of
//! lock-scoped message operations, and the classification of response codes.

pub mod connection;
pub mod encoding;
pub mod error;
pub mod message;
pub mod queue;
pub mod request;
pub mod sas;
pub mod subscription;
pub mod text;
