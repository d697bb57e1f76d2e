//! The Kafka side of the relay: record keys and the send loops.
pub mod client;
pub mod consume;
pub mod inbound;
pub mod keys;
pub mod relay;
pub mod wss;
