//! Verified core of a relay that moves messages from a WebSocket feed or a
//! Yellowstone gRPC subscription into Kafka (and back).
//!
//! The crate holds the decisions and the data formats of the relay: how the
//! configuration is read from the environment, how Kafka record keys are built
//! and parsed again, how the send loops react to each event, and how metrics
//! requests are routed. Everything that touches the network, the clock or the
//! process environment stays with the caller.
pub mod decimal;
pub mod digest;
pub mod hex;
pub mod action;
pub mod env;
pub mod kafka;
pub mod latency;
pub mod metrics;
pub mod update;
