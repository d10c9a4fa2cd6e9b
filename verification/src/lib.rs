//! A simulated link layer for exercising an embedded network stack inside a
//! single process: a duplex in-memory channel pair, a device adapter with
//! non-blocking receive/transmit gating, single-use transfer tokens, and the
//! pure decision logic of the node orchestration layer.

pub mod channel;
pub mod connection;
pub mod machine;
pub mod node;
pub mod token;
