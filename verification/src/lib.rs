//! A BitTorrent peer-wire engine: the wire codec, the per-peer connection
//! state, the per-piece download state machine and the decisions of the
//! workers and of the orchestrator, each with a machine-checked contract.
//!
//! Sockets, channels, timers and files are left to the caller: every step
//! here takes the bytes or the event that arrived and answers with the new
//! state and with what to do next.

pub mod connection;
pub mod engine;
pub mod protocol;
pub mod serializer;
pub mod shared;
pub mod types;
pub mod utils;
