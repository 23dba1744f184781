//! One peer at the other end of a transport.

pub mod client;
