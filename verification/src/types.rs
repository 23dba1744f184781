//! The plain data of the protocol and of the engine.

pub mod bencode;
pub mod bitfield;
pub mod message;
pub mod peer;
pub mod piece;
