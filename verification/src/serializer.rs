//! The wire format: how values become bytes and bytes become values.

pub mod bytes;
pub mod formatter;
pub mod parser;
