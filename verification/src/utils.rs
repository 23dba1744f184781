//! Arithmetic and encodings shared by the codec and the engine.

pub mod data;
pub mod digest;
pub mod endian;
pub mod hexadecimal;
pub mod text;
pub mod url;
