//! Helpers on piece geometry and on the metadata's raw fields.

pub mod calculator;
pub mod manipulator;
