//! Talking to the tracker.

pub mod tracker;
