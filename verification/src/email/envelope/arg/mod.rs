//! Envelope id arguments.
pub mod ids;
