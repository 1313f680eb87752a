//! Envelope arguments and flags.
pub mod arg;
pub mod flag;
