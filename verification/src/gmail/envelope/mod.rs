//! Envelopes: the headers and flags of messages, listed or one by one.
pub mod command;
pub mod get;
pub mod list;
