//! Labels: listed, created, deleted.
pub mod command;
pub mod create;
pub mod delete;
pub mod list;
