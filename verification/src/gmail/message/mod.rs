//! Messages: raw, read, sent, moved to the trash and back, deleted.
pub mod command;
pub mod delete;
pub mod get;
pub mod read;
pub mod send;
pub mod trash;
pub mod untrash;
