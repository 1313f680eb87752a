//! Verified core of a command-line client for the Gmail REST API.
pub mod email;
pub mod gmail;
pub mod number;
pub mod sorted;
pub mod table;
pub mod text;
