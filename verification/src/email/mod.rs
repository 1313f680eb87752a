//! E-mail arguments shared by the commands.
pub mod cli;
pub mod envelope;
