//! The flag subcommands.
use vstd::prelude::*;

use crate::gmail::flag::add::GmailFlagAddCommand;
use crate::gmail::flag::remove::GmailFlagRemoveCommand;

verus! {

/// The flag subcommands.
#[derive(Debug, Clone)]
pub enum GmailFlagCommand {
    Add(GmailFlagAddCommand),
    Remove(GmailFlagRemoveCommand),
}

} // verus!
