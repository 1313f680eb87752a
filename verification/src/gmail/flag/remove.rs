//! Removing flags from messages.
use vstd::prelude::*;

verus! {

/// Arguments of the command that removes flags from messages.
#[derive(Debug, Clone)]
pub struct GmailFlagRemoveCommand {
    /// The ids of the messages.
    pub ids: Vec<String>,
    /// The flags to remove.
    pub flag: Vec<String>,
}

} // verus!
