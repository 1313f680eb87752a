//! Adding flags to messages.
use vstd::prelude::*;

verus! {

/// Arguments of the command that adds flags to messages.
#[derive(Debug, Clone)]
pub struct GmailFlagAddCommand {
    /// The ids of the messages.
    pub ids: Vec<String>,
    /// The flags to add.
    pub flag: Vec<String>,
}

} // verus!
