//! Restoring messages from the trash.
use vstd::prelude::*;

verus! {

/// Arguments of the command restoring messages from the trash.
#[derive(Debug, Clone)]
pub struct GmailMessageUntrashCommand {
    /// The ids of the messages.
    pub ids: Vec<String>,
}

} // verus!
