//! Deleting messages for good.
use vstd::prelude::*;

verus! {

/// Arguments of the command deleting messages for good.
#[derive(Debug, Clone)]
pub struct GmailMessageDeleteCommand {
    /// The ids of the messages.
    pub ids: Vec<String>,
}

} // verus!
