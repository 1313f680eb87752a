//! Moving messages to the trash.
use vstd::prelude::*;

verus! {

/// Arguments of the command moving messages to the trash.
#[derive(Debug, Clone)]
pub struct GmailMessageTrashCommand {
    /// The ids of the messages.
    pub ids: Vec<String>,
}

} // verus!
