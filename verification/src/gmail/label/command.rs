//! The label subcommands.
use vstd::prelude::*;

use crate::gmail::label::create::GmailLabelCreateCommand;
use crate::gmail::label::delete::GmailLabelDeleteCommand;
use crate::gmail::label::list::GmailLabelListCommand;

verus! {

/// The label subcommands.
#[derive(Debug, Clone)]
pub enum GmailLabelCommand {
    List(GmailLabelListCommand),
    Create(GmailLabelCreateCommand),
    Delete(GmailLabelDeleteCommand),
}

} // verus!
