//! The envelope subcommands.
use vstd::prelude::*;

use crate::gmail::envelope::get::GmailEnvelopeGetCommand;
use crate::gmail::envelope::list::GmailEnvelopeListCommand;

verus! {

/// The envelope subcommands.
#[derive(Debug, Clone)]
pub enum GmailEnvelopeCommand {
    List(GmailEnvelopeListCommand),
    Get(GmailEnvelopeGetCommand),
}

} // verus!
