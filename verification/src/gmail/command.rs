//! The Gmail commands.
use vstd::prelude::*;

use crate::gmail::envelope::command::GmailEnvelopeCommand;
use crate::gmail::flag::command::GmailFlagCommand;
use crate::gmail::label::command::GmailLabelCommand;
use crate::gmail::message::command::GmailMessageCommand;

verus! {

/// The Gmail commands, by resource.
#[derive(Debug, Clone)]
pub enum GmailCommand {
    Label(GmailLabelCommand),
    Envelope(GmailEnvelopeCommand),
    Message(GmailMessageCommand),
    Flag(GmailFlagCommand),
}

} // verus!
