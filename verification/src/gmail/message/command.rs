//! The message subcommands.
use vstd::prelude::*;

use crate::gmail::message::delete::GmailMessageDeleteCommand;
use crate::gmail::message::get::GmailMessageGetCommand;
use crate::gmail::message::read::GmailMessageReadCommand;
use crate::gmail::message::send::GmailMessageSendCommand;
use crate::gmail::message::trash::GmailMessageTrashCommand;
use crate::gmail::message::untrash::GmailMessageUntrashCommand;

verus! {

/// The message subcommands.
#[derive(Debug, Clone)]
pub enum GmailMessageCommand {
    Get(GmailMessageGetCommand),
    Read(GmailMessageReadCommand),
    Send(GmailMessageSendCommand),
    Trash(GmailMessageTrashCommand),
    Untrash(GmailMessageUntrashCommand),
    Delete(GmailMessageDeleteCommand),
}

} // verus!
