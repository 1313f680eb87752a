//! Deleting a label.
use vstd::prelude::*;

verus! {

/// Arguments of the command that deletes a label.
#[derive(Debug, Clone)]
pub struct GmailLabelDeleteCommand {
    /// The id of the label.
    pub id: String,
}

/// The answer to a deleted label: `` Label `<id>` successfully deleted ``.
pub fn deleted_message(id: &str) -> (r: String)
    ensures
        r@ == "Label `"@ + id@ + "` successfully deleted"@,
{
    let mut r = crate::text::string_of("Label `");
    r.append(id);
    r.append("` successfully deleted");
    r
}

} // verus!
