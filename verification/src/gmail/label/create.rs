//! Creating a label.
use vstd::prelude::*;

verus! {

/// Arguments of the command that creates a label.
#[derive(Debug, Clone)]
pub struct GmailLabelCreateCommand {
    /// The name of the new label.
    pub name: String,
}

/// The answer to a created label: `` Label `<id>` successfully created (<name>) ``.
pub fn created_message(id: &str, name: &str) -> (r: String)
    ensures
        r@ == "Label `"@ + id@ + "` successfully created ("@ + name@ + ")"@,
{
    let mut r = crate::text::string_of("Label `");
    r.append(id);
    r.append("` successfully created (");
    r.append(name);
    r.append(")");
    r
}

} // verus!
