//! Gmail commands: the label and flag rules shared by the envelope,
//! flag, label and message commands.
use chrono::TimeZone;
use vstd::prelude::*;

use crate::number::i64_of_str;
use crate::text::{
    eq_ignore_case_seq, has_seq, is_blank_seq, lower_seq, opt_str_view, starts_with_seq, trim_seq,
    views,
};

pub mod account;
pub mod command;
pub mod envelope;
pub mod error;
pub mod flag;
pub mod label;
pub mod message;
pub mod model;

use self::model::{Label, MessagePayload};

verus! {

/// The system label id that a user-facing label name stands for.
pub open spec fn system_label_id(label: Seq<char>) -> Option<Seq<char>> {
    folder_label_id(lower_seq(trim_seq(label)))
}

/// The system label id of a folder name already trimmed and lower-cased.
pub open spec fn folder_label_id(l: Seq<char>) -> Option<Seq<char>> {
    if l == "inbox"@ {
        Some("INBOX"@)
    } else if l == "sent"@ || l == "sent mail"@ || l == "[gmail]/sent mail"@ || l
        == "[google mail]/sent mail"@ {
        Some("SENT"@)
    } else if l == "draft"@ || l == "drafts"@ || l == "[gmail]/drafts"@ || l
        == "[google mail]/drafts"@ {
        Some("DRAFT"@)
    } else if l == "trash"@ || l == "[gmail]/trash"@ || l == "[google mail]/trash"@ {
        Some("TRASH"@)
    } else if l == "junk"@ || l == "spam"@ || l == "[gmail]/spam"@ || l == "[google mail]/spam"@ {
        Some("SPAM"@)
    } else {
        None
    }
}

/// The folder names of the Gmail system labels, whatever their ASCII case
/// and surrounding whitespace: `inbox`; `sent`, `sent mail` and its
/// `[Gmail]/` and `[Google Mail]/` forms; `draft`, `drafts` and the prefixed
/// `drafts`; `trash` and the prefixed `trash`; `junk`, `spam` and the
/// prefixed `spam`.
pub proof fn lemma_system_folder_names(label: Seq<char>)
    ensures
        lower_seq(trim_seq(label)) == "inbox"@ ==> system_label_id(label) == Some("INBOX"@),
        ({
            let l = lower_seq(trim_seq(label));
            l == "sent"@ || l == "sent mail"@ || l == "[gmail]/sent mail"@ || l
                == "[google mail]/sent mail"@
        }) ==> system_label_id(label) == Some("SENT"@),
        ({
            let l = lower_seq(trim_seq(label));
            l == "draft"@ || l == "drafts"@ || l == "[gmail]/drafts"@ || l
                == "[google mail]/drafts"@
        }) ==> system_label_id(label) == Some("DRAFT"@),
        ({
            let l = lower_seq(trim_seq(label));
            l == "trash"@ || l == "[gmail]/trash"@ || l == "[google mail]/trash"@
        }) ==> system_label_id(label) == Some("TRASH"@),
        ({
            let l = lower_seq(trim_seq(label));
            l == "junk"@ || l == "spam"@ || l == "[gmail]/spam"@ || l == "[google mail]/spam"@
        }) ==> system_label_id(label) == Some("SPAM"@),
{
    let l = lower_seq(trim_seq(label));
    if l == "inbox"@ {
        assert(folder_label_id("inbox"@) == Some("INBOX"@)) by {
            reveal_strlit("inbox");
        }
    }
    if l == "sent"@ {
        assert(folder_label_id("sent"@) == Some("SENT"@)) by {
            reveal_strlit("sent");
            reveal_strlit("inbox");
            assert("sent"@.len() != "inbox"@.len());
        }
    }
    if l == "sent mail"@ {
        assert(folder_label_id("sent mail"@) == Some("SENT"@)) by {
            reveal_strlit("sent mail");
            reveal_strlit("inbox");
            assert("sent mail"@.len() != "inbox"@.len());
        }
    }
    if l == "[gmail]/sent mail"@ {
        assert(folder_label_id("[gmail]/sent mail"@) == Some("SENT"@)) by {
            reveal_strlit("[gmail]/sent mail");
            reveal_strlit("inbox");
            assert("[gmail]/sent mail"@.len() != "inbox"@.len());
        }
    }
    if l == "[google mail]/sent mail"@ {
        assert(folder_label_id("[google mail]/sent mail"@) == Some("SENT"@)) by {
            reveal_strlit("[google mail]/sent mail");
            reveal_strlit("inbox");
            assert("[google mail]/sent mail"@.len() != "inbox"@.len());
        }
    }
    if l == "draft"@ {
        assert(folder_label_id("draft"@) == Some("DRAFT"@)) by {
            reveal_strlit("draft");
            reveal_strlit("inbox");
            reveal_strlit("sent");
            reveal_strlit("sent mail");
            reveal_strlit("[gmail]/sent mail");
            reveal_strlit("[google mail]/sent mail");
            assert("draft"@[0] != "inbox"@[0]);
            assert("draft"@.len() != "sent"@.len());
            assert("draft"@.len() != "sent mail"@.len());
            assert("draft"@.len() != "[gmail]/sent mail"@.len());
            assert("draft"@.len() != "[google mail]/sent mail"@.len());
        }
    }
    if l == "drafts"@ {
        assert(folder_label_id("drafts"@) == Some("DRAFT"@)) by {
            reveal_strlit("drafts");
            reveal_strlit("inbox");
            reveal_strlit("sent");
            reveal_strlit("sent mail");
            reveal_strlit("[gmail]/sent mail");
            reveal_strlit("[google mail]/sent mail");
            assert("drafts"@.len() != "inbox"@.len());
            assert("drafts"@.len() != "sent"@.len());
            assert("drafts"@.len() != "sent mail"@.len());
            assert("drafts"@.len() != "[gmail]/sent mail"@.len());
            assert("drafts"@.len() != "[google mail]/sent mail"@.len());
        }
    }
    if l == "[gmail]/drafts"@ {
        assert(folder_label_id("[gmail]/drafts"@) == Some("DRAFT"@)) by {
            reveal_strlit("[gmail]/drafts");
            reveal_strlit("inbox");
            reveal_strlit("sent");
            reveal_strlit("sent mail");
            reveal_strlit("[gmail]/sent mail");
            reveal_strlit("[google mail]/sent mail");
            assert("[gmail]/drafts"@.len() != "inbox"@.len());
            assert("[gmail]/drafts"@.len() != "sent"@.len());
            assert("[gmail]/drafts"@.len() != "sent mail"@.len());
            assert("[gmail]/drafts"@.len() != "[gmail]/sent mail"@.len());
            assert("[gmail]/drafts"@.len() != "[google mail]/sent mail"@.len());
        }
    }
    if l == "[google mail]/drafts"@ {
        assert(folder_label_id("[google mail]/drafts"@) == Some("DRAFT"@)) by {
            reveal_strlit("[google mail]/drafts");
            reveal_strlit("inbox");
            reveal_strlit("sent");
            reveal_strlit("sent mail");
            reveal_strlit("[gmail]/sent mail");
            reveal_strlit("[google mail]/sent mail");
            assert("[google mail]/drafts"@.len() != "inbox"@.len());
            assert("[google mail]/drafts"@.len() != "sent"@.len());
            assert("[google mail]/drafts"@.len() != "sent mail"@.len());
            assert("[google mail]/drafts"@.len() != "[gmail]/sent mail"@.len());
            assert("[google mail]/drafts"@.len() != "[google mail]/sent mail"@.len());
        }
    }
    if l == "trash"@ {
        assert(folder_label_id("trash"@) == Some("TRASH"@)) by {
            reveal_strlit("trash");
            reveal_strlit("inbox");
            reveal_strlit("sent");
            reveal_strlit("sent mail");
            reveal_strlit("[gmail]/sent mail");
            reveal_strlit("[google mail]/sent mail");
            reveal_strlit("draft");
            reveal_strlit("drafts");
            reveal_strlit("[gmail]/drafts");
            reveal_strlit("[google mail]/drafts");
            assert("trash"@[0] != "inbox"@[0]);
            assert("trash"@.len() != "sent"@.len());
            assert("trash"@.len() != "sent mail"@.len());
            assert("trash"@.len() != "[gmail]/sent mail"@.len());
            assert("trash"@.len() != "[google mail]/sent mail"@.len());
            assert("trash"@[0] != "draft"@[0]);
            assert("trash"@.len() != "drafts"@.len());
            assert("trash"@.len() != "[gmail]/drafts"@.len());
            assert("trash"@.len() != "[google mail]/drafts"@.len());
        }
    }
    if l == "[gmail]/trash"@ {
        assert(folder_label_id("[gmail]/trash"@) == Some("TRASH"@)) by {
            reveal_strlit("[gmail]/trash");
            reveal_strlit("inbox");
            reveal_strlit("sent");
            reveal_strlit("sent mail");
            reveal_strlit("[gmail]/sent mail");
            reveal_strlit("[google mail]/sent mail");
            reveal_strlit("draft");
            reveal_strlit("drafts");
            reveal_strlit("[gmail]/drafts");
            reveal_strlit("[google mail]/drafts");
            assert("[gmail]/trash"@.len() != "inbox"@.len());
            assert("[gmail]/trash"@.len() != "sent"@.len());
            assert("[gmail]/trash"@.len() != "sent mail"@.len());
            assert("[gmail]/trash"@.len() != "[gmail]/sent mail"@.len());
            assert("[gmail]/trash"@.len() != "[google mail]/sent mail"@.len());
            assert("[gmail]/trash"@.len() != "draft"@.len());
            assert("[gmail]/trash"@.len() != "drafts"@.len());
            assert("[gmail]/trash"@.len() != "[gmail]/drafts"@.len());
            assert("[gmail]/trash"@.len() != "[google mail]/drafts"@.len());
        }
    }
    if l == "[google mail]/trash"@ {
        assert(folder_label_id("[google mail]/trash"@) == Some("TRASH"@)) by {
            reveal_strlit("[google mail]/trash");
            reveal_strlit("inbox");
            reveal_strlit("sent");
            reveal_strlit("sent mail");
            reveal_strlit("[gmail]/sent mail");
            reveal_strlit("[google mail]/sent mail");
            reveal_strlit("draft");
            reveal_strlit("drafts");
            reveal_strlit("[gmail]/drafts");
            reveal_strlit("[google mail]/drafts");
            assert("[google mail]/trash"@.len() != "inbox"@.len());
            assert("[google mail]/trash"@.len() != "sent"@.len());
            assert("[google mail]/trash"@.len() != "sent mail"@.len());
            assert("[google mail]/trash"@.len() != "[gmail]/sent mail"@.len());
            assert("[google mail]/trash"@.len() != "[google mail]/sent mail"@.len());
            assert("[google mail]/trash"@.len() != "draft"@.len());
            assert("[google mail]/trash"@.len() != "drafts"@.len());
            assert("[google mail]/trash"@.len() != "[gmail]/drafts"@.len());
            assert("[google mail]/trash"@.len() != "[google mail]/drafts"@.len());
        }
    }
    if l == "junk"@ {
        assert(folder_label_id("junk"@) == Some("SPAM"@)) by {
            reveal_strlit("junk");
            reveal_strlit("inbox");
            reveal_strlit("sent");
            reveal_strlit("sent mail");
            reveal_strlit("[gmail]/sent mail");
            reveal_strlit("[google mail]/sent mail");
            reveal_strlit("draft");
            reveal_strlit("drafts");
            reveal_strlit("[gmail]/drafts");
            reveal_strlit("[google mail]/drafts");
            reveal_strlit("trash");
            reveal_strlit("[gmail]/trash");
            reveal_strlit("[google mail]/trash");
            assert("junk"@.len() != "inbox"@.len());
            assert("junk"@[0] != "sent"@[0]);
            assert("junk"@.len() != "sent mail"@.len());
            assert("junk"@.len() != "[gmail]/sent mail"@.len());
            assert("junk"@.len() != "[google mail]/sent mail"@.len());
            assert("junk"@.len() != "draft"@.len());
            assert("junk"@.len() != "drafts"@.len());
            assert("junk"@.len() != "[gmail]/drafts"@.len());
            assert("junk"@.len() != "[google mail]/drafts"@.len());
            assert("junk"@.len() != "trash"@.len());
            assert("junk"@.len() != "[gmail]/trash"@.len());
            assert("junk"@.len() != "[google mail]/trash"@.len());
        }
    }
    if l == "spam"@ {
        assert(folder_label_id("spam"@) == Some("SPAM"@)) by {
            reveal_strlit("spam");
            reveal_strlit("inbox");
            reveal_strlit("sent");
            reveal_strlit("sent mail");
            reveal_strlit("[gmail]/sent mail");
            reveal_strlit("[google mail]/sent mail");
            reveal_strlit("draft");
            reveal_strlit("drafts");
            reveal_strlit("[gmail]/drafts");
            reveal_strlit("[google mail]/drafts");
            reveal_strlit("trash");
            reveal_strlit("[gmail]/trash");
            reveal_strlit("[google mail]/trash");
            assert("spam"@.len() != "inbox"@.len());
            assert("spam"@[1] != "sent"@[1]);
            assert("spam"@.len() != "sent mail"@.len());
            assert("spam"@.len() != "[gmail]/sent mail"@.len());
            assert("spam"@.len() != "[google mail]/sent mail"@.len());
            assert("spam"@.len() != "draft"@.len());
            assert("spam"@.len() != "drafts"@.len());
            assert("spam"@.len() != "[gmail]/drafts"@.len());
            assert("spam"@.len() != "[google mail]/drafts"@.len());
            assert("spam"@.len() != "trash"@.len());
            assert("spam"@.len() != "[gmail]/trash"@.len());
            assert("spam"@.len() != "[google mail]/trash"@.len());
        }
    }
    if l == "[gmail]/spam"@ {
        assert(folder_label_id("[gmail]/spam"@) == Some("SPAM"@)) by {
            reveal_strlit("[gmail]/spam");
            reveal_strlit("inbox");
            reveal_strlit("sent");
            reveal_strlit("sent mail");
            reveal_strlit("[gmail]/sent mail");
            reveal_strlit("[google mail]/sent mail");
            reveal_strlit("draft");
            reveal_strlit("drafts");
            reveal_strlit("[gmail]/drafts");
            reveal_strlit("[google mail]/drafts");
            reveal_strlit("trash");
            reveal_strlit("[gmail]/trash");
            reveal_strlit("[google mail]/trash");
            assert("[gmail]/spam"@.len() != "inbox"@.len());
            assert("[gmail]/spam"@.len() != "sent"@.len());
            assert("[gmail]/spam"@.len() != "sent mail"@.len());
            assert("[gmail]/spam"@.len() != "[gmail]/sent mail"@.len());
            assert("[gmail]/spam"@.len() != "[google mail]/sent mail"@.len());
            assert("[gmail]/spam"@.len() != "draft"@.len());
            assert("[gmail]/spam"@.len() != "drafts"@.len());
            assert("[gmail]/spam"@.len() != "[gmail]/drafts"@.len());
            assert("[gmail]/spam"@.len() != "[google mail]/drafts"@.len());
            assert("[gmail]/spam"@.len() != "trash"@.len());
            assert("[gmail]/spam"@.len() != "[gmail]/trash"@.len());
            assert("[gmail]/spam"@.len() != "[google mail]/trash"@.len());
        }
    }
    if l == "[google mail]/spam"@ {
        assert(folder_label_id("[google mail]/spam"@) == Some("SPAM"@)) by {
            reveal_strlit("[google mail]/spam");
            reveal_strlit("inbox");
            reveal_strlit("sent");
            reveal_strlit("sent mail");
            reveal_strlit("[gmail]/sent mail");
            reveal_strlit("[google mail]/sent mail");
            reveal_strlit("draft");
            reveal_strlit("drafts");
            reveal_strlit("[gmail]/drafts");
            reveal_strlit("[google mail]/drafts");
            reveal_strlit("trash");
            reveal_strlit("[gmail]/trash");
            reveal_strlit("[google mail]/trash");
            assert("[google mail]/spam"@.len() != "inbox"@.len());
            assert("[google mail]/spam"@.len() != "sent"@.len());
            assert("[google mail]/spam"@.len() != "sent mail"@.len());
            assert("[google mail]/spam"@.len() != "[gmail]/sent mail"@.len());
            assert("[google mail]/spam"@.len() != "[google mail]/sent mail"@.len());
            assert("[google mail]/spam"@.len() != "draft"@.len());
            assert("[google mail]/spam"@.len() != "drafts"@.len());
            assert("[google mail]/spam"@.len() != "[gmail]/drafts"@.len());
            assert("[google mail]/spam"@.len() != "[google mail]/drafts"@.len());
            assert("[google mail]/spam"@.len() != "trash"@.len());
            assert("[google mail]/spam"@.len() != "[gmail]/trash"@.len());
            assert("[google mail]/spam"@.len() != "[google mail]/trash"@.len());
        }
    }
}

/// `a + x == a + y` exactly when `x == y`.
proof fn lemma_prefix_cancel(a: Seq<char>, x: Seq<char>, y: Seq<char>)
    ensures
        (a + x == a + y) <==> x == y,
{
    if a + x == a + y {
        assert(x =~= (a + x).subrange(a.len() as int, (a + x).len() as int));
        assert(y =~= (a + y).subrange(a.len() as int, (a + y).len() as int));
    }
}

/// The `[Gmail]/` and `[Google Mail]/` prefixes are interchangeable: a name
/// under one resolves as the same name under the other.
pub proof fn lemma_gmail_prefixes_agree(a: Seq<char>, b: Seq<char>, x: Seq<char>)
    requires
        lower_seq(trim_seq(a)) == "[gmail]/"@ + x,
        lower_seq(trim_seq(b)) == "[google mail]/"@ + x,
    ensures
        system_label_id(a) == system_label_id(b),
{
    reveal_strlit("[gmail]/");
    reveal_strlit("[google mail]/");
    reveal_strlit("inbox");
    reveal_strlit("sent");
    reveal_strlit("sent mail");
    reveal_strlit("[gmail]/sent mail");
    reveal_strlit("[google mail]/sent mail");
    reveal_strlit("draft");
    reveal_strlit("drafts");
    reveal_strlit("[gmail]/drafts");
    reveal_strlit("[google mail]/drafts");
    reveal_strlit("trash");
    reveal_strlit("[gmail]/trash");
    reveal_strlit("[google mail]/trash");
    reveal_strlit("junk");
    reveal_strlit("spam");
    reveal_strlit("[gmail]/spam");
    reveal_strlit("[google mail]/spam");
    let g = "[gmail]/"@;
    let o = "[google mail]/"@;
    let la = g + x;
    let lb = o + x;
    // Neither starts like a bare name: the first character is `[`.
    assert(la[0] == '[' && lb[0] == '[');
    assert(la.len() == x.len() + 8 && lb.len() == x.len() + 14);
    assert("[gmail]/sent mail"@ =~= g + "sent mail"@);
    assert("[gmail]/drafts"@ =~= g + "drafts"@);
    assert("[gmail]/trash"@ =~= g + "trash"@);
    assert("[gmail]/spam"@ =~= g + "spam"@);
    assert("[google mail]/sent mail"@ =~= o + "sent mail"@);
    assert("[google mail]/drafts"@ =~= o + "drafts"@);
    assert("[google mail]/trash"@ =~= o + "trash"@);
    assert("[google mail]/spam"@ =~= o + "spam"@);
    lemma_prefix_cancel(g, x, "sent mail"@);
    lemma_prefix_cancel(g, x, "drafts"@);
    lemma_prefix_cancel(g, x, "trash"@);
    lemma_prefix_cancel(g, x, "spam"@);
    lemma_prefix_cancel(o, x, "sent mail"@);
    lemma_prefix_cancel(o, x, "drafts"@);
    lemma_prefix_cancel(o, x, "trash"@);
    lemma_prefix_cancel(o, x, "spam"@);
    // A `[gmail]/` name is no `[google mail]/` name and back: the eighth
    // characters differ.
    assert(la.len() == "[google mail]/sent mail"@.len() ==> la[2] != "[google mail]/sent mail"@[2]);
    assert(la.len() == "[google mail]/drafts"@.len() ==> la[2] != "[google mail]/drafts"@[2]);
    assert(la.len() == "[google mail]/trash"@.len() ==> la[2] != "[google mail]/trash"@[2]);
    assert(la.len() == "[google mail]/spam"@.len() ==> la[2] != "[google mail]/spam"@[2]);
    assert(lb.len() == "[gmail]/sent mail"@.len() ==> lb[2] != "[gmail]/sent mail"@[2]);
    assert(lb.len() == "[gmail]/drafts"@.len() ==> lb[2] != "[gmail]/drafts"@[2]);
    assert(lb.len() == "[gmail]/trash"@.len() ==> lb[2] != "[gmail]/trash"@[2]);
    assert(lb.len() == "[gmail]/spam"@.len() ==> lb[2] != "[gmail]/spam"@[2]);
}

/// The id of the first label of `labels` whose id is `label`, or whose name
/// equals `label` ignoring ASCII case.
pub open spec fn first_matching_label(label: Seq<char>, labels: Seq<Label>) -> Option<Seq<char>>
    decreases labels.len(),
{
    if labels.len() == 0 {
        None
    } else if labels[0].id@ == label || eq_ignore_case_seq(labels[0].name@, label) {
        Some(labels[0].id@)
    } else {
        first_matching_label(label, labels.subrange(1, labels.len() as int))
    }
}

/// The label id that `label` designates: a system label first, else a label
/// of `labels` by id or by name.
pub open spec fn resolved_label_id(label: Seq<char>, labels: Seq<Label>) -> Option<Seq<char>> {
    match system_label_id(label) {
        Some(id) => Some(id),
        None => first_matching_label(label, labels),
    }
}

/// The labels keyed by id, as a map built from a list in which a later
/// label replaces an earlier one with the same id.
pub open spec fn labels_map(labels: Seq<Label>) -> Map<Seq<char>, Label>
    decreases labels.len(),
{
    if labels.len() == 0 {
        Map::empty()
    } else {
        labels_map(labels.drop_last()).insert(labels.last().id@, labels.last())
    }
}

/// Labels keyed by their id.
#[derive(Debug, Clone)]
pub struct LabelsById {
    entries: Vec<Label>,
}

impl View for LabelsById {
    type V = Map<Seq<char>, Label>;

    closed spec fn view(&self) -> Map<Seq<char>, Label> {
        labels_map(self.entries@)
    }
}

impl LabelsById {
    /// No label.
    pub fn new() -> (r: Self)
        ensures
            r@ == Map::<Seq<char>, Label>::empty(),
    {
        LabelsById { entries: Vec::new() }
    }

    /// Adds a label, replacing the one with the same id if there is one.
    pub fn insert(&mut self, label: Label)
        ensures
            final(self)@ == old(self)@.insert(label.id@, label),
    {
        let ghost before = self.entries@;
        self.entries.push(label);
        assert(self.entries@.drop_last() == before);
    }

    /// The labels keyed by id; of two labels with one id the later wins.
    pub fn from_labels(labels: Vec<Label>) -> (r: Self)
        ensures
            r@ == labels_map(labels@),
    {
        LabelsById { entries: labels }
    }

    /// The label with this id, if any.
    pub fn get(&self, id: &str) -> (r: Option<&Label>)
        ensures
            match r {
                Some(l) => self@.contains_key(id@) && self@[id@] == *l,
                None => !self@.contains_key(id@),
            },
    {
        let mut i: usize = self.entries.len();
        assert(self.entries@.take(i as int) == self.entries@);
        while i > 0
            invariant
                i <= self.entries@.len(),
                self@.contains_key(id@) == labels_map(self.entries@.take(i as int)).contains_key(
                    id@,
                ),
                self@.contains_key(id@) ==> self@[id@] == labels_map(
                    self.entries@.take(i as int),
                )[id@],
            decreases i,
        {
            let ghost prefix = self.entries@.take(i as int);
            assert(prefix.drop_last() == self.entries@.take(i - 1));
            assert(prefix.last() == self.entries@[i - 1]);
            if crate::text::str_eq(self.entries[i - 1].id.as_str(), id) {
                return Some(&self.entries[i - 1]);
            }
            i = i - 1;
        }
        None
    }
}

/// The display name of a label id: the label's name, or its id when the
/// name is blank, or the id itself for an unknown label.
pub open spec fn display_name(label_id: Seq<char>, by_id: Map<Seq<char>, Label>) -> Seq<char> {
    if by_id.contains_key(label_id) {
        if is_blank_seq(by_id[label_id].name@) {
            by_id[label_id].id@
        } else {
            by_id[label_id].name@
        }
    } else {
        label_id
    }
}

/// Whether a label is the folder being shown and therefore not listed as
/// a custom label (drafts and trash are still listed).
pub open spec fn skips_current_folder(current: Option<Seq<char>>, label_id: Seq<char>) -> bool {
    match current {
        Some(c) => c == label_id && c != "DRAFT"@ && c != "TRASH"@,
        None => false,
    }
}

/// Whether a label id is one of the Gmail labels never shown as custom.
pub open spec fn is_reserved_label(label_id: Seq<char>) -> bool {
    ||| label_id == "INBOX"@
    ||| label_id == "SENT"@
    ||| label_id == "SPAM"@
    ||| label_id == "UNREAD"@
    ||| label_id == "STARRED"@
    ||| label_id == "IMPORTANT"@
    ||| label_id == "CHAT"@
    ||| starts_with_seq(label_id, "CATEGORY_"@)
}

/// Whether the payload or one of its nested parts names a file.
pub open spec fn has_attachment(p: MessagePayload) -> bool
    decreases p,
{
    !is_blank_seq(p.filename@) || parts_have_attachment(p.parts@)
}

/// Whether one of `parts` has an attachment.
pub open spec fn parts_have_attachment(parts: Seq<MessagePayload>) -> bool
    decreases parts,
{
    if parts.len() == 0 {
        false
    } else {
        has_attachment(parts[0]) || parts_have_attachment(parts.subrange(1, parts.len() as int))
    }
}

/// `c` when `id` is among `ids`, else nothing.
pub open spec fn flag_if(ids: Seq<Seq<char>>, id: Seq<char>, c: char) -> Seq<char> {
    if has_seq(ids, id) {
        seq![c]
    } else {
        Seq::empty()
    }
}

/// The one-letter flags of a message: Unread, Flagged (starred),
/// Important, Draft, Trash, then Attachment.
pub open spec fn compact_flags_of(ids: Seq<Seq<char>>, has_attachment: bool) -> Seq<char> {
    flag_if(ids, "UNREAD"@, 'U') + flag_if(ids, "STARRED"@, 'F') + flag_if(ids, "IMPORTANT"@, 'I')
        + flag_if(ids, "DRAFT"@, 'D') + flag_if(ids, "TRASH"@, 'T') + if has_attachment {
        seq!['A']
    } else {
        Seq::empty()
    }
}

/// The display names of the labels of `ids` that are neither the current
/// folder nor reserved, in order.
pub open spec fn custom_labels_of(
    ids: Seq<Seq<char>>,
    current: Option<Seq<char>>,
    by_id: Map<Seq<char>, Label>,
) -> Seq<Seq<char>>
    decreases ids.len(),
{
    if ids.len() == 0 {
        Seq::empty()
    } else {
        let rest = custom_labels_of(ids.drop_last(), current, by_id);
        let id = ids.last();
        if !skips_current_folder(current, id) && !is_reserved_label(id) {
            rest.push(display_name(id, by_id))
        } else {
            rest
        }
    }
}

/// The RFC 3339 rendering, in UTC, of a time given in epoch milliseconds;
/// `None` outside the range of `chrono`'s dates.
pub uninterp spec fn rfc3339_of_millis(ms: i64) -> Option<Seq<char>>;

/// The date that an internal date (epoch milliseconds as text) stands for.
pub open spec fn internal_date_of(value: Seq<char>) -> Option<Seq<char>> {
    match i64_of_str(value) {
        Some(ms) => rfc3339_of_millis(ms),
        None => None,
    }
}

/// Calls `chrono`: `Utc.timestamp_millis_opt(ms).single()` rendered with
/// `to_rfc3339`. The contract claims only that the result is a function of
/// `ms`, named `rfc3339_of_millis`.
#[verifier::external_body]
fn utc_millis_to_rfc3339(ms: i64) -> (r: Option<String>)
    ensures
        crate::text::opt_view(r) == rfc3339_of_millis(ms),
{
    chrono::Utc.timestamp_millis_opt(ms).single().map(|date| date.to_rfc3339())
}

/// Finds the system label id for a user-facing label name: the name is
/// trimmed and compared ignoring ASCII case.
pub fn find_system_label_id(label: &str) -> (r: Option<String>)
    ensures
        crate::text::opt_view(r) == system_label_id(label@),
{
    let t = crate::text::trim(label);
    let l = crate::text::to_lower(t.as_str());
    let s = l.as_str();
    if crate::text::str_eq(s, "inbox") {
        Some(crate::text::string_of("INBOX"))
    } else if crate::text::str_eq(s, "sent") || crate::text::str_eq(s, "sent mail")
        || crate::text::str_eq(s, "[gmail]/sent mail") || crate::text::str_eq(
        s,
        "[google mail]/sent mail",
    ) {
        Some(crate::text::string_of("SENT"))
    } else if crate::text::str_eq(s, "draft") || crate::text::str_eq(s, "drafts")
        || crate::text::str_eq(s, "[gmail]/drafts") || crate::text::str_eq(
        s,
        "[google mail]/drafts",
    ) {
        Some(crate::text::string_of("DRAFT"))
    } else if crate::text::str_eq(s, "trash") || crate::text::str_eq(s, "[gmail]/trash")
        || crate::text::str_eq(s, "[google mail]/trash") {
        Some(crate::text::string_of("TRASH"))
    } else if crate::text::str_eq(s, "junk") || crate::text::str_eq(s, "spam")
        || crate::text::str_eq(s, "[gmail]/spam") || crate::text::str_eq(
        s,
        "[google mail]/spam",
    ) {
        Some(crate::text::string_of("SPAM"))
    } else {
        None
    }
}

/// Resolves a label given by the user to a label id: a system label name,
/// else the id or (ignoring ASCII case) the name of one of `labels`.
pub fn resolve_label_id(label: &str, labels: &[Label]) -> (r: Option<String>)
    ensures
        crate::text::opt_view(r) == resolved_label_id(label@, labels@),
{
    if let Some(system_id) = find_system_label_id(label) {
        return Some(system_id);
    }
    let n: usize = labels.len();
    let mut i: usize = 0;
    assert(labels@.subrange(0, n as int) == labels@);
    while i < n
        invariant
            i <= n == labels@.len(),
            system_label_id(label@) is None,
            first_matching_label(label@, labels@) == first_matching_label(
                label@,
                labels@.subrange(i as int, n as int),
            ),
        decreases n - i,
    {
        let ghost rest = labels@.subrange(i as int, n as int);
        assert(rest[0] == labels@[i as int]);
        if crate::text::str_eq(labels[i].id.as_str(), label) || crate::text::eq_ignore_case(
            labels[i].name.as_str(),
            label,
        ) {
            return Some(labels[i].id.clone());
        }
        assert(rest.subrange(1, rest.len() as int) == labels@.subrange(i + 1, n as int));
        i = i + 1;
    }
    None
}

/// The name under which a label id is shown.
pub fn label_display_name(label_id: &str, labels_by_id: &LabelsById) -> (r: String)
    ensures
        r@ == display_name(label_id@, labels_by_id@),
{
    match labels_by_id.get(label_id) {
        Some(label) => {
            if crate::text::is_blank(label.name.as_str()) {
                label.id.clone()
            } else {
                label.name.clone()
            }
        },
        None => crate::text::string_of(label_id),
    }
}

/// Whether `label_id` is the folder being shown, which is then not listed
/// among the custom labels; drafts and trash are listed all the same.
pub fn should_skip_current_folder_label(current_label_id: Option<&str>, label_id: &str) -> (r:
    bool)
    ensures
        r == skips_current_folder(opt_str_view(current_label_id), label_id@),
{
    match current_label_id {
        Some(current) => crate::text::str_eq(current, label_id) && !crate::text::str_eq(
            current,
            "DRAFT",
        ) && !crate::text::str_eq(current, "TRASH"),
        None => false,
    }
}

/// Whether a label id is reserved by Gmail (never shown as a custom label).
pub fn is_reserved_gmail_label(label_id: &str) -> (r: bool)
    ensures
        r == is_reserved_label(label_id@),
{
    crate::text::str_eq(label_id, "INBOX") || crate::text::str_eq(label_id, "SENT")
        || crate::text::str_eq(label_id, "SPAM") || crate::text::str_eq(label_id, "UNREAD")
        || crate::text::str_eq(label_id, "STARRED") || crate::text::str_eq(label_id, "IMPORTANT")
        || crate::text::str_eq(label_id, "CHAT") || crate::text::starts_with(
        label_id,
        "CATEGORY_",
    )
}

fn part_has_attachment(p: &MessagePayload) -> (r: bool)
    ensures
        r == has_attachment(*p),
    decreases p,
{
    if !crate::text::is_blank(p.filename.as_str()) {
        return true;
    }
    let n: usize = p.parts.len();
    let mut i: usize = 0;
    assert(p.parts@.subrange(0, n as int) == p.parts@);
    while i < n
        invariant
            i <= n == p.parts@.len(),
            parts_have_attachment(p.parts@) == parts_have_attachment(
                p.parts@.subrange(i as int, n as int),
            ),
        decreases n - i,
    {
        let ghost rest = p.parts@.subrange(i as int, n as int);
        assert(rest[0] == p.parts@[i as int]);
        assert(decreases_to!(p => p.parts));
        if part_has_attachment(&p.parts[i]) {
            return true;
        }
        assert(rest.subrange(1, rest.len() as int) == p.parts@.subrange(i + 1, n as int));
        i = i + 1;
    }
    false
}

/// Whether the payload, or one of its nested parts, is an attachment (has
/// a non-blank filename).
pub fn payload_has_attachment(payload: Option<&MessagePayload>) -> (r: bool)
    ensures
        r == match payload {
            Some(p) => has_attachment(*p),
            None => false,
        },
{
    match payload {
        Some(p) => part_has_attachment(p),
        None => false,
    }
}

/// A character is in `a + b` exactly when it is in `a` or in `b`.
proof fn lemma_contains_concat(a: Seq<char>, b: Seq<char>, c: char)
    ensures
        (a + b).contains(c) <==> a.contains(c) || b.contains(c),
{
    if a.contains(c) {
        let i = choose|i: int| 0 <= i < a.len() && a[i] == c;
        assert((a + b)[i] == c);
    }
    if b.contains(c) {
        let i = choose|i: int| 0 <= i < b.len() && b[i] == c;
        assert((a + b)[a.len() + i] == c);
    }
    if (a + b).contains(c) {
        let i = choose|i: int| 0 <= i < (a + b).len() && (a + b)[i] == c;
        if i < a.len() {
            assert(a[i] == c);
        } else {
            assert(b[i - a.len()] == c);
        }
    }
}

/// The letter `c` is among the compact flags exactly when one of the six
/// parts holds it.
proof fn lemma_compact_flags_letter(ids: Seq<Seq<char>>, has_attachment: bool, c: char)
    ensures
        compact_flags_of(ids, has_attachment).contains(c) <==> {
            ||| (has_seq(ids, "UNREAD"@) && c == 'U')
            ||| (has_seq(ids, "STARRED"@) && c == 'F')
            ||| (has_seq(ids, "IMPORTANT"@) && c == 'I')
            ||| (has_seq(ids, "DRAFT"@) && c == 'D')
            ||| (has_seq(ids, "TRASH"@) && c == 'T')
            ||| (has_attachment && c == 'A')
        },
{
    let p1 = flag_if(ids, "UNREAD"@, 'U');
    let p2 = flag_if(ids, "STARRED"@, 'F');
    let p3 = flag_if(ids, "IMPORTANT"@, 'I');
    let p4 = flag_if(ids, "DRAFT"@, 'D');
    let p5 = flag_if(ids, "TRASH"@, 'T');
    let p6: Seq<char> = if has_attachment {
        seq!['A']
    } else {
        Seq::empty()
    };
    lemma_contains_concat(p1, p2, c);
    lemma_contains_concat(p1 + p2, p3, c);
    lemma_contains_concat(p1 + p2 + p3, p4, c);
    lemma_contains_concat(p1 + p2 + p3 + p4, p5, c);
    lemma_contains_concat(p1 + p2 + p3 + p4 + p5, p6, c);
    assert(compact_flags_of(ids, has_attachment) == p1 + p2 + p3 + p4 + p5 + p6);
    assert(seq!['U'].contains(c) <==> c == 'U') by {
        if c == 'U' {
            assert(seq!['U'][0] == c);
        }
    }
    assert(seq!['F'].contains(c) <==> c == 'F') by {
        if c == 'F' {
            assert(seq!['F'][0] == c);
        }
    }
    assert(seq!['I'].contains(c) <==> c == 'I') by {
        if c == 'I' {
            assert(seq!['I'][0] == c);
        }
    }
    assert(seq!['D'].contains(c) <==> c == 'D') by {
        if c == 'D' {
            assert(seq!['D'][0] == c);
        }
    }
    assert(seq!['T'].contains(c) <==> c == 'T') by {
        if c == 'T' {
            assert(seq!['T'][0] == c);
        }
    }
    assert(seq!['A'].contains(c) <==> c == 'A') by {
        if c == 'A' {
            assert(seq!['A'][0] == c);
        }
    }
}

/// Each letter of the compact flags stands for its own label, whatever the
/// other labels are: `U` is there exactly when `UNREAD` is among the ids,
/// `F` when `STARRED` is, `I` when `IMPORTANT` is, `D` when `DRAFT` is, `T`
/// when `TRASH` is, and `A` exactly when the message has an attachment; no
/// other character ever is, and there are at most six.
pub proof fn lemma_compact_flag_letters(ids: Seq<Seq<char>>, has_attachment: bool)
    ensures
        compact_flags_of(ids, has_attachment).contains('U') <==> ids.contains("UNREAD"@),
        compact_flags_of(ids, has_attachment).contains('F') <==> ids.contains("STARRED"@),
        compact_flags_of(ids, has_attachment).contains('I') <==> ids.contains("IMPORTANT"@),
        compact_flags_of(ids, has_attachment).contains('D') <==> ids.contains("DRAFT"@),
        compact_flags_of(ids, has_attachment).contains('T') <==> ids.contains("TRASH"@),
        compact_flags_of(ids, has_attachment).contains('A') <==> has_attachment,
        forall|c: char|
            #![trigger compact_flags_of(ids, has_attachment).contains(c)]
            compact_flags_of(ids, has_attachment).contains(c) ==> c == 'U' || c == 'F' || c
                == 'I' || c == 'D' || c == 'T' || c == 'A',
        compact_flags_of(ids, has_attachment).len() <= 6,
{
    lemma_compact_flags_letter(ids, has_attachment, 'U');
    lemma_compact_flags_letter(ids, has_attachment, 'F');
    lemma_compact_flags_letter(ids, has_attachment, 'I');
    lemma_compact_flags_letter(ids, has_attachment, 'D');
    lemma_compact_flags_letter(ids, has_attachment, 'T');
    lemma_compact_flags_letter(ids, has_attachment, 'A');
    assert forall|c: char| compact_flags_of(ids, has_attachment).contains(c) implies c == 'U'
        || c == 'F' || c == 'I' || c == 'D' || c == 'T' || c == 'A' by {
        lemma_compact_flags_letter(ids, has_attachment, c);
    }
}

/// The compact flags of a message: `U` unread, `F` starred, `I` important,
/// `D` draft, `T` trash, `A` with attachment, in this order.
pub fn compact_flags(label_ids: &[String], has_attachment: bool) -> (r: String)
    ensures
        r@ == compact_flags_of(views(label_ids@), has_attachment),
{
    let ghost ids = views(label_ids@);
    let mut flags = String::new();
    if crate::text::contains_str(label_ids, "UNREAD") {
        flags.push('U');
    }
    assert(flags@ == flag_if(ids, "UNREAD"@, 'U'));
    if crate::text::contains_str(label_ids, "STARRED") {
        flags.push('F');
    }
    assert(flags@ == flag_if(ids, "UNREAD"@, 'U') + flag_if(ids, "STARRED"@, 'F'));
    if crate::text::contains_str(label_ids, "IMPORTANT") {
        flags.push('I');
    }
    assert(flags@ == flag_if(ids, "UNREAD"@, 'U') + flag_if(ids, "STARRED"@, 'F') + flag_if(
        ids,
        "IMPORTANT"@,
        'I',
    ));
    if crate::text::contains_str(label_ids, "DRAFT") {
        flags.push('D');
    }
    assert(flags@ == flag_if(ids, "UNREAD"@, 'U') + flag_if(ids, "STARRED"@, 'F') + flag_if(
        ids,
        "IMPORTANT"@,
        'I',
    ) + flag_if(ids, "DRAFT"@, 'D'));
    if crate::text::contains_str(label_ids, "TRASH") {
        flags.push('T');
    }
    assert(flags@ == flag_if(ids, "UNREAD"@, 'U') + flag_if(ids, "STARRED"@, 'F') + flag_if(
        ids,
        "IMPORTANT"@,
        'I',
    ) + flag_if(ids, "DRAFT"@, 'D') + flag_if(ids, "TRASH"@, 'T'));
    if has_attachment {
        flags.push('A');
    }
    flags
}

/// The display names of a message's labels that are neither the current
/// folder (see `should_skip_current_folder_label`) nor reserved.
pub fn custom_labels(
    label_ids: &[String],
    current_label_id: Option<&str>,
    labels_by_id: &LabelsById,
) -> (r: Vec<String>)
    ensures
        views(r@) == custom_labels_of(
            views(label_ids@),
            opt_str_view(current_label_id),
            labels_by_id@,
        ),
{
    let ghost ids = views(label_ids@);
    let ghost current = opt_str_view(current_label_id);
    let mut r: Vec<String> = Vec::new();
    let mut i: usize = 0;
    while i < label_ids.len()
        invariant
            i <= label_ids@.len(),
            ids == views(label_ids@),
            current == opt_str_view(current_label_id),
            views(r@) == custom_labels_of(ids.take(i as int), current, labels_by_id@),
        decreases label_ids.len() - i,
    {
        let id = label_ids[i].as_str();
        assert(ids.take(i + 1).drop_last() == ids.take(i as int));
        assert(ids.take(i + 1).last() == id@);
        if !should_skip_current_folder_label(current_label_id, id) && !is_reserved_gmail_label(
            id,
        ) {
            let name = label_display_name(id, labels_by_id);
            let ghost before = r@;
            r.push(name);
            assert(views(r@) == views(before).push(name@));
        }
        i = i + 1;
    }
    assert(ids.take(label_ids.len() as int) == ids);
    r
}

/// Renders an internal date (epoch milliseconds as text) as an RFC 3339
/// date in UTC; `None` when the text is no `i64` or the time is out of range.
pub fn parse_internal_date(value: &str) -> (r: Option<String>)
    ensures
        crate::text::opt_view(r) == internal_date_of(value@),
{
    match crate::number::parse_i64(value) {
        Some(ms) => utc_millis_to_rfc3339(ms),
        None => None,
    }
}

} // verus!
