//! Flags as Gmail labels: which label a flag adds or removes.
use vstd::prelude::*;

use crate::gmail::error::{GmailError, GmailErrorView};
use crate::gmail::model::Label;
use crate::gmail::resolved_label_id;
use crate::sorted::strictly_sorted;
use crate::text::{lower_seq, views};

pub mod add;
pub mod command;
pub mod remove;

verus! {

/// How a flag maps onto Gmail labels.
#[derive(Debug, Clone, PartialEq, Eq)]
pub enum FlagClass {
    /// Setting the flag adds this system label.
    System(String),
    /// Setting the flag removes this system label.
    SystemInverse(String),
    /// The flag names a label of the user (lower-cased).
    Custom(String),
}

/// The mathematical value of a [`FlagClass`].
pub enum FlagClassView {
    System(Seq<char>),
    SystemInverse(Seq<char>),
    Custom(Seq<char>),
}

impl View for FlagClass {
    type V = FlagClassView;

    open spec fn view(&self) -> FlagClassView {
        match self {
            FlagClass::System(l) => FlagClassView::System(l@),
            FlagClass::SystemInverse(l) => FlagClassView::SystemInverse(l@),
            FlagClass::Custom(l) => FlagClassView::Custom(l@),
        }
    }
}

/// The class of a flag, after ASCII lower-casing: IMAP-style names map onto
/// system labels, `answered` has no Gmail counterpart, anything else is a
/// user label.
pub open spec fn flag_class_of(flag: Seq<char>) -> Result<FlagClassView, GmailErrorView> {
    lowered_flag_class(lower_seq(flag))
}

/// The class of a flag already lower-cased.
pub open spec fn lowered_flag_class(l: Seq<char>) -> Result<FlagClassView, GmailErrorView> {
    if l == "seen"@ || l == "\\seen"@ {
        Ok(FlagClassView::SystemInverse("UNREAD"@))
    } else if l == "unseen"@ || l == "\\unseen"@ || l == "unread"@ {
        Ok(FlagClassView::System("UNREAD"@))
    } else if l == "flagged"@ || l == "\\flagged"@ || l == "starred"@ {
        Ok(FlagClassView::System("STARRED"@))
    } else if l == "important"@ || l == "\\important"@ {
        Ok(FlagClassView::System("IMPORTANT"@))
    } else if l == "draft"@ || l == "\\draft"@ {
        Ok(FlagClassView::System("DRAFT"@))
    } else if l == "deleted"@ || l == "\\deleted"@ || l == "trash"@ {
        Ok(FlagClassView::System("TRASH"@))
    } else if l == "answered"@ || l == "\\answered"@ {
        Err(GmailErrorView::AnsweredUnsupported)
    } else {
        Ok(FlagClassView::Custom(l))
    }
}

/// The class of each flag name of the list, once lower-cased.
proof fn lemma_listed_flag_classes(l: Seq<char>)
    ensures
        l == "seen"@ ==> lowered_flag_class(l) == Ok::<FlagClassView, GmailErrorView>(FlagClassView::SystemInverse("UNREAD"@)),
        l == "\\seen"@ ==> lowered_flag_class(l) == Ok::<FlagClassView, GmailErrorView>(FlagClassView::SystemInverse("UNREAD"@)),
        l == "unseen"@ ==> lowered_flag_class(l) == Ok::<FlagClassView, GmailErrorView>(FlagClassView::System("UNREAD"@)),
        l == "\\unseen"@ ==> lowered_flag_class(l) == Ok::<FlagClassView, GmailErrorView>(FlagClassView::System("UNREAD"@)),
        l == "unread"@ ==> lowered_flag_class(l) == Ok::<FlagClassView, GmailErrorView>(FlagClassView::System("UNREAD"@)),
        l == "flagged"@ ==> lowered_flag_class(l) == Ok::<FlagClassView, GmailErrorView>(FlagClassView::System("STARRED"@)),
        l == "\\flagged"@ ==> lowered_flag_class(l) == Ok::<FlagClassView, GmailErrorView>(FlagClassView::System("STARRED"@)),
        l == "starred"@ ==> lowered_flag_class(l) == Ok::<FlagClassView, GmailErrorView>(FlagClassView::System("STARRED"@)),
        l == "important"@ ==> lowered_flag_class(l) == Ok::<FlagClassView, GmailErrorView>(FlagClassView::System("IMPORTANT"@)),
        l == "\\important"@ ==> lowered_flag_class(l) == Ok::<FlagClassView, GmailErrorView>(FlagClassView::System("IMPORTANT"@)),
        l == "draft"@ ==> lowered_flag_class(l) == Ok::<FlagClassView, GmailErrorView>(FlagClassView::System("DRAFT"@)),
        l == "\\draft"@ ==> lowered_flag_class(l) == Ok::<FlagClassView, GmailErrorView>(FlagClassView::System("DRAFT"@)),
        l == "deleted"@ ==> lowered_flag_class(l) == Ok::<FlagClassView, GmailErrorView>(FlagClassView::System("TRASH"@)),
        l == "\\deleted"@ ==> lowered_flag_class(l) == Ok::<FlagClassView, GmailErrorView>(FlagClassView::System("TRASH"@)),
        l == "trash"@ ==> lowered_flag_class(l) == Ok::<FlagClassView, GmailErrorView>(FlagClassView::System("TRASH"@)),
        l == "answered"@ ==> lowered_flag_class(l) == Err::<FlagClassView, GmailErrorView>(GmailErrorView::AnsweredUnsupported),
        l == "\\answered"@ ==> lowered_flag_class(l) == Err::<FlagClassView, GmailErrorView>(GmailErrorView::AnsweredUnsupported),
{
    if l == "seen"@ {
        reveal_strlit("seen");
    }
    if l == "\\seen"@ {
        reveal_strlit("\\seen");
        reveal_strlit("seen");
        assert("\\seen"@.len() != "seen"@.len());
    }
    if l == "unseen"@ {
        reveal_strlit("unseen");
        reveal_strlit("seen");
        reveal_strlit("\\seen");
        assert("unseen"@.len() != "seen"@.len());
        assert("unseen"@.len() != "\\seen"@.len());
    }
    if l == "\\unseen"@ {
        reveal_strlit("\\unseen");
        reveal_strlit("seen");
        reveal_strlit("\\seen");
        reveal_strlit("unseen");
        assert("\\unseen"@.len() != "seen"@.len());
        assert("\\unseen"@.len() != "\\seen"@.len());
        assert("\\unseen"@.len() != "unseen"@.len());
    }
    if l == "unread"@ {
        reveal_strlit("unread");
        reveal_strlit("seen");
        reveal_strlit("\\seen");
        reveal_strlit("unseen");
        reveal_strlit("\\unseen");
        assert("unread"@.len() != "seen"@.len());
        assert("unread"@.len() != "\\seen"@.len());
        assert("unread"@[2] != "unseen"@[2]);
        assert("unread"@.len() != "\\unseen"@.len());
    }
    if l == "flagged"@ {
        reveal_strlit("flagged");
        reveal_strlit("seen");
        reveal_strlit("\\seen");
        reveal_strlit("unseen");
        reveal_strlit("\\unseen");
        reveal_strlit("unread");
        assert("flagged"@.len() != "seen"@.len());
        assert("flagged"@.len() != "\\seen"@.len());
        assert("flagged"@.len() != "unseen"@.len());
        assert("flagged"@[0] != "\\unseen"@[0]);
        assert("flagged"@.len() != "unread"@.len());
    }
    if l == "\\flagged"@ {
        reveal_strlit("\\flagged");
        reveal_strlit("seen");
        reveal_strlit("\\seen");
        reveal_strlit("unseen");
        reveal_strlit("\\unseen");
        reveal_strlit("unread");
        reveal_strlit("flagged");
        assert("\\flagged"@.len() != "seen"@.len());
        assert("\\flagged"@.len() != "\\seen"@.len());
        assert("\\flagged"@.len() != "unseen"@.len());
        assert("\\flagged"@.len() != "\\unseen"@.len());
        assert("\\flagged"@.len() != "unread"@.len());
        assert("\\flagged"@.len() != "flagged"@.len());
    }
    if l == "starred"@ {
        reveal_strlit("starred");
        reveal_strlit("seen");
        reveal_strlit("\\seen");
        reveal_strlit("unseen");
        reveal_strlit("\\unseen");
        reveal_strlit("unread");
        reveal_strlit("flagged");
        reveal_strlit("\\flagged");
        assert("starred"@.len() != "seen"@.len());
        assert("starred"@.len() != "\\seen"@.len());
        assert("starred"@.len() != "unseen"@.len());
        assert("starred"@[0] != "\\unseen"@[0]);
        assert("starred"@.len() != "unread"@.len());
        assert("starred"@[0] != "flagged"@[0]);
        assert("starred"@.len() != "\\flagged"@.len());
    }
    if l == "important"@ {
        reveal_strlit("important");
        reveal_strlit("seen");
        reveal_strlit("\\seen");
        reveal_strlit("unseen");
        reveal_strlit("\\unseen");
        reveal_strlit("unread");
        reveal_strlit("flagged");
        reveal_strlit("\\flagged");
        reveal_strlit("starred");
        assert("important"@.len() != "seen"@.len());
        assert("important"@.len() != "\\seen"@.len());
        assert("important"@.len() != "unseen"@.len());
        assert("important"@.len() != "\\unseen"@.len());
        assert("important"@.len() != "unread"@.len());
        assert("important"@.len() != "flagged"@.len());
        assert("important"@.len() != "\\flagged"@.len());
        assert("important"@.len() != "starred"@.len());
    }
    if l == "\\important"@ {
        reveal_strlit("\\important");
        reveal_strlit("seen");
        reveal_strlit("\\seen");
        reveal_strlit("unseen");
        reveal_strlit("\\unseen");
        reveal_strlit("unread");
        reveal_strlit("flagged");
        reveal_strlit("\\flagged");
        reveal_strlit("starred");
        reveal_strlit("important");
        assert("\\important"@.len() != "seen"@.len());
        assert("\\important"@.len() != "\\seen"@.len());
        assert("\\important"@.len() != "unseen"@.len());
        assert("\\important"@.len() != "\\unseen"@.len());
        assert("\\important"@.len() != "unread"@.len());
        assert("\\important"@.len() != "flagged"@.len());
        assert("\\important"@.len() != "\\flagged"@.len());
        assert("\\important"@.len() != "starred"@.len());
        assert("\\important"@.len() != "important"@.len());
    }
    if l == "draft"@ {
        reveal_strlit("draft");
        reveal_strlit("seen");
        reveal_strlit("\\seen");
        reveal_strlit("unseen");
        reveal_strlit("\\unseen");
        reveal_strlit("unread");
        reveal_strlit("flagged");
        reveal_strlit("\\flagged");
        reveal_strlit("starred");
        reveal_strlit("important");
        reveal_strlit("\\important");
        assert("draft"@.len() != "seen"@.len());
        assert("draft"@[0] != "\\seen"@[0]);
        assert("draft"@.len() != "unseen"@.len());
        assert("draft"@.len() != "\\unseen"@.len());
        assert("draft"@.len() != "unread"@.len());
        assert("draft"@.len() != "flagged"@.len());
        assert("draft"@.len() != "\\flagged"@.len());
        assert("draft"@.len() != "starred"@.len());
        assert("draft"@.len() != "important"@.len());
        assert("draft"@.len() != "\\important"@.len());
    }
    if l == "\\draft"@ {
        reveal_strlit("\\draft");
        reveal_strlit("seen");
        reveal_strlit("\\seen");
        reveal_strlit("unseen");
        reveal_strlit("\\unseen");
        reveal_strlit("unread");
        reveal_strlit("flagged");
        reveal_strlit("\\flagged");
        reveal_strlit("starred");
        reveal_strlit("important");
        reveal_strlit("\\important");
        reveal_strlit("draft");
        assert("\\draft"@.len() != "seen"@.len());
        assert("\\draft"@.len() != "\\seen"@.len());
        assert("\\draft"@[0] != "unseen"@[0]);
        assert("\\draft"@.len() != "\\unseen"@.len());
        assert("\\draft"@[0] != "unread"@[0]);
        assert("\\draft"@.len() != "flagged"@.len());
        assert("\\draft"@.len() != "\\flagged"@.len());
        assert("\\draft"@.len() != "starred"@.len());
        assert("\\draft"@.len() != "important"@.len());
        assert("\\draft"@.len() != "\\important"@.len());
        assert("\\draft"@.len() != "draft"@.len());
    }
    if l == "deleted"@ {
        reveal_strlit("deleted");
        reveal_strlit("seen");
        reveal_strlit("\\seen");
        reveal_strlit("unseen");
        reveal_strlit("\\unseen");
        reveal_strlit("unread");
        reveal_strlit("flagged");
        reveal_strlit("\\flagged");
        reveal_strlit("starred");
        reveal_strlit("important");
        reveal_strlit("\\important");
        reveal_strlit("draft");
        reveal_strlit("\\draft");
        assert("deleted"@.len() != "seen"@.len());
        assert("deleted"@.len() != "\\seen"@.len());
        assert("deleted"@.len() != "unseen"@.len());
        assert("deleted"@[0] != "\\unseen"@[0]);
        assert("deleted"@.len() != "unread"@.len());
        assert("deleted"@[0] != "flagged"@[0]);
        assert("deleted"@.len() != "\\flagged"@.len());
        assert("deleted"@[0] != "starred"@[0]);
        assert("deleted"@.len() != "important"@.len());
        assert("deleted"@.len() != "\\important"@.len());
        assert("deleted"@.len() != "draft"@.len());
        assert("deleted"@.len() != "\\draft"@.len());
    }
    if l == "\\deleted"@ {
        reveal_strlit("\\deleted");
        reveal_strlit("seen");
        reveal_strlit("\\seen");
        reveal_strlit("unseen");
        reveal_strlit("\\unseen");
        reveal_strlit("unread");
        reveal_strlit("flagged");
        reveal_strlit("\\flagged");
        reveal_strlit("starred");
        reveal_strlit("important");
        reveal_strlit("\\important");
        reveal_strlit("draft");
        reveal_strlit("\\draft");
        reveal_strlit("deleted");
        assert("\\deleted"@.len() != "seen"@.len());
        assert("\\deleted"@.len() != "\\seen"@.len());
        assert("\\deleted"@.len() != "unseen"@.len());
        assert("\\deleted"@.len() != "\\unseen"@.len());
        assert("\\deleted"@.len() != "unread"@.len());
        assert("\\deleted"@.len() != "flagged"@.len());
        assert("\\deleted"@[1] != "\\flagged"@[1]);
        assert("\\deleted"@.len() != "starred"@.len());
        assert("\\deleted"@.len() != "important"@.len());
        assert("\\deleted"@.len() != "\\important"@.len());
        assert("\\deleted"@.len() != "draft"@.len());
        assert("\\deleted"@.len() != "\\draft"@.len());
        assert("\\deleted"@.len() != "deleted"@.len());
    }
    if l == "trash"@ {
        reveal_strlit("trash");
        reveal_strlit("seen");
        reveal_strlit("\\seen");
        reveal_strlit("unseen");
        reveal_strlit("\\unseen");
        reveal_strlit("unread");
        reveal_strlit("flagged");
        reveal_strlit("\\flagged");
        reveal_strlit("starred");
        reveal_strlit("important");
        reveal_strlit("\\important");
        reveal_strlit("draft");
        reveal_strlit("\\draft");
        reveal_strlit("deleted");
        reveal_strlit("\\deleted");
        assert("trash"@.len() != "seen"@.len());
        assert("trash"@[0] != "\\seen"@[0]);
        assert("trash"@.len() != "unseen"@.len());
        assert("trash"@.len() != "\\unseen"@.len());
        assert("trash"@.len() != "unread"@.len());
        assert("trash"@.len() != "flagged"@.len());
        assert("trash"@.len() != "\\flagged"@.len());
        assert("trash"@.len() != "starred"@.len());
        assert("trash"@.len() != "important"@.len());
        assert("trash"@.len() != "\\important"@.len());
        assert("trash"@[0] != "draft"@[0]);
        assert("trash"@.len() != "\\draft"@.len());
        assert("trash"@.len() != "deleted"@.len());
        assert("trash"@.len() != "\\deleted"@.len());
    }
    if l == "answered"@ {
        reveal_strlit("answered");
        reveal_strlit("seen");
        reveal_strlit("\\seen");
        reveal_strlit("unseen");
        reveal_strlit("\\unseen");
        reveal_strlit("unread");
        reveal_strlit("flagged");
        reveal_strlit("\\flagged");
        reveal_strlit("starred");
        reveal_strlit("important");
        reveal_strlit("\\important");
        reveal_strlit("draft");
        reveal_strlit("\\draft");
        reveal_strlit("deleted");
        reveal_strlit("\\deleted");
        reveal_strlit("trash");
        assert("answered"@.len() != "seen"@.len());
        assert("answered"@.len() != "\\seen"@.len());
        assert("answered"@.len() != "unseen"@.len());
        assert("answered"@.len() != "\\unseen"@.len());
        assert("answered"@.len() != "unread"@.len());
        assert("answered"@.len() != "flagged"@.len());
        assert("answered"@[0] != "\\flagged"@[0]);
        assert("answered"@.len() != "starred"@.len());
        assert("answered"@.len() != "important"@.len());
        assert("answered"@.len() != "\\important"@.len());
        assert("answered"@.len() != "draft"@.len());
        assert("answered"@.len() != "\\draft"@.len());
        assert("answered"@.len() != "deleted"@.len());
        assert("answered"@[0] != "\\deleted"@[0]);
        assert("answered"@.len() != "trash"@.len());
    }
    if l == "\\answered"@ {
        reveal_strlit("\\answered");
        reveal_strlit("seen");
        reveal_strlit("\\seen");
        reveal_strlit("unseen");
        reveal_strlit("\\unseen");
        reveal_strlit("unread");
        reveal_strlit("flagged");
        reveal_strlit("\\flagged");
        reveal_strlit("starred");
        reveal_strlit("important");
        reveal_strlit("\\important");
        reveal_strlit("draft");
        reveal_strlit("\\draft");
        reveal_strlit("deleted");
        reveal_strlit("\\deleted");
        reveal_strlit("trash");
        reveal_strlit("answered");
        assert("\\answered"@.len() != "seen"@.len());
        assert("\\answered"@.len() != "\\seen"@.len());
        assert("\\answered"@.len() != "unseen"@.len());
        assert("\\answered"@.len() != "\\unseen"@.len());
        assert("\\answered"@.len() != "unread"@.len());
        assert("\\answered"@.len() != "flagged"@.len());
        assert("\\answered"@.len() != "\\flagged"@.len());
        assert("\\answered"@.len() != "starred"@.len());
        assert("\\answered"@[0] != "important"@[0]);
        assert("\\answered"@.len() != "\\important"@.len());
        assert("\\answered"@.len() != "draft"@.len());
        assert("\\answered"@.len() != "\\draft"@.len());
        assert("\\answered"@.len() != "deleted"@.len());
        assert("\\answered"@.len() != "\\deleted"@.len());
        assert("\\answered"@.len() != "trash"@.len());
        assert("\\answered"@.len() != "answered"@.len());
    }
}

/// The IMAP spelling of a flag, with its leading backslash, is classified
/// as the bare flag is, whatever the ASCII case of either: `\Seen` as `seen`,
/// `\Deleted` as `deleted`, and so on for each flag that has one.
pub proof fn lemma_backslash_flags(f: Seq<char>, g: Seq<char>)
    requires
        lower_seq(f) == seq!['\\'] + lower_seq(g),
        lower_seq(g) == "seen"@ || lower_seq(g) == "unseen"@ || lower_seq(g) == "flagged"@
            || lower_seq(g) == "important"@ || lower_seq(g) == "draft"@ || lower_seq(g)
            == "deleted"@ || lower_seq(g) == "answered"@,
    ensures
        flag_class_of(f) == flag_class_of(g),
{
    let lf = lower_seq(f);
    let lg = lower_seq(g);
    lemma_listed_flag_classes(lf);
    lemma_listed_flag_classes(lg);
    if lg == "seen"@ {
        reveal_strlit("seen");
        reveal_strlit("\\seen");
        assert(lf =~= "\\seen"@);
    }
    if lg == "unseen"@ {
        reveal_strlit("unseen");
        reveal_strlit("\\unseen");
        assert(lf =~= "\\unseen"@);
    }
    if lg == "flagged"@ {
        reveal_strlit("flagged");
        reveal_strlit("\\flagged");
        assert(lf =~= "\\flagged"@);
    }
    if lg == "important"@ {
        reveal_strlit("important");
        reveal_strlit("\\important");
        assert(lf =~= "\\important"@);
    }
    if lg == "draft"@ {
        reveal_strlit("draft");
        reveal_strlit("\\draft");
        assert(lf =~= "\\draft"@);
    }
    if lg == "deleted"@ {
        reveal_strlit("deleted");
        reveal_strlit("\\deleted");
        assert(lf =~= "\\deleted"@);
    }
    if lg == "answered"@ {
        reveal_strlit("answered");
        reveal_strlit("\\answered");
        assert(lf =~= "\\answered"@);
    }
}

/// A flag is taken for a user label only when its lower-cased form is none
/// of the flag names that the classification knows; the label is that
/// lower-cased form.
pub proof fn lemma_custom_flags(flag: Seq<char>)
    ensures
        flag_class_of(flag) matches Ok(FlagClassView::Custom(c)) ==> {
            &&& c == lower_seq(flag)
            &&& lower_seq(flag) != "seen"@
            &&& lower_seq(flag) != "\\seen"@
            &&& lower_seq(flag) != "unseen"@
            &&& lower_seq(flag) != "\\unseen"@
            &&& lower_seq(flag) != "unread"@
            &&& lower_seq(flag) != "flagged"@
            &&& lower_seq(flag) != "\\flagged"@
            &&& lower_seq(flag) != "starred"@
            &&& lower_seq(flag) != "important"@
            &&& lower_seq(flag) != "\\important"@
            &&& lower_seq(flag) != "draft"@
            &&& lower_seq(flag) != "\\draft"@
            &&& lower_seq(flag) != "deleted"@
            &&& lower_seq(flag) != "\\deleted"@
            &&& lower_seq(flag) != "trash"@
            &&& lower_seq(flag) != "answered"@
            &&& lower_seq(flag) != "\\answered"@
        },
{
    lemma_listed_flag_classes(lower_seq(flag));
}

/// The label ids to add and to remove for `flags`, as sets, or the error
/// of the first flag that cannot be mapped.
pub open spec fn label_updates_of(
    flags: Seq<Seq<char>>,
    labels: Seq<Label>,
    remove_mode: bool,
) -> Result<(Set<Seq<char>>, Set<Seq<char>>), GmailErrorView>
    decreases flags.len(),
{
    if flags.len() == 0 {
        Ok((Set::empty(), Set::empty()))
    } else {
        match label_updates_of(flags.drop_last(), labels, remove_mode) {
            Err(e) => Err(e),
            Ok((add, remove)) => match flag_class_of(flags.last()) {
                Err(e) => Err(e),
                Ok(FlagClassView::System(id)) => if remove_mode {
                    Ok((add, remove.insert(id)))
                } else {
                    Ok((add.insert(id), remove))
                },
                Ok(FlagClassView::SystemInverse(id)) => if remove_mode {
                    Ok((add.insert(id), remove))
                } else {
                    Ok((add, remove.insert(id)))
                },
                Ok(FlagClassView::Custom(label)) => match resolved_label_id(label, labels) {
                    None => Err(GmailErrorView::LabelNotFound(label)),
                    Some(id) => if remove_mode {
                        Ok((add, remove.insert(id)))
                    } else {
                        Ok((add.insert(id), remove))
                    },
                },
            },
        }
    }
}

/// Once a prefix of the flags fails, the whole list fails with the same error.
proof fn lemma_updates_error_persists(
    flags: Seq<Seq<char>>,
    labels: Seq<Label>,
    remove_mode: bool,
    k: int,
    e: GmailErrorView,
)
    requires
        0 <= k <= flags.len(),
        label_updates_of(flags.take(k), labels, remove_mode) == Err::<
            (Set<Seq<char>>, Set<Seq<char>>),
            GmailErrorView,
        >(e),
    ensures
        label_updates_of(flags, labels, remove_mode) == Err::<
            (Set<Seq<char>>, Set<Seq<char>>),
            GmailErrorView,
        >(e),
    decreases flags.len(),
{
    if flags.len() == k {
        assert(flags.take(k) == flags);
    } else {
        assert(flags.drop_last().take(k) == flags.take(k));
        lemma_updates_error_persists(flags.drop_last(), labels, remove_mode, k, e);
    }
}

/// Removing flags asks for exactly the opposite label changes of adding
/// them: what adding would add is removed and what it would remove is added;
/// when one mode fails, the other fails with the same error.
pub proof fn lemma_remove_mode_swaps(flags: Seq<Seq<char>>, labels: Seq<Label>)
    ensures
        match label_updates_of(flags, labels, false) {
            Ok((add, remove)) => label_updates_of(flags, labels, true) == Ok::<
                (Set<Seq<char>>, Set<Seq<char>>),
                GmailErrorView,
            >((remove, add)),
            Err(e) => label_updates_of(flags, labels, true) == Err::<
                (Set<Seq<char>>, Set<Seq<char>>),
                GmailErrorView,
            >(e),
        },
    decreases flags.len(),
{
    if flags.len() > 0 {
        lemma_remove_mode_swaps(flags.drop_last(), labels);
    }
}

/// The lists of label ids to add and to remove for `flags`: sorted, without
/// repetition, holding the sets of `label_updates_of`.
pub open spec fn label_update_lists(
    flags: Seq<Seq<char>>,
    labels: Seq<Label>,
    remove_mode: bool,
    add: Seq<Seq<char>>,
    remove: Seq<Seq<char>>,
) -> bool {
    &&& label_updates_of(flags, labels, remove_mode) matches Ok((add_set, remove_set))
    &&& add.to_set() == add_set
    &&& remove.to_set() == remove_set
    &&& strictly_sorted(add)
    &&& strictly_sorted(remove)
}

/// Removing flags gives back the very lists of adding them, swapped: the
/// list to add in one mode is the list to remove in the other.
pub proof fn lemma_remove_mode_swaps_lists(
    flags: Seq<Seq<char>>,
    labels: Seq<Label>,
    add: Seq<Seq<char>>,
    remove: Seq<Seq<char>>,
    add_in_remove_mode: Seq<Seq<char>>,
    remove_in_remove_mode: Seq<Seq<char>>,
)
    requires
        label_update_lists(flags, labels, false, add, remove),
        label_update_lists(flags, labels, true, add_in_remove_mode, remove_in_remove_mode),
    ensures
        add_in_remove_mode == remove,
        remove_in_remove_mode == add,
{
    lemma_remove_mode_swaps(flags, labels);
    crate::sorted::lemma_sorted_same_set_equal(add_in_remove_mode, remove);
    crate::sorted::lemma_sorted_same_set_equal(remove_in_remove_mode, add);
}

fn literal(s: &str) -> (r: String)
    ensures
        r@ == s@,
{
    crate::text::string_of(s)
}

/// Classifies a flag (ignoring ASCII case) as a system label to add, a
/// system label to remove, or a user label; `answered` is refused.
pub fn classify_flag(flag: &str) -> (r: Result<FlagClass, GmailError>)
    ensures
        match r {
            Ok(c) => flag_class_of(flag@) == Ok::<FlagClassView, GmailErrorView>(c@),
            Err(e) => flag_class_of(flag@) == Err::<FlagClassView, GmailErrorView>(e@),
        },
{
    let lowered = crate::text::to_lower(flag);
    let l = lowered.as_str();
    if crate::text::str_eq(l, "seen") || crate::text::str_eq(l, "\\seen") {
        Ok(FlagClass::SystemInverse(literal("UNREAD")))
    } else if crate::text::str_eq(l, "unseen") || crate::text::str_eq(l, "\\unseen")
        || crate::text::str_eq(l, "unread") {
        Ok(FlagClass::System(literal("UNREAD")))
    } else if crate::text::str_eq(l, "flagged") || crate::text::str_eq(l, "\\flagged")
        || crate::text::str_eq(l, "starred") {
        Ok(FlagClass::System(literal("STARRED")))
    } else if crate::text::str_eq(l, "important") || crate::text::str_eq(l, "\\important") {
        Ok(FlagClass::System(literal("IMPORTANT")))
    } else if crate::text::str_eq(l, "draft") || crate::text::str_eq(l, "\\draft") {
        Ok(FlagClass::System(literal("DRAFT")))
    } else if crate::text::str_eq(l, "deleted") || crate::text::str_eq(l, "\\deleted")
        || crate::text::str_eq(l, "trash") {
        Ok(FlagClass::System(literal("TRASH")))
    } else if crate::text::str_eq(l, "answered") || crate::text::str_eq(l, "\\answered") {
        Err(GmailError::AnsweredUnsupported)
    } else {
        Ok(FlagClass::Custom(lowered))
    }
}

/// The label ids to add and to remove so that `flags` get set (or, in
/// remove mode, unset): each list is sorted and holds no id twice. Fails on
/// the first flag that cannot be mapped: `answered`, or a user label that
/// `labels` does not know.
pub fn build_label_updates(flags: &[String], labels: &[Label], remove_mode: bool) -> (r: Result<
    (Vec<String>, Vec<String>),
    GmailError,
>)
    ensures
        match r {
            Ok((add, remove)) => label_update_lists(
                views(flags@),
                labels@,
                remove_mode,
                views(add@),
                views(remove@),
            ),
            Err(e) => label_updates_of(views(flags@), labels@, remove_mode) == Err::<
                (Set<Seq<char>>, Set<Seq<char>>),
                GmailErrorView,
            >(e@),
        },
{
    let ghost fs = views(flags@);
    let mut add: Vec<String> = Vec::new();
    let mut remove: Vec<String> = Vec::new();
    let mut i: usize = 0;
    assert(views(add@).to_set() =~= Set::<Seq<char>>::empty());
    assert(views(remove@).to_set() =~= Set::<Seq<char>>::empty());
    assert(fs.take(0) =~= Seq::<Seq<char>>::empty());
    while i < flags.len()
        invariant
            i <= flags@.len(),
            fs == views(flags@),
            strictly_sorted(views(add@)),
            strictly_sorted(views(remove@)),
            label_updates_of(fs.take(i as int), labels@, remove_mode) == Ok::<
                (Set<Seq<char>>, Set<Seq<char>>),
                GmailErrorView,
            >((views(add@).to_set(), views(remove@).to_set())),
        decreases flags.len() - i,
    {
        let ghost prefix = fs.take(i + 1);
        assert(prefix.drop_last() == fs.take(i as int));
        assert(prefix.last() == flags@[i as int]@);
        match classify_flag(flags[i].as_str()) {
            Err(e) => {
                proof {
                    lemma_updates_error_persists(fs, labels@, remove_mode, i + 1, e@);
                }
                return Err(e);
            },
            Ok(FlagClass::System(label_id)) => {
                if remove_mode {
                    crate::sorted::insert_sorted(&mut remove, label_id);
                } else {
                    crate::sorted::insert_sorted(&mut add, label_id);
                }
            },
            Ok(FlagClass::SystemInverse(label_id)) => {
                if remove_mode {
                    crate::sorted::insert_sorted(&mut add, label_id);
                } else {
                    crate::sorted::insert_sorted(&mut remove, label_id);
                }
            },
            Ok(FlagClass::Custom(label)) => {
                match crate::gmail::resolve_label_id(label.as_str(), labels) {
                    None => {
                        proof {
                            lemma_updates_error_persists(
                                fs,
                                labels@,
                                remove_mode,
                                i + 1,
                                GmailErrorView::LabelNotFound(label@),
                            );
                        }
                        return Err(GmailError::LabelNotFound(label));
                    },
                    Some(label_id) => {
                        if remove_mode {
                            crate::sorted::insert_sorted(&mut remove, label_id);
                        } else {
                            crate::sorted::insert_sorted(&mut add, label_id);
                        }
                    },
                }
            },
        }
        i = i + 1;
    }
    assert(fs.take(flags.len() as int) == fs);
    Ok((add, remove))
}

} // verus!
