//! Envelope flags, and sets of them.
pub mod arg;

use vstd::prelude::*;

use crate::sorted::{insert_sorted, strictly_sorted};
use crate::text::{eq_ignore_case_seq, trim_seq, views};

verus! {

/// A flag of an envelope.
#[derive(Debug, Clone, PartialEq, Eq)]
pub enum Flag {
    Seen,
    Answered,
    Flagged,
    Deleted,
    Draft,
    Custom(String),
}

/// The mathematical value of a [`Flag`].
pub enum FlagView {
    Seen,
    Answered,
    Flagged,
    Deleted,
    Draft,
    Custom(Seq<char>),
}

impl View for Flag {
    type V = FlagView;

    open spec fn view(&self) -> FlagView {
        match self {
            Flag::Seen => FlagView::Seen,
            Flag::Answered => FlagView::Answered,
            Flag::Flagged => FlagView::Flagged,
            Flag::Deleted => FlagView::Deleted,
            Flag::Draft => FlagView::Draft,
            Flag::Custom(s) => FlagView::Custom(s@),
        }
    }
}

/// The flag that a word names: the word is trimmed, and the standard flags
/// are recognised without regard to ASCII case (`replied` is `Answered`,
/// `trashed` is `Deleted`, `drafts` is `Draft`); any other word is a custom
/// flag holding the trimmed word.
pub open spec fn flag_of(s: Seq<char>) -> FlagView {
    let t = trim_seq(s);
    if eq_ignore_case_seq(t, "seen"@) {
        FlagView::Seen
    } else if eq_ignore_case_seq(t, "answered"@) || eq_ignore_case_seq(t, "replied"@) {
        FlagView::Answered
    } else if eq_ignore_case_seq(t, "flagged"@) {
        FlagView::Flagged
    } else if eq_ignore_case_seq(t, "deleted"@) || eq_ignore_case_seq(t, "trashed"@) {
        FlagView::Deleted
    } else if eq_ignore_case_seq(t, "draft"@) || eq_ignore_case_seq(t, "drafts"@) {
        FlagView::Draft
    } else {
        FlagView::Custom(t)
    }
}

impl Flag {
    /// The flag that `s` names (see [`flag_of`]).
    pub fn from_str(s: &str) -> (r: Flag)
        ensures
            r@ == flag_of(s@),
    {
        let t = crate::text::trim(s);
        let w = t.as_str();
        if crate::text::eq_ignore_case(w, "seen") {
            Flag::Seen
        } else if crate::text::eq_ignore_case(w, "answered") || crate::text::eq_ignore_case(
            w,
            "replied",
        ) {
            Flag::Answered
        } else if crate::text::eq_ignore_case(w, "flagged") {
            Flag::Flagged
        } else if crate::text::eq_ignore_case(w, "deleted") || crate::text::eq_ignore_case(
            w,
            "trashed",
        ) {
            Flag::Deleted
        } else if crate::text::eq_ignore_case(w, "draft") || crate::text::eq_ignore_case(
            w,
            "drafts",
        ) {
            Flag::Draft
        } else {
            Flag::Custom(t)
        }
    }

    /// The key under which a set of flags stores this flag.
    fn key(&self) -> (r: String)
        ensures
            r@ == flag_key(self@),
    {
        match self {
            Flag::Seen => crate::text::string_of("s"),
            Flag::Answered => crate::text::string_of("a"),
            Flag::Flagged => crate::text::string_of("f"),
            Flag::Deleted => crate::text::string_of("d"),
            Flag::Draft => crate::text::string_of("r"),
            Flag::Custom(s) => {
                let mut k = crate::text::string_of("c");
                let v = crate::text::chars_of(s.as_str());
                let mut i: usize = 0;
                proof {
                    reveal_strlit("c");
                }
                while i < v.len()
                    invariant
                        i <= v.len(),
                        v@ == s@,
                        k@ == seq!['c'] + s@.subrange(0, i as int),
                    decreases v.len() - i,
                {
                    k.push(v[i]);
                    assert(s@.subrange(0, i + 1) == s@.subrange(0, i as int).push(v@[i as int]));
                    i = i + 1;
                }
                assert(s@.subrange(0, v.len() as int) == s@);
                k
            },
        }
    }
}

/// The key of a flag: one letter for a standard flag, `c` followed by the
/// name for a custom one. Different flags have different keys.
pub open spec fn flag_key(f: FlagView) -> Seq<char> {
    match f {
        FlagView::Seen => "s"@,
        FlagView::Answered => "a"@,
        FlagView::Flagged => "f"@,
        FlagView::Deleted => "d"@,
        FlagView::Draft => "r"@,
        FlagView::Custom(s) => seq!['c'] + s,
    }
}

/// Different flags have different keys.
pub proof fn lemma_flag_key_injective(a: FlagView, b: FlagView)
    requires
        flag_key(a) == flag_key(b),
    ensures
        a == b,
{
    reveal_strlit("s");
    reveal_strlit("a");
    reveal_strlit("f");
    reveal_strlit("d");
    reveal_strlit("r");
    let ka = flag_key(a);
    let kb = flag_key(b);
    assert(ka[0] == kb[0]);
    match (a, b) {
        (FlagView::Custom(x), FlagView::Custom(y)) => {
            assert(x =~= ka.subrange(1, ka.len() as int));
            assert(y =~= kb.subrange(1, kb.len() as int));
        },
        _ => {},
    }
}

/// A set of flags.
#[derive(Debug, Clone)]
pub struct Flags {
    keys: Vec<String>,
}

impl View for Flags {
    type V = Set<FlagView>;

    closed spec fn view(&self) -> Set<FlagView> {
        Set::new(|f: FlagView| views(self.keys@).contains(flag_key(f)))
    }
}

impl Flags {
    /// The keys are kept strictly increasing.
    pub closed spec fn wf(&self) -> bool {
        strictly_sorted(views(self.keys@))
    }

    /// The empty set.
    pub fn new() -> (r: Flags)
        ensures
            r.wf(),
            r@ == Set::<FlagView>::empty(),
    {
        let r = Flags { keys: Vec::new() };
        assert(views(r.keys@) =~= Seq::<Seq<char>>::empty());
        assert(r@ =~= Set::<FlagView>::empty());
        r
    }

    /// Adds a flag; nothing changes when it is already there.
    pub fn insert(&mut self, flag: Flag)
        requires
            old(self).wf(),
        ensures
            final(self).wf(),
            final(self)@ == old(self)@.insert(flag@),
    {
        let ghost before = views(self.keys@);
        let k = flag.key();
        insert_sorted(&mut self.keys, k);
        let ghost after = views(self.keys@);
        assert forall|f: FlagView| self@.contains(f) <==> old(self)@.insert(flag@).contains(f) by {
            assert(after.to_set().contains(flag_key(f)) <==> after.contains(flag_key(f)));
            assert(before.to_set().contains(flag_key(f)) <==> before.contains(flag_key(f)));
            if flag_key(f) == flag_key(flag@) {
                lemma_flag_key_injective(f, flag@);
            }
        }
        assert(self@ =~= old(self)@.insert(flag@));
    }

    /// Whether the set holds `flag`.
    pub fn contains(&self, flag: &Flag) -> (r: bool)
        ensures
            r == self@.contains(flag@),
    {
        let k = flag.key();
        crate::text::contains_str(self.keys.as_slice(), k.as_str())
    }
}

} // verus!
