//! Arguments mixing envelope ids and flags: `--id`/`-i` names an envelope,
//! the positional values are flags (or, when no `--id` is given, decimal
//! envelope ids).
use vstd::prelude::*;

use crate::email::cli::{scan, scan_args, ArgError, ArgErrorView, Scan};
use crate::email::envelope::flag::{flag_of, Flag, FlagView, Flags};
use crate::number::is_usize_str;
use crate::text::views;

verus! {

/// What a command line taking `--id` options and flags gives: the ids,
/// then the positional values, of which there must be at least one.
pub open spec fn ids_and_flags_of(args: Seq<&str>) -> Result<Scan, ArgErrorView> {
    match scan_args(args, false, true) {
        Ok((pos, ids)) => if pos.len() == 0 {
            Err(ArgErrorView::MissingRequired)
        } else {
            Ok((ids, pos))
        },
        Err(e) => Err(e),
    }
}

/// The values among `values` that read as a `usize`, in order.
pub open spec fn numeric_values(values: Seq<Seq<char>>) -> Seq<Seq<char>>
    decreases values.len(),
{
    if values.len() == 0 {
        Seq::empty()
    } else if is_usize_str(values.last()) {
        numeric_values(values.drop_last()).push(values.last())
    } else {
        numeric_values(values.drop_last())
    }
}

/// The flags that `values` name, leaving out the decimal values when
/// `legacy` holds.
pub open spec fn named_flags(values: Seq<Seq<char>>, legacy: bool) -> Set<FlagView>
    decreases values.len(),
{
    if values.len() == 0 {
        Set::empty()
    } else if legacy && is_usize_str(values.last()) {
        named_flags(values.drop_last(), legacy)
    } else {
        named_flags(values.drop_last(), legacy).insert(flag_of(values.last()))
    }
}

/// The ids of `into_tuple`: the `--id` values when there are any, else the
/// decimal positional values.
pub open spec fn tuple_ids(ids: Seq<Seq<char>>, flags: Seq<Seq<char>>) -> Seq<Seq<char>> {
    if ids.len() == 0 {
        numeric_values(flags)
    } else {
        ids
    }
}

/// The flags of `into_tuple`.
pub open spec fn tuple_flags(ids: Seq<Seq<char>>, flags: Seq<Seq<char>>) -> Set<FlagView> {
    named_flags(flags, ids.len() == 0)
}

/// The ids and/or flags arguments.
#[derive(Debug)]
pub struct IdsAndFlagsArgs {
    /// The envelope ids given with `--id`.
    pub ids: Vec<String>,
    /// The flags to apply (and, without `--id`, the decimal ids).
    pub flags: Vec<String>,
}

impl IdsAndFlagsArgs {
    /// Reads the arguments from a command line whose first element names
    /// the program.
    pub fn try_parse_from(args: &[&str]) -> (r: Result<IdsAndFlagsArgs, ArgError>)
        ensures
            match r {
                Ok(a) => ids_and_flags_of(args@) == Ok::<Scan, ArgErrorView>(
                    (views(a.ids@), views(a.flags@)),
                ),
                Err(e) => ids_and_flags_of(args@) == Err::<Scan, ArgErrorView>(e@),
            },
    {
        match scan(args, false, true) {
            Ok(s) => {
                if s.positionals.len() == 0 {
                    Err(ArgError::MissingRequired)
                } else {
                    Ok(IdsAndFlagsArgs { ids: s.ids, flags: s.positionals })
                }
            },
            Err(e) => Err(e),
        }
    }
}

/// Splits the arguments into envelope ids and flags. When no `--id` was
/// given, the positional values that read as a `usize` are envelope ids.
pub fn into_tuple(args: &IdsAndFlagsArgs) -> (r: (Vec<String>, Flags))
    ensures
        views(r.0@) == tuple_ids(views(args.ids@), views(args.flags@)),
        r.1.wf(),
        r.1@ == tuple_flags(views(args.ids@), views(args.flags@)),
{
    let legacy = args.ids.len() == 0;
    let mut ids = args.ids.clone();
    let mut flags = Flags::new();
    let ghost fv = views(args.flags@);
    let ghost iv = views(args.ids@);
    assert(views(ids@) == iv) by {
        assert forall|k: int| 0 <= k < ids@.len() implies ids@[k]@ == args.ids@[k]@ by {
            assert(vstd::pervasive::cloned(args.ids@[k], ids@[k]));
        }
        assert(views(ids@) =~= iv);
    }
    assert(numeric_values(fv.take(0)) =~= Seq::<Seq<char>>::empty());
    assert(named_flags(fv.take(0), legacy) =~= Set::<FlagView>::empty());
    let mut i: usize = 0;
    while i < args.flags.len()
        invariant
            i <= args.flags.len(),
            fv == views(args.flags@),
            iv == views(args.ids@),
            legacy == (iv.len() == 0),
            flags.wf(),
            views(ids@) == (if legacy {
                numeric_values(fv.take(i as int))
            } else {
                iv
            }),
            flags@ == named_flags(fv.take(i as int), legacy),
        decreases args.flags.len() - i,
    {
        let f: &String = &args.flags[i];
        assert(fv.take(i + 1).drop_last() =~= fv.take(i as int));
        assert(fv.take(i + 1).last() == f@);
        if legacy && crate::number::is_usize(f.as_str()) {
            let ghost before = views(ids@);
            ids.push(crate::text::string_of(f.as_str()));
            assert(views(ids@) =~= before.push(f@));
        } else {
            flags.insert(Flag::from_str(f.as_str()));
        }
        i = i + 1;
    }
    assert(fv.take(args.flags.len() as int) =~= fv);
    (ids, flags)
}

} // verus!
