//! Envelope id arguments: one id, or a non-empty list of ids.
use vstd::prelude::*;

use crate::email::cli::{arg_tokens, is_option, scan, scan_args, scan_from, ArgError, ArgErrorView, Scan};
use crate::text::views;

verus! {

/// What a command line taking one envelope id gives.
pub open spec fn id_arg_of(args: Seq<&str>) -> Result<Seq<char>, ArgErrorView> {
    match scan_args(args, true, false) {
        Ok((pos, _)) => if pos.len() == 0 {
            Err(ArgErrorView::MissingRequired)
        } else {
            Ok(pos[0])
        },
        Err(e) => Err(e),
    }
}

/// What a command line taking one or more envelope ids gives.
pub open spec fn ids_args_of(args: Seq<&str>) -> Result<Seq<Seq<char>>, ArgErrorView> {
    match scan_args(args, false, false) {
        Ok((pos, _)) => if pos.len() == 0 {
            Err(ArgErrorView::MissingRequired)
        } else {
            Ok(pos)
        },
        Err(e) => Err(e),
    }
}

/// Values that are not options are all read as positional values, in order.
proof fn lemma_plain_values(tokens: Seq<Seq<char>>, i: int, single: bool, count: nat)
    requires
        0 <= i <= tokens.len(),
        forall|k: int| i <= k < tokens.len() ==> !is_option(#[trigger] tokens[k]),
        single ==> i == tokens.len() || (i + 1 == tokens.len() && count == 0),
    ensures
        scan_from(tokens, i, false, single, false, count) == Ok::<Scan, ArgErrorView>(
            (tokens.subrange(i, tokens.len() as int), Seq::empty()),
        ),
    decreases tokens.len() - i,
{
    reveal_strlit("--");
    if i < tokens.len() {
        let t = tokens[i];
        assert(!is_option(t));
        assert(t != "--"@);
        lemma_plain_values(tokens, i + 1, single, count + 1);
        assert(seq![t] + tokens.subrange(i + 1, tokens.len() as int) =~= tokens.subrange(
            i,
            tokens.len() as int,
        ));
        assert(Seq::<Seq<char>>::empty() + Seq::<Seq<char>>::empty() =~= Seq::<Seq<char>>::empty());
        if t.len() > 2 {
            assert(t.subrange(0, 2)[0] != "--"@[0]);
        }
    } else {
        assert(tokens.subrange(i, tokens.len() as int) =~= Seq::<Seq<char>>::empty());
    }
}

/// Any value that is not an option is an envelope id, numeric or not.
pub proof fn lemma_any_single_id(args: Seq<&str>)
    requires
        args.len() == 2,
        !is_option(args[1]@),
    ensures
        id_arg_of(args) == Ok::<Seq<char>, ArgErrorView>(args[1]@),
{
    let tokens = arg_tokens(args);
    assert(tokens[0] == args[1]@);
    lemma_plain_values(tokens, 0, true, 0);
    assert(tokens.subrange(0, tokens.len() as int) == tokens);
}

/// Values that are not options are envelope ids, all of them, in order.
pub proof fn lemma_any_ids(args: Seq<&str>)
    requires
        args.len() >= 2,
        forall|k: int| 1 <= k < args.len() ==> !is_option(#[trigger] args[k]@),
    ensures
        ids_args_of(args) == Ok::<Seq<Seq<char>>, ArgErrorView>(arg_tokens(args)),
{
    let tokens = arg_tokens(args);
    assert forall|k: int| 0 <= k < tokens.len() implies !is_option(#[trigger] tokens[k]) by {
        assert(tokens[k] == args[k + 1]@);
    }
    lemma_plain_values(tokens, 0, false, 0);
    assert(tokens.subrange(0, tokens.len() as int) == tokens);
}

/// The envelope id argument: any string, numeric or not.
#[derive(Debug)]
pub struct EnvelopeIdArg {
    /// The envelope id.
    pub id: String,
}

impl EnvelopeIdArg {
    /// Reads the id from a command line whose first element names the
    /// program.
    pub fn try_parse_from(args: &[&str]) -> (r: Result<EnvelopeIdArg, ArgError>)
        ensures
            match r {
                Ok(a) => id_arg_of(args@) == Ok::<Seq<char>, ArgErrorView>(a.id@),
                Err(e) => id_arg_of(args@) == Err::<Seq<char>, ArgErrorView>(e@),
            },
    {
        match scan(args, true, false) {
            Ok(s) => {
                if s.positionals.len() == 0 {
                    Err(ArgError::MissingRequired)
                } else {
                    let mut pos = s.positionals;
                    assert(views(pos@)[0] == pos@[0]@);
                    let id = pos.swap_remove(0);
                    Ok(EnvelopeIdArg { id })
                }
            },
            Err(e) => Err(e),
        }
    }
}

/// The envelope ids arguments: a non-empty list of strings.
#[derive(Debug)]
pub struct EnvelopeIdsArgs {
    /// The list of envelope ids.
    pub ids: Vec<String>,
}

impl EnvelopeIdsArgs {
    /// Reads the ids from a command line whose first element names the
    /// program.
    pub fn try_parse_from(args: &[&str]) -> (r: Result<EnvelopeIdsArgs, ArgError>)
        ensures
            match r {
                Ok(a) => ids_args_of(args@) == Ok::<Seq<Seq<char>>, ArgErrorView>(views(a.ids@)),
                Err(e) => ids_args_of(args@) == Err::<Seq<Seq<char>>, ArgErrorView>(e@),
            },
    {
        match scan(args, false, false) {
            Ok(s) => {
                if s.positionals.len() == 0 {
                    Err(ArgError::MissingRequired)
                } else {
                    Ok(EnvelopeIdsArgs { ids: s.positionals })
                }
            },
            Err(e) => Err(e),
        }
    }
}

} // verus!
