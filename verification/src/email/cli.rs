//! The command-line grammar of the envelope arguments: positional values,
//! the repeatable `--id`/`-i` option, `--` ending the options, and `--help`.
use vstd::prelude::*;

use crate::text::starts_with_seq;

verus! {

/// Why a command line was refused.
#[derive(Debug)]
pub enum ArgError {
    /// A required positional value is missing.
    MissingRequired,
    /// A positional value that the command does not take.
    UnexpectedArgument(String),
    /// An option that the command does not take.
    UnknownArgument(String),
    /// An option given without its value.
    MissingValue(String),
    /// Help was asked for.
    Help,
}

/// The mathematical value of an [`ArgError`].
pub enum ArgErrorView {
    MissingRequired,
    UnexpectedArgument(Seq<char>),
    UnknownArgument(Seq<char>),
    MissingValue(Seq<char>),
    Help,
}

impl View for ArgError {
    type V = ArgErrorView;

    open spec fn view(&self) -> ArgErrorView {
        match self {
            ArgError::MissingRequired => ArgErrorView::MissingRequired,
            ArgError::UnexpectedArgument(s) => ArgErrorView::UnexpectedArgument(s@),
            ArgError::UnknownArgument(s) => ArgErrorView::UnknownArgument(s@),
            ArgError::MissingValue(s) => ArgErrorView::MissingValue(s@),
            ArgError::Help => ArgErrorView::Help,
        }
    }
}

/// The positional values and the `--id` values of a command line.
pub type Scan = (Seq<Seq<char>>, Seq<Seq<char>>);

/// Whether a token is an option rather than a value: a dash followed by
/// something.
pub open spec fn is_option(t: Seq<char>) -> bool {
    t.len() > 1 && t[0] == '-'
}

/// The first index of `c` in `t`, if any.
pub open spec fn find_char(t: Seq<char>, c: char) -> Option<int>
    decreases t.len(),
{
    if t.len() == 0 {
        None
    } else if t.last() == c && find_char(t.drop_last(), c) is None {
        Some(t.len() - 1)
    } else {
        find_char(t.drop_last(), c)
    }
}

/// `acc` put in front of a scan.
pub open spec fn prepend(pos: Seq<Seq<char>>, ids: Seq<Seq<char>>, r: Result<Scan, ArgErrorView>) -> Result<
    Scan,
    ArgErrorView,
> {
    match r {
        Ok((p, d)) => Ok((pos + p, ids + d)),
        Err(e) => Err(e),
    }
}

/// The value of an `--id`/`-i` option given in `attached` (after `=`, or
/// glued to `-i`), else in the next token, else an error.
pub open spec fn id_value(
    tokens: Seq<Seq<char>>,
    i: int,
    attached: Option<Seq<char>>,
    single: bool,
    takes_id: bool,
    count: nat,
) -> Result<Scan, ArgErrorView>
    decreases tokens.len() - i, 0nat,
    when 0 <= i < tokens.len()
{
    match attached {
        Some(v) => prepend(Seq::empty(), seq![v], scan_from(tokens, i + 1, false, single, takes_id, count)),
        None => if i + 1 < tokens.len() && !is_option(tokens[i + 1]) {
            prepend(
                Seq::empty(),
                seq![tokens[i + 1]],
                scan_from(tokens, i + 2, false, single, takes_id, count),
            )
        } else {
            Err(ArgErrorView::MissingValue(tokens[i]))
        },
    }
}

/// The scan of `tokens[i..]`: `after_dashes` once `--` was met, `single`
/// when the command takes one positional value (of which `count` were met),
/// `takes_id` when it takes `--id`.
pub open spec fn scan_from(
    tokens: Seq<Seq<char>>,
    i: int,
    after_dashes: bool,
    single: bool,
    takes_id: bool,
    count: nat,
) -> Result<Scan, ArgErrorView>
    decreases tokens.len() - i, 1nat,
{
    if i < 0 || i >= tokens.len() {
        Ok((Seq::empty(), Seq::empty()))
    } else {
        let t = tokens[i];
        if !after_dashes && t == "--"@ {
            scan_from(tokens, i + 1, true, single, takes_id, count)
        } else if !after_dashes && t.len() > 2 && starts_with_seq(t, "--"@) {
            let body = t.subrange(2, t.len() as int);
            let name = match find_char(body, '=') {
                Some(k) => body.subrange(0, k),
                None => body,
            };
            if name == "help"@ {
                Err(ArgErrorView::Help)
            } else if takes_id && name == "id"@ {
                id_value(
                    tokens,
                    i,
                    match find_char(body, '=') {
                        Some(k) => Some(body.subrange(k + 1, body.len() as int)),
                        None => None,
                    },
                    single,
                    takes_id,
                    count,
                )
            } else {
                Err(ArgErrorView::UnknownArgument(t))
            }
        } else if !after_dashes && is_option(t) {
            if t[1] == 'h' {
                Err(ArgErrorView::Help)
            } else if takes_id && t[1] == 'i' {
                let rest = t.subrange(2, t.len() as int);
                let rest = if rest.len() > 0 && rest[0] == '=' {
                    rest.subrange(1, rest.len() as int)
                } else {
                    rest
                };
                id_value(
                    tokens,
                    i,
                    if rest.len() > 0 {
                        Some(rest)
                    } else {
                        None
                    },
                    single,
                    takes_id,
                    count,
                )
            } else {
                Err(ArgErrorView::UnknownArgument(t))
            }
        } else if single && count >= 1 {
            Err(ArgErrorView::UnexpectedArgument(t))
        } else {
            prepend(
                seq![t],
                Seq::empty(),
                scan_from(tokens, i + 1, after_dashes, single, takes_id, count + 1),
            )
        }
    }
}

/// The tokens of a command line after the program name.
pub open spec fn arg_tokens(args: Seq<&str>) -> Seq<Seq<char>> {
    if args.len() == 0 {
        Seq::empty()
    } else {
        args.subrange(1, args.len() as int).map_values(|s: &str| s@)
    }
}

/// The scan of a whole command line (the first element names the program).
pub open spec fn scan_args(args: Seq<&str>, single: bool, takes_id: bool) -> Result<Scan, ArgErrorView> {
    scan_from(arg_tokens(args), 0, false, single, takes_id, 0)
}

/// The index of `c` in `v`, if any.
fn index_of(v: &Vec<char>, c: char) -> (r: Option<usize>)
    ensures
        match r {
            Some(k) => find_char(v@, c) == Some(k as int) && k < v.len(),
            None => find_char(v@, c) is None,
        },
{
    let mut k: usize = 0;
    while k < v.len()
        invariant
            k <= v.len(),
            find_char(v@.take(k as int), c) is None,
        decreases v.len() - k,
    {
        assert(v@.take(k + 1).drop_last() == v@.take(k as int));
        if v[k] == c {
            proof {
                lemma_find_char_prefix(v@, c, k as int);
            }
            return Some(k);
        }
        k = k + 1;
    }
    assert(v@.take(v.len() as int) == v@);
    None
}

proof fn lemma_find_char_prefix(t: Seq<char>, c: char, k: int)
    requires
        0 <= k < t.len(),
        t[k] == c,
        find_char(t.take(k), c) is None,
    ensures
        find_char(t, c) == Some(k),
    decreases t.len(),
{
    if t.len() == k + 1 {
        assert(t.drop_last() == t.take(k));
    } else {
        assert(t.drop_last().take(k) == t.take(k));
        lemma_find_char_prefix(t.drop_last(), c, k);
    }
}

/// Gluing runs of values in front of a scan can be done in one step.
proof fn lemma_prepend_assoc(
    p1: Seq<Seq<char>>,
    d1: Seq<Seq<char>>,
    p2: Seq<Seq<char>>,
    d2: Seq<Seq<char>>,
    r: Result<Scan, ArgErrorView>,
)
    ensures
        prepend(p1, d1, prepend(p2, d2, r)) == prepend(p1 + p2, d1 + d2, r),
{
    match r {
        Ok((p, d)) => {
            assert(p1 + (p2 + p) =~= (p1 + p2) + p);
            assert(d1 + (d2 + d) =~= (d1 + d2) + d);
        },
        Err(_) => {},
    }
}

/// The chars `v[lo..hi]`.
fn sub_chars(v: &Vec<char>, lo: usize, hi: usize) -> (r: Vec<char>)
    requires
        lo <= hi <= v.len(),
    ensures
        r@ == v@.subrange(lo as int, hi as int),
{
    let mut r: Vec<char> = Vec::new();
    let mut k: usize = lo;
    while k < hi
        invariant
            lo <= k <= hi <= v.len(),
            r@ == v@.subrange(lo as int, k as int),
        decreases hi - k,
    {
        r.push(v[k]);
        assert(r@ =~= v@.subrange(lo as int, k + 1));
        k = k + 1;
    }
    r
}

/// The positional values and the `--id` values of a command line.
#[derive(Debug)]
pub struct ScannedArgs {
    pub positionals: Vec<String>,
    pub ids: Vec<String>,
}

/// Reads a command line (the first element names the program): see
/// `scan_from`.
pub fn scan(args: &[&str], single: bool, takes_id: bool) -> (r: Result<ScannedArgs, ArgError>)
    ensures
        match r {
            Ok(s) => scan_args(args@, single, takes_id) == Ok::<Scan, ArgErrorView>(
                (crate::text::views(s.positionals@), crate::text::views(s.ids@)),
            ),
            Err(e) => scan_args(args@, single, takes_id) == Err::<Scan, ArgErrorView>(e@),
        },
{
    let ghost tokens = arg_tokens(args@);
    let n: usize = if args.len() == 0 {
        0
    } else {
        args.len() - 1
    };
    let mut pos: Vec<String> = Vec::new();
    let mut ids: Vec<String> = Vec::new();
    let mut i: usize = 0;
    let mut after: bool = false;
    assert(crate::text::views(pos@) =~= Seq::<Seq<char>>::empty());
    assert(crate::text::views(ids@) =~= Seq::<Seq<char>>::empty());
    assert(prepend(Seq::empty(), Seq::empty(), scan_args(args@, single, takes_id)) =~= scan_args(
        args@,
        single,
        takes_id,
    )) by {
        match scan_args(args@, single, takes_id) {
            Ok((p, d)) => {
                assert(Seq::<Seq<char>>::empty() + p =~= p);
                assert(Seq::<Seq<char>>::empty() + d =~= d);
            },
            Err(_) => {},
        }
    }
    while i < n
        invariant
            n == tokens.len(),
            tokens == arg_tokens(args@),
            args@.len() == 0 ==> n == 0,
            args@.len() > 0 ==> n == args@.len() - 1,
            i <= n,
            scan_args(args@, single, takes_id) == prepend(
                crate::text::views(pos@),
                crate::text::views(ids@),
                scan_from(tokens, i as int, after, single, takes_id, pos@.len()),
            ),
        decreases n - i,
    {
        let t: &str = args[i + 1];
        assert(tokens[i as int] == t@);
        let v = crate::text::chars_of(t);
        let ghost pv = crate::text::views(pos@);
        let ghost i0 = i as int;
        let ghost c = pos@.len();
        let ghost dv = crate::text::views(ids@);
        if !after && crate::text::str_eq(t, "--") {
            after = true;
            i = i + 1;
        } else if !after && v.len() > 2 && crate::text::starts_with(t, "--") {
            let body = sub_chars(&v, 2, v.len());
            let eq = index_of(&body, '=');
            let name = match eq {
                Some(k) => crate::text::string_of_range(&body, 0, k),
                None => crate::text::string_of_range(&body, 0, body.len()),
            };
            assert(body@ == body@.subrange(0, body@.len() as int));
            if crate::text::str_eq(name.as_str(), "help") {
                return Err(ArgError::Help);
            }
            if !(takes_id && crate::text::str_eq(name.as_str(), "id")) {
                return Err(ArgError::UnknownArgument(crate::text::string_of(t)));
            }
            let value = match eq {
                Some(k) => {
                    i = i + 1;
                    crate::text::string_of_range(&body, k + 1, body.len())
                },
                None => {
                    assert(i + 1 < n ==> tokens[i + 1] == args@[i + 2]@);
                    if i + 1 < n && !is_option_token(args[i + 2]) {
                        assert(tokens[i + 1] == args@[i + 2]@);
                        let next = crate::text::string_of(args[i + 2]);
                        i = i + 2;
                        next
                    } else {
                        proof {
                            assert(id_value(tokens, i as int, None, single, takes_id, pos@.len())
                                == Err::<Scan, ArgErrorView>(ArgErrorView::MissingValue(t@)));
                        }
                        return Err(ArgError::MissingValue(crate::text::string_of(t)));
                    }
                },
            };
            proof {
                let attached = match find_char(body@, '=') {
                    Some(k) => Some(body@.subrange(k + 1, body@.len() as int)),
                    None => None::<Seq<char>>,
                };
                assert(body@ == t@.subrange(2, t@.len() as int));
                assert(scan_from(tokens, i0, after, single, takes_id, c) == id_value(
                    tokens,
                    i0,
                    attached,
                    single,
                    takes_id,
                    c,
                ));
                assert(id_value(tokens, i0, attached, single, takes_id, c) == prepend(
                    Seq::empty(),
                    seq![value@],
                    scan_from(tokens, i as int, false, single, takes_id, c),
                ));
            }
            let ghost before = crate::text::views(ids@);
            ids.push(value);
            proof {
                assert(crate::text::views(ids@) =~= before + seq![value@]);
                assert(Seq::<Seq<char>>::empty() + Seq::<Seq<char>>::empty() =~= Seq::<
                    Seq<char>,
                >::empty());
                assert(pv + Seq::<Seq<char>>::empty() =~= pv);
                lemma_prepend_assoc(
                    pv,
                    dv,
                    Seq::empty(),
                    seq![value@],
                    scan_from(tokens, i as int, false, single, takes_id, pos@.len()),
                );
            }
        } else if !after && v.len() > 1 && v[0] == '-' {
            if v[1] == 'h' {
                return Err(ArgError::Help);
            }
            if !(takes_id && v[1] == 'i') {
                return Err(ArgError::UnknownArgument(crate::text::string_of(t)));
            }
            let lo: usize = if v.len() > 2 && v[2] == '=' {
                3
            } else {
                2
            };
            let ghost rest0 = t@.subrange(2, t@.len() as int);
            assert(lo == 3 ==> rest0.subrange(1, rest0.len() as int) =~= t@.subrange(3, t@.len() as int));
            assert(lo == 2 ==> !(rest0.len() > 0 && rest0[0] == '='));
            let value = if lo < v.len() {
                i = i + 1;
                crate::text::string_of_range(&v, lo, v.len())
            } else {
                assert(i + 1 < n ==> tokens[i + 1] == args@[i + 2]@);
                if i + 1 < n && !is_option_token(args[i + 2]) {
                    assert(tokens[i + 1] == args@[i + 2]@);
                    let next = crate::text::string_of(args[i + 2]);
                    i = i + 2;
                    next
                } else {
                    proof {
                        assert(id_value(tokens, i as int, None, single, takes_id, pos@.len())
                            == Err::<Scan, ArgErrorView>(ArgErrorView::MissingValue(t@)));
                    }
                    return Err(ArgError::MissingValue(crate::text::string_of(t)));
                }
            };
            proof {
                let rest = if rest0.len() > 0 && rest0[0] == '=' {
                    rest0.subrange(1, rest0.len() as int)
                } else {
                    rest0
                };
                let attached = if rest.len() > 0 {
                    Some(rest)
                } else {
                    None::<Seq<char>>
                };
                assert(scan_from(tokens, i0, after, single, takes_id, c) == id_value(
                    tokens,
                    i0,
                    attached,
                    single,
                    takes_id,
                    c,
                ));
                assert(id_value(tokens, i0, attached, single, takes_id, c) == prepend(
                    Seq::empty(),
                    seq![value@],
                    scan_from(tokens, i as int, false, single, takes_id, c),
                ));
            }
            let ghost before = crate::text::views(ids@);
            ids.push(value);
            proof {
                assert(crate::text::views(ids@) =~= before + seq![value@]);
                assert(pv + Seq::<Seq<char>>::empty() =~= pv);
                lemma_prepend_assoc(
                    pv,
                    dv,
                    Seq::empty(),
                    seq![value@],
                    scan_from(tokens, i as int, false, single, takes_id, pos@.len()),
                );
            }
        } else if single && pos.len() >= 1 {
            return Err(ArgError::UnexpectedArgument(crate::text::string_of(t)));
        } else {
            let ghost before = crate::text::views(pos@);
            pos.push(crate::text::string_of(t));
            i = i + 1;
            proof {
                assert(crate::text::views(pos@) =~= before + seq![t@]);
                assert(dv + Seq::<Seq<char>>::empty() =~= dv);
                lemma_prepend_assoc(
                    pv,
                    dv,
                    seq![t@],
                    Seq::empty(),
                    scan_from(tokens, i as int, after, single, takes_id, pos@.len()),
                );
            }
        }
    }
    proof {
        assert(crate::text::views(pos@) + Seq::<Seq<char>>::empty() =~= crate::text::views(pos@));
        assert(crate::text::views(ids@) + Seq::<Seq<char>>::empty() =~= crate::text::views(ids@));
    }
    Ok(ScannedArgs { positionals: pos, ids })
}

/// Whether a token is an option (see `is_option`).
fn is_option_token(t: &str) -> (r: bool)
    ensures
        r == is_option(t@),
{
    let v = crate::text::chars_of(t);
    v.len() > 1 && v[0] == '-'
}

} // verus!
