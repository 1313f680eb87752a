//! Reading messages: their text (or HTML) bodies, parsed from the raw form.
use vstd::prelude::*;

use crate::gmail::error::{GmailError, GmailErrorView};
use crate::gmail::message::get::raw_decoding;
use crate::gmail::model::Message;
use crate::text::{join_seq, opt_view, trim_end_seq};

verus! {

/// Arguments of the command that reads messages.
#[derive(Debug, Clone)]
pub struct GmailMessageReadCommand {
    /// The ids of the messages.
    pub ids: Vec<String>,
    /// Shows the HTML bodies instead of the text ones.
    pub html: bool,
}

/// The numbers of text bodies and of HTML bodies that `mail_parser` finds
/// in a raw message; `None` when it is no message.
pub uninterp spec fn mime_body_counts(raw: Seq<u8>) -> Option<(usize, usize)>;

/// The text body at `pos` of a raw message, as `mail_parser`'s `body_text`
/// gives it (HTML-only parts converted to text).
pub uninterp spec fn mime_text_body(raw: Seq<u8>, pos: usize) -> Option<Seq<char>>;

/// The HTML body at `pos` of a raw message, as `mail_parser`'s `body_html`
/// gives it (text-only parts wrapped in HTML).
pub uninterp spec fn mime_html_body(raw: Seq<u8>, pos: usize) -> Option<Seq<char>>;

/// Calls `mail_parser::MessageParser::new().parse` and reads the lengths of
/// `text_body` and `html_body`. The contract claims only that the result is
/// a function of `raw`, named `mime_body_counts`.
#[verifier::external_body]
fn parse_body_counts(raw: &[u8]) -> (r: Option<(usize, usize)>)
    ensures
        r == mime_body_counts(raw@),
{
    mail_parser::MessageParser::new().parse(raw).map(|m| (m.text_body.len(), m.html_body.len()))
}

/// Calls `mail_parser::MessageParser::new().parse` then `body_text(pos)`.
/// Besides naming the result, the contract states what the source of
/// `body_text` shows: there is no body past the length of `text_body`.
#[verifier::external_body]
fn parse_text_body(raw: &[u8], pos: usize) -> (r: Option<String>)
    ensures
        opt_view(r) == mime_text_body(raw@, pos),
        mime_body_counts(raw@) is None ==> r is None,
        (mime_body_counts(raw@) matches Some(c) && pos >= c.0) ==> r is None,
{
    let bytes = raw.to_vec();
    let message = mail_parser::MessageParser::new().parse(&bytes)?;
    let body = message.body_text(pos).map(|b| b.into_owned());
    body
}

/// Calls `mail_parser::MessageParser::new().parse` then `body_html(pos)`.
/// Besides naming the result, the contract states what the source of
/// `body_html` shows: there is no body past the length of `html_body`.
#[verifier::external_body]
fn parse_html_body(raw: &[u8], pos: usize) -> (r: Option<String>)
    ensures
        opt_view(r) == mime_html_body(raw@, pos),
        mime_body_counts(raw@) is None ==> r is None,
        (mime_body_counts(raw@) matches Some(c) && pos >= c.1) ==> r is None,
{
    let bytes = raw.to_vec();
    let message = mail_parser::MessageParser::new().parse(&bytes)?;
    let body = message.body_html(pos).map(|b| b.into_owned());
    body
}

/// The body at `pos`, text or HTML.
pub open spec fn mime_body(raw: Seq<u8>, html: bool, pos: usize) -> Option<Seq<char>> {
    if html {
        mime_html_body(raw, pos)
    } else {
        mime_text_body(raw, pos)
    }
}

/// The bodies at positions `0..k`, stopping at the first position without one.
pub open spec fn leading_bodies(raw: Seq<u8>, html: bool, k: nat) -> Seq<Seq<char>>
    decreases k,
{
    if k == 0 {
        Seq::empty()
    } else {
        let prev = leading_bodies(raw, html, (k - 1) as nat);
        if prev.len() == k - 1 && mime_body(raw, html, (k - 1) as usize) is Some {
            prev.push(mime_body(raw, html, (k - 1) as usize)->0)
        } else {
            prev
        }
    }
}

/// The number of text or HTML bodies.
pub open spec fn body_count(raw: Seq<u8>, html: bool) -> nat {
    match mime_body_counts(raw) {
        Some(c) => if html {
            c.1 as nat
        } else {
            c.0 as nat
        },
        None => 0,
    }
}

/// The bodies of a raw message, in order (all of them: none lies past
/// `body_count`).
pub open spec fn message_bodies(raw: Seq<u8>, html: bool) -> Seq<Seq<char>> {
    leading_bodies(raw, html, body_count(raw, html))
}

/// While every position below `n` has a body, the first `n` bodies are
/// read, each at its position.
proof fn lemma_leading_bodies_full(raw: Seq<u8>, html: bool, n: nat)
    requires
        n <= usize::MAX,
        forall|k: int| 0 <= k < n ==> #[trigger] mime_body(raw, html, k as usize) is Some,
    ensures
        leading_bodies(raw, html, n).len() == n,
        forall|k: int|
            0 <= k < n ==> leading_bodies(raw, html, n)[k] == mime_body(
                raw,
                html,
                k as usize,
            )->0,
    decreases n,
{
    if n > 0 {
        lemma_leading_bodies_full(raw, html, (n - 1) as nat);
        assert(mime_body(raw, html, (n - 1) as usize) is Some);
    }
}

/// When the parser has a body at every position below its count, reading a
/// message gives all of its bodies, in order: as many as the count, the body
/// at position `k` in place `k`.
pub proof fn lemma_all_bodies_read(raw: Seq<u8>, html: bool)
    requires
        forall|k: int| 0 <= k < body_count(raw, html) ==> #[trigger] mime_body(raw, html, k as usize) is Some,
    ensures
        message_bodies(raw, html).len() == body_count(raw, html),
        forall|k: int|
            0 <= k < body_count(raw, html) ==> message_bodies(raw, html)[k] == mime_body(
                raw,
                html,
                k as usize,
            )->0,
{
    lemma_leading_bodies_full(raw, html, body_count(raw, html));
}

/// However the parser answers, no more bodies are read than its count, and
/// each one read is the body at its position.
pub proof fn lemma_bodies_read_in_place(raw: Seq<u8>, html: bool)
    ensures
        message_bodies(raw, html).len() <= body_count(raw, html),
        forall|k: int|
            0 <= k < message_bodies(raw, html).len() ==> Some(message_bodies(raw, html)[k])
                == mime_body(raw, html, k as usize),
{
    lemma_leading_bodies_in_place(raw, html, body_count(raw, html));
}

proof fn lemma_leading_bodies_in_place(raw: Seq<u8>, html: bool, n: nat)
    requires
        n <= usize::MAX,
    ensures
        leading_bodies(raw, html, n).len() <= n,
        forall|k: int|
            0 <= k < leading_bodies(raw, html, n).len() ==> Some(leading_bodies(raw, html, n)[k])
                == mime_body(raw, html, k as usize),
    decreases n,
{
    if n > 0 {
        lemma_leading_bodies_in_place(raw, html, (n - 1) as nat);
    }
}

/// Bodies as the text and HTML views print them: each with its trailing
/// whitespace cut, separated by blank lines.
pub open spec fn rendered_bodies(bodies: Seq<Seq<char>>) -> Seq<char> {
    join_seq(bodies.map_values(|b: Seq<char>| trim_end_seq(b)), "\n\n"@)
}

/// The bodies of a raw message; `None` when it does not parse.
fn bodies_of(raw: &[u8], html: bool) -> (r: Option<Vec<String>>)
    ensures
        match r {
            Some(v) => mime_body_counts(raw@) is Some && crate::text::views(v@) == message_bodies(
                raw@,
                html,
            ),
            None => mime_body_counts(raw@) is None,
        },
{
    let counts = parse_body_counts(raw);
    let n: usize = match counts {
        None => {
            return None;
        },
        Some(c) => if html {
            c.1
        } else {
            c.0
        },
    };
    let mut out: Vec<String> = Vec::new();
    let mut pos: usize = 0;
    assert(crate::text::views(out@) =~= Seq::<Seq<char>>::empty());
    while pos < n
        invariant
            pos <= n,
            n == body_count(raw@, html),
            mime_body_counts(raw@) is Some,
            crate::text::views(out@) == leading_bodies(raw@, html, pos as nat),
            crate::text::views(out@).len() == pos,
        decreases n - pos,
    {
        let body = if html {
            parse_html_body(raw, pos)
        } else {
            parse_text_body(raw, pos)
        };
        match body {
            Some(b) => {
                let ghost before = crate::text::views(out@);
                out.push(b);
                assert(crate::text::views(out@) =~= before.push(b@));
            },
            None => {
                proof {
                    lemma_bodies_stop(raw@, html, pos as nat, n as nat);
                }
                return Some(out);
            },
        }
        pos = pos + 1;
    }
    Some(out)
}

/// Past the first missing body nothing more is added.
proof fn lemma_bodies_stop(raw: Seq<u8>, html: bool, k: nat, n: nat)
    requires
        k < n,
        leading_bodies(raw, html, k).len() == k,
        mime_body(raw, html, k as usize) is None,
    ensures
        leading_bodies(raw, html, n) == leading_bodies(raw, html, k),
    decreases n - k,
{
    if n == k + 1 {
    } else {
        lemma_bodies_stop(raw, html, k, (n - 1) as nat);
        assert(leading_bodies(raw, html, (n - 1) as nat).len() == k);
    }
}

/// The bodies joined as the text and HTML views print them.
pub fn render_bodies(bodies: &[String]) -> (r: String)
    ensures
        r@ == rendered_bodies(crate::text::views(bodies@)),
{
    let mut trimmed: Vec<String> = Vec::new();
    let mut i: usize = 0;
    let ghost bv = crate::text::views(bodies@);
    while i < bodies.len()
        invariant
            i <= bodies@.len(),
            bv == crate::text::views(bodies@),
            crate::text::views(trimmed@) == bv.take(i as int).map_values(
                |b: Seq<char>| trim_end_seq(b),
            ),
        decreases bodies.len() - i,
    {
        let t = crate::text::trim_end(bodies[i].as_str());
        let ghost before = crate::text::views(trimmed@);
        trimmed.push(t);
        assert(crate::text::views(trimmed@) =~= before.push(t@));
        assert(bv[i as int] == bodies@[i as int]@);
        assert(crate::text::views(trimmed@) =~= bv.take(i + 1).map_values(
            |b: Seq<char>| trim_end_seq(b),
        ));
        i = i + 1;
    }
    assert(bv.take(bodies.len() as int) == bv);
    crate::text::join(trimmed.as_slice(), "\n\n")
}

/// What reading the message at `index` (of `total`) adds to the output, or
/// why it cannot be read.
pub open spec fn read_text_of(m: Message, index: usize, total: usize, html: bool) -> Result<
    Seq<char>,
    GmailErrorView,
> {
    match m.raw {
        None => Err(GmailErrorView::MissingRaw(m.id@)),
        Some(raw) => match raw_decoding(raw@) {
            Err(e) => Err(GmailErrorView::InvalidRaw(e)),
            Ok(bytes) => if mime_body_counts(bytes) is None {
                Err(GmailErrorView::UnparsableMime(m.id@))
            } else {
                Ok(
                    (if index > 0 {
                        "\n\n"@
                    } else {
                        Seq::empty()
                    }) + (if total > 1 {
                        "# "@ + m.id@ + seq!['\n']
                    } else {
                        Seq::empty()
                    }) + trim_end_seq(rendered_bodies(message_bodies(bytes, html))),
                )
            },
        },
    }
}

/// Appends the reading of a message fetched in the raw format to `contents`:
/// messages after the first are separated by a blank line, several messages
/// are each introduced by a `# id` line. Nothing is appended on error.
pub fn append_read_message(
    contents: &mut String,
    index: usize,
    total: usize,
    message: &Message,
    html: bool,
) -> (r: Result<(), GmailError>)
    ensures
        match r {
            Ok(()) => read_text_of(*message, index, total, html) is Ok && final(contents)@
                == old(contents)@ + read_text_of(*message, index, total, html)->Ok_0,
            Err(e) => read_text_of(*message, index, total, html) == Err::<
                Seq<char>,
                GmailErrorView,
            >(e@) && final(contents)@ == old(contents)@,
        },
{
    let raw = match &message.raw {
        None => {
            return Err(GmailError::MissingRaw(message.id.clone()));
        },
        Some(raw) => raw,
    };
    let bytes = match crate::gmail::message::get::decode_raw(raw.as_str()) {
        Err(e) => {
            return Err(GmailError::InvalidRaw(e));
        },
        Ok(b) => b,
    };
    let bodies = match bodies_of(bytes.as_slice(), html) {
        None => {
            return Err(GmailError::UnparsableMime(message.id.clone()));
        },
        Some(b) => b,
    };
    let rendered = render_bodies(bodies.as_slice());
    let ghost start = contents@;
    if index > 0 {
        contents.append("\n\n");
    }
    if total > 1 {
        contents.append("# ");
        contents.append(message.id.as_str());
        contents.push('\n');
    }
    let trimmed = crate::text::trim_end(rendered.as_str());
    contents.append(trimmed.as_str());
    assert(contents@ =~= start + read_text_of(*message, index, total, html)->Ok_0);
    Ok(())
}

} // verus!
