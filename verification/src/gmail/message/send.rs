//! Sending a message.
use vstd::prelude::*;

use crate::text::{join_seq, views};

verus! {

/// Arguments of the command that sends a message.
#[derive(Debug, Clone)]
pub struct GmailMessageSendCommand {
    /// The message, as words of the command line.
    pub message: Vec<String>,
}

/// `s` with every carriage return dropped and every line feed turned into
/// a CRLF pair.
pub open spec fn crlf_lines(s: Seq<char>) -> Seq<char>
    decreases s.len(),
{
    if s.len() == 0 {
        Seq::empty()
    } else {
        let c = s.last();
        crlf_lines(s.drop_last()) + if c == '\r' {
            Seq::empty()
        } else if c == '\n' {
            seq!['\r', '\n']
        } else {
            seq![c]
        }
    }
}

/// The message given on the command line: the words joined by spaces, with
/// CRLF line endings.
pub fn message_from_args(words: &[String]) -> (r: String)
    ensures
        r@ == crlf_lines(join_seq(views(words@), " "@)),
{
    let joined = crate::text::join(words, " ");
    let v = crate::text::chars_of(joined.as_str());
    let mut r = String::new();
    let mut i: usize = 0;
    while i < v.len()
        invariant
            i <= v.len(),
            v@ == joined@,
            r@ == crlf_lines(v@.take(i as int)),
        decreases v.len() - i,
    {
        assert(v@.take(i + 1).drop_last() == v@.take(i as int));
        let c = v[i];
        if c == '\r' {
        } else if c == '\n' {
            r.push('\r');
            r.push('\n');
        } else {
            r.push(c);
        }
        assert(r@ =~= crlf_lines(v@.take(i + 1)));
        i = i + 1;
    }
    assert(v@.take(v.len() as int) == v@);
    r
}

/// The message read line by line from the standard input, with CRLF line
/// endings (no line ending after the last line).
pub fn message_from_lines(lines: &[String]) -> (r: String)
    ensures
        r@ == join_seq(views(lines@), "\r\n"@),
{
    crate::text::join(lines, "\r\n")
}

/// Whether a message of `len` bytes is over the 5 MiB that Gmail's simple
/// upload accepts.
pub fn exceeds_simple_send_limit(len: usize) -> (r: bool)
    ensures
        r == (len > 5 * 1024 * 1024),
{
    len > 5 * 1024 * 1024
}

/// The answer to a sent message.
#[derive(Debug, Clone)]
pub struct SentMessage {
    /// The id of the message sent.
    pub id: String,
}

impl SentMessage {
    /// `Sent <id>`.
    pub fn render(&self) -> (r: String)
        ensures
            r@ == "Sent "@ + self.id@,
    {
        let mut r = crate::text::string_of("Sent ");
        r.append(self.id.as_str());
        r
    }
}

} // verus!
