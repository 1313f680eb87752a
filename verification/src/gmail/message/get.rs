//! Showing messages in their raw RFC 5322 form.
use vstd::prelude::*;
use vstd::utf8::{decode_utf8, valid_utf8};

use crate::gmail::error::{GmailError, GmailErrorView};
use crate::gmail::model::Message;
use crate::text::{opt_view, trim_end_seq};

verus! {

/// Arguments of the command that prints raw messages.
#[derive(Debug, Clone)]
pub struct GmailMessageGetCommand {
    /// The ids of the messages.
    pub ids: Vec<String>,
}

/// What `io_gmail`'s `decode_raw` makes of the `raw` field of a message:
/// the bytes it stands for, or the text of the base64 error.
pub uninterp spec fn raw_decoding(raw: Seq<char>) -> Result<Seq<u8>, Seq<char>>;

/// Calls `io_gmail::v1::rest::messages::decode_raw` (base64url without
/// padding, whitespace and trailing `=` ignored); the error is kept as its
/// text. The contract claims only that the result is a function of `raw`,
/// named `raw_decoding`.
#[verifier::external_body]
pub(crate) fn decode_raw(raw: &str) -> (r: Result<Vec<u8>, String>)
    ensures
        match r {
            Ok(b) => raw_decoding(raw@) == Ok::<Seq<u8>, Seq<char>>(b@),
            Err(e) => raw_decoding(raw@) == Err::<Seq<u8>, Seq<char>>(e@),
        },
{
    io_gmail::v1::rest::messages::decode_raw(raw).map_err(|e| e.to_string())
}

/// What `String::from_utf8_lossy` makes of some bytes.
pub uninterp spec fn utf8_lossy(bytes: Seq<u8>) -> Seq<char>;

/// Calls `String::from_utf8_lossy`: valid UTF-8 decodes as it is, invalid
/// sequences become U+FFFD. The contract states the valid case; the rest is
/// named `utf8_lossy`.
#[verifier::external_body]
fn string_from_utf8_lossy(bytes: &[u8]) -> (r: String)
    ensures
        r@ == utf8_lossy(bytes@),
        valid_utf8(bytes@) ==> r@ == decode_utf8(bytes@),
{
    String::from_utf8_lossy(bytes).into_owned()
}

/// A message in its raw form.
#[derive(Debug, Clone)]
pub struct RawMessage {
    pub id: String,
    pub raw: String,
}

/// The raw form of a message fetched in the raw format, or why there is none.
pub open spec fn raw_message_of(m: Message) -> Result<(Seq<char>, Seq<char>), GmailErrorView> {
    match m.raw {
        None => Err(GmailErrorView::MissingRaw(m.id@)),
        Some(raw) => match raw_decoding(raw@) {
            Err(e) => Err(GmailErrorView::InvalidRaw(e)),
            Ok(bytes) => Ok((m.id@, utf8_lossy(bytes))),
        },
    }
}

/// The raw form of a message: its `raw` field decoded and read as UTF-8
/// (lossily); an error when the field is missing or not base64url.
pub fn raw_message(message: &Message) -> (r: Result<RawMessage, GmailError>)
    ensures
        match r {
            Ok(m) => raw_message_of(*message) == Ok::<(Seq<char>, Seq<char>), GmailErrorView>(
                (m.id@, m.raw@),
            ),
            Err(e) => raw_message_of(*message) == Err::<(Seq<char>, Seq<char>), GmailErrorView>(
                e@,
            ),
        },
{
    match &message.raw {
        None => Err(GmailError::MissingRaw(message.id.clone())),
        Some(raw) => match decode_raw(raw.as_str()) {
            Err(e) => Err(GmailError::InvalidRaw(e)),
            Ok(bytes) => Ok(
                RawMessage { id: message.id.clone(), raw: string_from_utf8_lossy(bytes.as_slice()) },
            ),
        },
    }
}

/// Raw messages as printed.
#[derive(Debug, Clone)]
pub struct RawMessagesView {
    pub messages: Vec<RawMessage>,
}

/// The text of the first `k` of `messages` out of `total`: separated by a
/// blank line, each under a `# id` line when there are several, each with
/// its trailing whitespace cut.
pub open spec fn raw_messages_text(messages: Seq<RawMessage>, k: int, total: int) -> Seq<char>
    decreases k,
{
    if k <= 0 {
        Seq::empty()
    } else {
        let m = messages[k - 1];
        raw_messages_text(messages, k - 1, total) + (if k - 1 > 0 {
            "\n\n"@
        } else {
            Seq::empty()
        }) + (if total > 1 {
            "# "@ + m.id@ + seq!['\n']
        } else {
            Seq::empty()
        }) + trim_end_seq(m.raw@)
    }
}

impl RawMessagesView {
    /// The messages as printed (see `raw_messages_text`).
    pub fn render(&self) -> (r: String)
        ensures
            r@ == raw_messages_text(self.messages@, self.messages@.len() as int, self.messages@.len() as int),
    {
        let total: usize = self.messages.len();
        let mut out = String::new();
        let mut i: usize = 0;
        while i < total
            invariant
                i <= total == self.messages@.len(),
                out@ == raw_messages_text(self.messages@, i as int, total as int),
            decreases total - i,
        {
            let m = &self.messages[i];
            if i > 0 {
                out.append("\n\n");
            }
            if total > 1 {
                out.append("# ");
                out.append(m.id.as_str());
                out.push('\n');
            }
            let body = crate::text::trim_end(m.raw.as_str());
            out.append(body.as_str());
            i = i + 1;
        }
        out
    }
}

} // verus!
