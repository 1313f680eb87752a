//! The Gmail resources that the commands read: labels and messages, with
//! the parts of a message payload that the envelope views need.
use vstd::prelude::*;

use crate::text::{eq_ignore_case_seq, opt_str_view};

verus! {

/// A Gmail label.
#[derive(Debug, Clone)]
pub struct Label {
    /// The immutable id of the label.
    pub id: String,
    /// The display name of the label.
    pub name: String,
    /// The owner type of the label (`system` or `user`), when known.
    pub label_type: Option<String>,
    /// The number of unread messages with the label.
    pub messages_unread: Option<u64>,
    /// The total number of messages with the label.
    pub messages_total: Option<u64>,
}

/// A header of a message part.
#[derive(Debug, Clone)]
pub struct MessageHeader {
    pub name: String,
    pub value: String,
}

/// A MIME part of a message, with its nested parts.
#[derive(Debug)]
pub struct MessagePayload {
    /// The filename of the part; empty unless the part is an attachment.
    pub filename: String,
    /// The headers of the part.
    pub headers: Vec<MessageHeader>,
    /// The child parts of a container part.
    pub parts: Vec<MessagePayload>,
}

/// A Gmail message as the messages endpoints return it.
#[derive(Debug)]
pub struct Message {
    /// The immutable id of the message.
    pub id: String,
    /// The ids of the labels applied to the message.
    pub label_ids: Vec<String>,
    /// The internal creation timestamp, in epoch milliseconds.
    pub internal_date: Option<String>,
    /// The parsed MIME structure (metadata and full formats).
    pub payload: Option<MessagePayload>,
    /// The whole message as base64url text (raw format).
    pub raw: Option<String>,
}

/// The value of the first header of `headers` whose name equals `name`
/// ignoring ASCII case.
pub open spec fn header_value(headers: Seq<MessageHeader>, name: Seq<char>) -> Option<Seq<char>>
    decreases headers.len(),
{
    if headers.len() == 0 {
        None
    } else if eq_ignore_case_seq(headers[0].name@, name) {
        Some(headers[0].value@)
    } else {
        header_value(headers.subrange(1, headers.len() as int), name)
    }
}

/// `header_value` of the payload of a message, `None` without payload.
pub open spec fn payload_header(payload: Option<MessagePayload>, name: Seq<char>) -> Option<
    Seq<char>,
> {
    match payload {
        Some(p) => header_value(p.headers@, name),
        None => None,
    }
}

impl MessagePayload {
    /// The value of the first header matching `name`, case-insensitively.
    pub fn header(&self, name: &str) -> (r: Option<&str>)
        ensures
            opt_str_view(r) == header_value(self.headers@, name@),
    {
        let n: usize = self.headers.len();
        let mut i: usize = 0;
        assert(self.headers@.subrange(0, n as int) == self.headers@);
        while i < n
            invariant
                i <= n == self.headers@.len(),
                header_value(self.headers@, name@) == header_value(
                    self.headers@.subrange(i as int, n as int),
                    name@,
                ),
            decreases n - i,
        {
            let ghost rest = self.headers@.subrange(i as int, n as int);
            assert(rest[0] == self.headers@[i as int]);
            if crate::text::eq_ignore_case(self.headers[i].name.as_str(), name) {
                return Some(self.headers[i].value.as_str());
            }
            assert(rest.subrange(1, rest.len() as int) == self.headers@.subrange(i + 1, n as int));
            i = i + 1;
        }
        None
    }
}

} // verus!
