//! The errors that the Gmail commands report, and their messages.
use vstd::prelude::*;

use crate::number::decimal;

verus! {

/// An error of a Gmail command.
#[derive(Debug, Clone, PartialEq, Eq)]
pub enum GmailError {
    /// The `answered` flag has no Gmail label.
    AnsweredUnsupported,
    /// No label has this id or name.
    LabelNotFound(String),
    /// A page size of zero was asked for.
    PageSizeZero,
    /// The listing has fewer pages than the one asked for.
    PageOutOfBounds(u32),
    /// The message with this id came back without RAW content.
    MissingRaw(String),
    /// The RAW content of a message is not base64url; the text says why.
    InvalidRaw(String),
    /// The message with this id is not a MIME message.
    UnparsableMime(String),
    /// Gmail answered 401.
    Unauthorized,
}

/// The mathematical value of a [`GmailError`].
pub enum GmailErrorView {
    AnsweredUnsupported,
    LabelNotFound(Seq<char>),
    PageSizeZero,
    PageOutOfBounds(u32),
    MissingRaw(Seq<char>),
    InvalidRaw(Seq<char>),
    UnparsableMime(Seq<char>),
    Unauthorized,
}

impl View for GmailError {
    type V = GmailErrorView;

    open spec fn view(&self) -> GmailErrorView {
        match self {
            GmailError::AnsweredUnsupported => GmailErrorView::AnsweredUnsupported,
            GmailError::LabelNotFound(l) => GmailErrorView::LabelNotFound(l@),
            GmailError::PageSizeZero => GmailErrorView::PageSizeZero,
            GmailError::PageOutOfBounds(p) => GmailErrorView::PageOutOfBounds(*p),
            GmailError::MissingRaw(id) => GmailErrorView::MissingRaw(id@),
            GmailError::InvalidRaw(e) => GmailErrorView::InvalidRaw(e@),
            GmailError::UnparsableMime(id) => GmailErrorView::UnparsableMime(id@),
            GmailError::Unauthorized => GmailErrorView::Unauthorized,
        }
    }
}

/// The text shown to the user for an error.
pub open spec fn error_message(e: GmailErrorView) -> Seq<char> {
    match e {
        GmailErrorView::AnsweredUnsupported => "Answered is not supported on Gmail"@,
        GmailErrorView::LabelNotFound(l) => "Gmail label `"@ + l + "` not found"@,
        GmailErrorView::PageSizeZero => "page-size must be greater than zero"@,
        GmailErrorView::PageOutOfBounds(p) => "page "@ + decimal(p as nat) + " out of bounds"@,
        GmailErrorView::MissingRaw(id) => "Message `"@ + id + "` does not contain RAW content"@,
        GmailErrorView::InvalidRaw(e) => e,
        GmailErrorView::UnparsableMime(id) => "Read message `"@ + id
            + "` error: failed to parse MIME message"@,
        GmailErrorView::Unauthorized =>
            "Gmail returned 401 - refresh your access token (`ortie access-token refresh gmail`) and retry."@,
    }
}

/// `prefix + middle + suffix`.
fn surround(prefix: &str, middle: &str, suffix: &str) -> (r: String)
    ensures
        r@ == prefix@ + middle@ + suffix@,
{
    let mut r = crate::text::string_of(prefix);
    r.append(middle);
    r.append(suffix);
    r
}

impl GmailError {
    /// The text shown to the user for this error.
    pub fn message(&self) -> (r: String)
        ensures
            r@ == error_message(self@),
    {
        match self {
            GmailError::AnsweredUnsupported => crate::text::string_of(
                "Answered is not supported on Gmail",
            ),
            GmailError::LabelNotFound(l) => surround("Gmail label `", l.as_str(), "` not found"),
            GmailError::PageSizeZero => crate::text::string_of(
                "page-size must be greater than zero",
            ),
            GmailError::PageOutOfBounds(p) => {
                let n = crate::number::u64_to_string(*p as u64);
                surround("page ", n.as_str(), " out of bounds")
            },
            GmailError::MissingRaw(id) => surround(
                "Message `",
                id.as_str(),
                "` does not contain RAW content",
            ),
            GmailError::InvalidRaw(e) => e.clone(),
            GmailError::UnparsableMime(id) => surround(
                "Read message `",
                id.as_str(),
                "` error: failed to parse MIME message",
            ),
            GmailError::Unauthorized => crate::text::string_of(
                "Gmail returned 401 - refresh your access token (`ortie access-token refresh gmail`) and retry.",
            ),
        }
    }
}

} // verus!
