use gmail_cli::gmail::error::GmailError;
use gmail_cli::gmail::label::create::created_message;
use gmail_cli::gmail::label::delete::deleted_message;
use gmail_cli::gmail::message::get::{raw_message, RawMessage, RawMessagesView};
use gmail_cli::gmail::message::read::{append_read_message, render_bodies};
use gmail_cli::gmail::message::send::{
    exceeds_simple_send_limit, message_from_args, message_from_lines, SentMessage,
};
use gmail_cli::gmail::model::Message;
use io_gmail::v1::rest::messages::encode_raw;

fn raw(id: &str, raw: Option<String>) -> Message {
    Message {
        id: id.to_string(),
        label_ids: Vec::new(),
        internal_date: None,
        payload: None,
        raw,
    }
}

const PLAIN: &str = "From: a@b.c\r\nSubject: Hi\r\nContent-Type: text/plain\r\n\r\nHello world  \r\n";

const ALTERNATIVE: &str = "From: a@b.c\r\n\
Subject: Both\r\n\
MIME-Version: 1.0\r\n\
Content-Type: multipart/alternative; boundary=\"XX\"\r\n\
\r\n\
--XX\r\n\
Content-Type: text/plain\r\n\
\r\n\
Plain part\r\n\
--XX\r\n\
Content-Type: text/html\r\n\
\r\n\
<p>Html part</p>\r\n\
--XX--\r\n";

#[test]
fn raw_messages_are_decoded() {
    let m = raw("r1", Some(encode_raw(PLAIN.as_bytes())));
    let r = raw_message(&m).unwrap();
    assert_eq!(r.id, "r1");
    assert_eq!(r.raw, PLAIN);
    let padded = raw("r2", Some(format!("{}==\n", encode_raw(b"Hi"))));
    assert_eq!(raw_message(&padded).unwrap().raw, "Hi");
    let lossy = raw("r3", Some(encode_raw(&[b'a', 0xff, b'b'])));
    assert_eq!(raw_message(&lossy).unwrap().raw, "a\u{fffd}b");
}

#[test]
fn raw_message_errors() {
    let missing = raw_message(&raw("m", None)).unwrap_err();
    assert_eq!(missing, GmailError::MissingRaw("m".to_string()));
    assert_eq!(missing.message(), "Message `m` does not contain RAW content");
    let invalid = raw_message(&raw("m", Some("!!!!".to_string()))).unwrap_err();
    assert!(matches!(invalid, GmailError::InvalidRaw(_)));
    assert!(!invalid.message().is_empty());
}

#[test]
fn raw_messages_view() {
    let one = RawMessagesView {
        messages: vec![RawMessage {
            id: "a".to_string(),
            raw: "body\r\n\r\n".to_string(),
        }],
    };
    assert_eq!(one.render(), "body");
    let two = RawMessagesView {
        messages: vec![
            RawMessage {
                id: "a".to_string(),
                raw: "first \n".to_string(),
            },
            RawMessage {
                id: "b".to_string(),
                raw: "second".to_string(),
            },
        ],
    };
    assert_eq!(two.render(), "# a\nfirst\n\n# b\nsecond");
    assert_eq!(RawMessagesView { messages: Vec::new() }.render(), "");
}

#[test]
fn bodies_are_joined() {
    assert_eq!(
        render_bodies(&["one  \n".to_string(), "two".to_string()]),
        "one\n\ntwo"
    );
    assert_eq!(render_bodies(&[]), "");
    assert_eq!(render_bodies(&[" x ".to_string()]), " x");
}

#[test]
fn read_plain_messages() {
    let m = raw("p1", Some(encode_raw(PLAIN.as_bytes())));
    let mut contents = String::new();
    append_read_message(&mut contents, 0, 1, &m, false).unwrap();
    assert_eq!(contents, "Hello world");

    let mut contents = "before".to_string();
    append_read_message(&mut contents, 1, 2, &m, false).unwrap();
    assert_eq!(contents, "before\n\n# p1\nHello world");

    let mut contents = String::new();
    append_read_message(&mut contents, 0, 2, &m, false).unwrap();
    assert_eq!(contents, "# p1\nHello world");
}

#[test]
fn read_alternative_messages() {
    let m = raw("a1", Some(encode_raw(ALTERNATIVE.as_bytes())));
    let mut text = String::new();
    append_read_message(&mut text, 0, 1, &m, false).unwrap();
    assert_eq!(text, "Plain part");
    let mut html = String::new();
    append_read_message(&mut html, 0, 1, &m, true).unwrap();
    assert_eq!(html, "<p>Html part</p>");
}

#[test]
fn read_errors_leave_contents_alone() {
    let mut contents = "kept".to_string();
    let e = append_read_message(&mut contents, 0, 1, &raw("z", None), false).unwrap_err();
    assert_eq!(e, GmailError::MissingRaw("z".to_string()));
    assert_eq!(contents, "kept");
    let e = append_read_message(&mut contents, 0, 1, &raw("z", Some("*".to_string())), true)
        .unwrap_err();
    assert!(matches!(e, GmailError::InvalidRaw(_)));
    assert_eq!(contents, "kept");
}

#[test]
fn unparsable_mime_message() {
    let e = GmailError::UnparsableMime("q".to_string());
    assert_eq!(e.message(), "Read message `q` error: failed to parse MIME message");
    let m = raw("q", Some(encode_raw(b"")));
    let mut contents = "kept".to_string();
    let e = append_read_message(&mut contents, 0, 1, &m, false).unwrap_err();
    assert_eq!(e, GmailError::UnparsableMime("q".to_string()));
    assert_eq!(contents, "kept");
}

#[test]
fn messages_to_send() {
    let words = vec!["Subject: hi\n\nbody".to_string(), "more\r\n".to_string()];
    assert_eq!(message_from_args(&words), "Subject: hi\r\n\r\nbody more\r\n");
    assert_eq!(message_from_args(&[]), "");
    let lines = vec!["From: a@b".to_string(), "".to_string(), "text".to_string()];
    assert_eq!(message_from_lines(&lines), "From: a@b\r\n\r\ntext");
    assert_eq!(message_from_lines(&[]), "");
    assert!(!exceeds_simple_send_limit(5 * 1024 * 1024));
    assert!(exceeds_simple_send_limit(5 * 1024 * 1024 + 1));
    assert_eq!(SentMessage { id: "abc".to_string() }.render(), "Sent abc");
}

#[test]
fn label_answers() {
    assert_eq!(
        created_message("Label_7", "Work"),
        "Label `Label_7` successfully created (Work)"
    );
    assert_eq!(deleted_message("Label_7"), "Label `Label_7` successfully deleted");
}

#[test]
fn error_messages() {
    assert_eq!(
        GmailError::AnsweredUnsupported.message(),
        "Answered is not supported on Gmail"
    );
    assert_eq!(
        GmailError::Unauthorized.message(),
        "Gmail returned 401 - refresh your access token (`ortie access-token refresh gmail`) and retry."
    );
    assert_eq!(GmailError::PageOutOfBounds(0).message(), "page 0 out of bounds");
    assert_eq!(
        GmailError::PageOutOfBounds(4294967295).message(),
        "page 4294967295 out of bounds"
    );
    assert_eq!(GmailError::InvalidRaw("bad".to_string()).message(), "bad");
}
