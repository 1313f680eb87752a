use comfy_table::{ContentArrangement, Row, Table};
use gmail_cli::gmail::envelope::get::{envelope_table_items, EnvelopeTable, GmailEnvelopeGetCommand};
use gmail_cli::gmail::envelope::list::{
    address_list_from, decode_mime, decoded_or_value, envelope_metadata_headers, format_addr,
    format_address_list, format_address_list_short, listing_entries, map_envelope_entry,
    message_date, next_page_step, Addr, AddressHeader, EnvelopeTableEntry, EnvelopesTable,
    GmailEnvelopeListCommand, ListPlan, PageStep,
};
use gmail_cli::gmail::error::GmailError;
use gmail_cli::gmail::model::{Label, Message, MessageHeader, MessagePayload};
use gmail_cli::gmail::LabelsById;
use gmail_cli::table::TableArrangement;

fn label(id: &str, name: &str) -> Label {
    Label {
        id: id.to_string(),
        name: name.to_string(),
        label_type: None,
        messages_unread: None,
        messages_total: None,
    }
}

fn header(name: &str, value: &str) -> MessageHeader {
    MessageHeader {
        name: name.to_string(),
        value: value.to_string(),
    }
}

fn message(
    id: &str,
    label_ids: &[&str],
    internal_date: Option<&str>,
    headers: Option<Vec<MessageHeader>>,
) -> Message {
    Message {
        id: id.to_string(),
        label_ids: label_ids.iter().map(|s| s.to_string()).collect(),
        internal_date: internal_date.map(|s| s.to_string()),
        payload: headers.map(|headers| MessagePayload {
            filename: String::new(),
            headers,
            parts: Vec::new(),
        }),
        raw: None,
    }
}

fn addr(name: Option<&str>, address: Option<&str>) -> Addr {
    Addr {
        name: name.map(|s| s.to_string()),
        address: address.map(|s| s.to_string()),
    }
}

#[test]
fn mime_words_are_decoded() {
    assert_eq!(decode_mime("=?UTF-8?B?SGVsbG8=?="), "Hello");
    assert_eq!(decode_mime("=?ISO-8859-1?Q?caf=E9?="), "café");
    assert_eq!(decode_mime("plain subject"), "plain subject");
    assert_eq!(decoded_or_value("raw", Some("decoded".to_string())), "decoded");
    assert_eq!(decoded_or_value("raw", None), "raw");
}

#[test]
fn address_lists_long_and_short() {
    let value = "John Doe <john@example.com>, jane@example.com";
    assert_eq!(
        format_address_list(Some(value)),
        vec!["John Doe <john@example.com>", "jane@example.com"]
    );
    assert_eq!(format_address_list_short(Some(value)), "John Doe, jane@example.com");
    assert!(format_address_list(None).is_empty());
    assert_eq!(format_address_list_short(None), "");
    assert_eq!(
        format_address_list(Some("Friends: a@x.org, Bob <b@y.org>;")),
        vec!["a@x.org", "Bob <b@y.org>"]
    );
}

#[test]
fn one_address() {
    let full = addr(Some("Bob"), Some(" bob@x.org "));
    assert_eq!(format_addr(&full, false), "Bob <bob@x.org>");
    assert_eq!(format_addr(&full, true), "Bob");
    assert_eq!(format_addr(&addr(Some("  "), Some("a@b.c")), false), "a@b.c");
    assert_eq!(format_addr(&addr(Some("  "), Some("a@b.c")), true), "a@b.c");
    assert_eq!(format_addr(&addr(Some("Bob"), None), false), "Bob");
    assert_eq!(format_addr(&addr(Some("Bob"), Some("   ")), false), "Bob");
    assert_eq!(format_addr(&addr(None, Some("c@d.e")), true), "c@d.e");
    assert_eq!(format_addr(&addr(None, None), false), "");
    assert_eq!(format_addr(&addr(Some("=?UTF-8?B?SGVsbG8=?="), None), true), "Hello");
}

#[test]
fn address_list_from_parsed_headers() {
    assert_eq!(
        address_list_from("=?UTF-8?B?SGVsbG8=?=", AddressHeader::Absent, false),
        vec!["Hello"]
    );
    let list = AddressHeader::List(vec![
        addr(None, None),
        addr(Some("A"), Some("a@x")),
        addr(None, Some("b@y")),
    ]);
    assert_eq!(address_list_from("ignored", list, false), vec!["A <a@x>", "b@y"]);
    let groups = AddressHeader::Group(vec![
        vec![addr(Some("A"), Some("a@x"))],
        vec![],
        vec![addr(None, Some(" ")), addr(Some("C"), None)],
    ]);
    assert_eq!(address_list_from("ignored", groups, true), vec!["A", "C"]);
}

#[test]
fn dates_from_header_or_internal_date() {
    let with_header = message(
        "m1",
        &[],
        Some("0"),
        Some(vec![header("date", "Mon, 1 Jan 2024 10:00:00 +0000")]),
    );
    assert_eq!(
        message_date(&with_header),
        Some("Mon, 1 Jan 2024 10:00:00 +0000".to_string())
    );
    let blank_header = message("m2", &[], Some("0"), Some(vec![header("Date", "  ")]));
    assert_eq!(
        message_date(&blank_header),
        Some("1970-01-01T00:00:00+00:00".to_string())
    );
    let nothing = message("m3", &[], None, None);
    assert_eq!(message_date(&nothing), None);
    let bad_internal = message("m4", &[], Some("soon"), None);
    assert_eq!(message_date(&bad_internal), None);
}

#[test]
fn envelope_entries() {
    let mut by_id = LabelsById::new();
    by_id.insert(label("Label_1", "Work"));
    let m = message(
        "id-1",
        &["INBOX", "UNREAD", "Label_1"],
        Some("0"),
        Some(vec![
            header("From", "Ann <ann@x.org>, bo@y.org"),
            header("Subject", "=?UTF-8?B?SGVsbG8=?="),
        ]),
    );
    let entry = map_envelope_entry(&m, Some("INBOX"), &by_id);
    assert_eq!(entry.id, "id-1");
    assert_eq!(entry.flags, "U+");
    assert_eq!(entry.subject, "Hello");
    assert_eq!(entry.from, "Ann, bo@y.org");
    assert_eq!(entry.date, "1970-01-01T00:00:00+00:00");

    let in_label = map_envelope_entry(&m, Some("Label_1"), &by_id);
    assert_eq!(in_label.flags, "U");

    let bare = message("id-2", &["STARRED"], None, None);
    let entry = map_envelope_entry(&bare, None, &by_id);
    assert_eq!(entry.flags, "F");
    assert_eq!(entry.subject, "");
    assert_eq!(entry.from, "");
    assert_eq!(entry.date, "");
}

#[test]
fn listing_plan() {
    let labels = vec![label("Label_1", "Work")];
    let cmd = |label: Option<&str>, page_size: u32, page: u32| GmailEnvelopeListCommand {
        query: None,
        label: label.map(|s| s.to_string()),
        page_size,
        page,
    };
    let err = cmd(None, 0, 1).plan(&labels).unwrap_err();
    assert_eq!(err, GmailError::PageSizeZero);
    assert_eq!(err.message(), "page-size must be greater than zero");
    let p = cmd(None, 20, 0).plan(&labels).unwrap();
    assert_eq!(p.label_id, "INBOX");
    assert_eq!(p.target_page, 1);
    let p = cmd(Some("work"), 5, 3).plan(&labels).unwrap();
    assert_eq!(p.label_id, "Label_1");
    assert_eq!(p.target_page, 3);
    let err = cmd(Some("home"), 5, 3).plan(&labels).unwrap_err();
    assert_eq!(err, GmailError::LabelNotFound("home".to_string()));
    assert_eq!(err.message(), "Gmail label `home` not found");
}

#[test]
fn paging_steps() {
    assert!(matches!(next_page_step(1, 1, None), PageStep::Done));
    assert!(matches!(next_page_step(4, 2, Some("t".to_string())), PageStep::Done));
    match next_page_step(1, 3, Some("tok".to_string())) {
        PageStep::Next { page, token } => {
            assert_eq!(page, 2);
            assert_eq!(token, "tok");
        }
        other => panic!("unexpected {:?}", other),
    }
    match next_page_step(2, 3, None) {
        PageStep::OutOfBounds(e) => {
            assert_eq!(e, GmailError::PageOutOfBounds(3));
            assert_eq!(e.message(), "page 3 out of bounds");
        }
        other => panic!("unexpected {:?}", other),
    }
}

fn entry(id: &str, flags: &str, subject: &str, from: &str, date: &str) -> EnvelopeTableEntry {
    EnvelopeTableEntry {
        id: id.to_string(),
        flags: flags.to_string(),
        date: date.to_string(),
        from: from.to_string(),
        subject: subject.to_string(),
    }
}

#[test]
fn envelopes_table() {
    let table = EnvelopesTable {
        preset: comfy_table::presets::ASCII_FULL.to_string(),
        arrangement: TableArrangement::Disabled,
        envelopes: vec![
            entry("1", "U", "Hi", "Ann", "today"),
            entry("2", "", "Two\nlines", "Bob", "yesterday"),
        ],
    };
    assert_eq!(EnvelopesTable::header(), vec!["ID", "FLAGS", "SUBJECT", "FROM", "DATE"]);
    assert_eq!(
        table.rows(),
        vec![
            vec!["1", "U", "Hi", "Ann", "today"],
            vec!["2", "", "Two\nlines", "Bob", "yesterday"]
        ]
    );
    let mut expected = Table::new();
    expected
        .load_preset(comfy_table::presets::ASCII_FULL)
        .set_content_arrangement(ContentArrangement::Disabled)
        .set_header(vec!["ID", "FLAGS", "SUBJECT", "FROM", "DATE"]);
    for cells in [
        ["1", "U", "Hi", "Ann", "today"],
        ["2", "", "Two\nlines", "Bob", "yesterday"],
    ] {
        let mut row = Row::from(cells);
        row.max_height(1);
        expected.add_row(row);
    }
    let rendered = table.render();
    assert_eq!(rendered, format!("\n{expected}\n"));
    assert!(!rendered.contains("lines"));
}

#[test]
fn one_envelope_view() {
    let mut by_id = LabelsById::new();
    by_id.insert(label("Label_1", "Work"));
    let mut m = message(
        "id-9",
        &["INBOX", "Label_1", "IMPORTANT"],
        Some("0"),
        Some(vec![
            header("Message-ID", "<abc@x>"),
            header("From", "Ann <ann@x.org>"),
            header("To", "bo@y.org, Cy <cy@z.org>"),
            header("Subject", "=?UTF-8?B?SGVsbG8=?="),
        ]),
    );
    if let Some(p) = m.payload.as_mut() {
        p.parts.push(MessagePayload {
            filename: "a.pdf".to_string(),
            headers: Vec::new(),
            parts: Vec::new(),
        });
    }
    let items = envelope_table_items(&m, Some("INBOX"), &by_id);
    assert_eq!(items.id, "id-9");
    assert_eq!(items.message_id, Some("<abc@x>".to_string()));
    assert_eq!(items.in_reply_to, None);
    assert_eq!(items.date, Some("1970-01-01T00:00:00+00:00".to_string()));
    assert_eq!(items.subject, Some("Hello".to_string()));
    assert_eq!(items.from, vec!["Ann <ann@x.org>"]);
    assert_eq!(items.to, vec!["bo@y.org", "Cy <cy@z.org>"]);
    assert_eq!(items.flags, "IA+");
    assert_eq!(items.labels, vec!["INBOX", "Work", "IMPORTANT"]);
    assert_eq!(items.custom_labels, vec!["Work"]);
    assert!(items.has_attachment);
    assert_eq!(items.compact_flags, "IA");

    let view = EnvelopeTable {
        preset: comfy_table::presets::ASCII_FULL.to_string(),
        envelope: items,
    };
    let rows = view.rows();
    assert_eq!(rows.len(), 11);
    assert_eq!(rows[0], vec!["ID", "id-9"]);
    assert_eq!(rows[2], vec!["In Reply To", ""]);
    assert_eq!(rows[6], vec!["To", "bo@y.org, Cy <cy@z.org>"]);
    assert_eq!(rows[10], vec!["Has Attachment", "yes"]);
    let mut expected = Table::new();
    expected
        .load_preset(comfy_table::presets::ASCII_FULL)
        .set_header(vec!["HEADER", "VALUE"]);
    for r in &rows {
        expected.add_row(r.clone());
    }
    assert_eq!(view.render(), format!("\n{expected}\n"));
}

#[test]
fn get_command_label() {
    let labels = vec![label("Label_1", "Work")];
    let none = GmailEnvelopeGetCommand {
        id: "x".to_string(),
        label: None,
    };
    assert_eq!(none.current_label_id(&labels), Ok(None));
    let work = GmailEnvelopeGetCommand {
        id: "x".to_string(),
        label: Some("Work".to_string()),
    };
    assert_eq!(work.current_label_id(&labels), Ok(Some("Label_1".to_string())));
    let sent = GmailEnvelopeGetCommand {
        id: "x".to_string(),
        label: Some("sent".to_string()),
    };
    assert_eq!(sent.current_label_id(&labels), Ok(Some("SENT".to_string())));
    let missing = GmailEnvelopeGetCommand {
        id: "x".to_string(),
        label: Some("Nope".to_string()),
    };
    assert_eq!(
        missing.current_label_id(&labels),
        Err(GmailError::LabelNotFound("Nope".to_string()))
    );
}

#[test]
fn listing_lines_follow_the_messages() {
    let mut by_id = LabelsById::new();
    by_id.insert(label("Label_1", "Work"));
    let messages = vec![
        message("a", &["INBOX", "UNREAD"], None, Some(vec![header("Subject", "One")])),
        message("b", &["INBOX", "Label_1"], Some("0"), Some(vec![header("From", "Bo <b@x>")])),
    ];
    let entries = listing_entries(&messages, Some("INBOX"), &by_id);
    assert_eq!(entries.len(), 2);
    assert_eq!(entries[0].id, "a");
    assert_eq!(entries[0].flags, "U");
    assert_eq!(entries[0].subject, "One");
    assert_eq!(entries[1].id, "b");
    assert_eq!(entries[1].flags, "+");
    assert_eq!(entries[1].from, "Bo");
    assert_eq!(entries[1].date, "1970-01-01T00:00:00+00:00");
    assert!(listing_entries(&[], None, &by_id).is_empty());
}

#[test]
fn list_requests() {
    let cmd = GmailEnvelopeListCommand {
        query: Some("from:bo".to_string()),
        label: None,
        page_size: 7,
        page: 2,
    };
    let plan = ListPlan {
        label_id: "INBOX".to_string(),
        target_page: 2,
    };
    let first = cmd.list_request(&plan, None);
    assert_eq!(first.query, Some("from:bo".to_string()));
    assert_eq!(first.label_ids, vec!["INBOX"]);
    assert_eq!(first.max_results, Some(7));
    assert_eq!(first.page_token, None);
    assert!(!first.include_spam_trash);
    let next = cmd.list_request(&plan, Some("tok".to_string()));
    assert_eq!(next.page_token, Some("tok".to_string()));
}

#[test]
fn metadata_headers() {
    assert_eq!(
        envelope_metadata_headers(),
        vec!["Message-ID", "In-Reply-To", "Date", "From", "To", "Subject"]
    );
}

#[test]
fn dynamic_listing_is_framed() {
    let table = EnvelopesTable {
        preset: comfy_table::presets::ASCII_FULL.to_string(),
        arrangement: TableArrangement::Dynamic,
        envelopes: vec![entry("1", "U", "Hi", "Ann", "today")],
    };
    let rendered = table.render();
    assert!(rendered.starts_with('\n') && rendered.ends_with('\n'));
    assert!(rendered.contains("SUBJECT") && rendered.contains("today"));
}
