use gmail_cli::gmail::model::{Label, MessagePayload};
use gmail_cli::gmail::{
    compact_flags, custom_labels, find_system_label_id, is_reserved_gmail_label,
    label_display_name, parse_internal_date, payload_has_attachment, resolve_label_id,
    should_skip_current_folder_label, LabelsById,
};

fn label(id: &str, name: &str) -> Label {
    Label {
        id: id.to_string(),
        name: name.to_string(),
        label_type: None,
        messages_unread: None,
        messages_total: None,
    }
}

fn strings(v: &[&str]) -> Vec<String> {
    v.iter().map(|s| s.to_string()).collect()
}

fn payload(filename: &str, parts: Vec<MessagePayload>) -> MessagePayload {
    MessagePayload {
        filename: filename.to_string(),
        headers: Vec::new(),
        parts,
    }
}

#[test]
fn system_labels_by_their_folder_names() {
    assert_eq!(find_system_label_id("inbox"), Some("INBOX".to_string()));
    assert_eq!(find_system_label_id("  Sent Mail "), Some("SENT".to_string()));
    assert_eq!(find_system_label_id("[Google Mail]/Sent Mail"), Some("SENT".to_string()));
    assert_eq!(find_system_label_id("Drafts"), Some("DRAFT".to_string()));
    assert_eq!(find_system_label_id("[Gmail]/Trash"), Some("TRASH".to_string()));
    assert_eq!(find_system_label_id("junk"), Some("SPAM".to_string()));
    assert_eq!(find_system_label_id("[gmail]/spam"), Some("SPAM".to_string()));
    assert_eq!(find_system_label_id("work"), None);
    assert_eq!(find_system_label_id("starred"), None);
}

#[test]
fn labels_resolve_by_id_or_name() {
    let labels = vec![
        label("Label_1", "Work"),
        label("Label_2", "work"),
        label("Label_3", "Spam"),
    ];
    assert_eq!(resolve_label_id("WORK", &labels), Some("Label_1".to_string()));
    assert_eq!(resolve_label_id("Label_2", &labels), Some("Label_2".to_string()));
    assert_eq!(resolve_label_id("spam", &labels), Some("SPAM".to_string()));
    assert_eq!(resolve_label_id("Label_3", &labels), Some("Label_3".to_string()));
    assert_eq!(resolve_label_id("label_3", &labels), None);
    assert_eq!(resolve_label_id("home", &labels), None);
}

#[test]
fn display_names_fall_back_to_the_id() {
    let mut by_id = LabelsById::new();
    by_id.insert(label("Label_1", "Work"));
    by_id.insert(label("Label_2", "   "));
    assert_eq!(label_display_name("Label_1", &by_id), "Work");
    assert_eq!(label_display_name("Label_2", &by_id), "Label_2");
    assert_eq!(label_display_name("Label_9", &by_id), "Label_9");
    by_id.insert(label("Label_1", "Office"));
    assert_eq!(label_display_name("Label_1", &by_id), "Office");
    let from_list = LabelsById::from_labels(vec![label("A", "first"), label("A", "second")]);
    assert_eq!(label_display_name("A", &from_list), "second");
    assert_eq!(from_list.get("A").map(|l| l.name.clone()), Some("second".to_string()));
    assert!(from_list.get("B").is_none());
}

#[test]
fn current_folder_label_is_skipped_unless_draft_or_trash() {
    assert!(should_skip_current_folder_label(Some("INBOX"), "INBOX"));
    assert!(should_skip_current_folder_label(Some("Label_1"), "Label_1"));
    assert!(!should_skip_current_folder_label(Some("DRAFT"), "DRAFT"));
    assert!(!should_skip_current_folder_label(Some("TRASH"), "TRASH"));
    assert!(!should_skip_current_folder_label(Some("INBOX"), "SENT"));
    assert!(!should_skip_current_folder_label(None, "INBOX"));
}

#[test]
fn reserved_labels() {
    for id in ["INBOX", "SENT", "SPAM", "UNREAD", "STARRED", "IMPORTANT", "CHAT"] {
        assert!(is_reserved_gmail_label(id), "{id}");
    }
    assert!(is_reserved_gmail_label("CATEGORY_SOCIAL"));
    assert!(is_reserved_gmail_label("CATEGORY_"));
    assert!(!is_reserved_gmail_label("CATEGORY"));
    assert!(!is_reserved_gmail_label("TRASH"));
    assert!(!is_reserved_gmail_label("DRAFT"));
    assert!(!is_reserved_gmail_label("inbox"));
    assert!(!is_reserved_gmail_label("Label_1"));
}

#[test]
fn compact_flags_in_fixed_order() {
    let ids = strings(&["TRASH", "DRAFT", "IMPORTANT", "STARRED", "UNREAD", "Label_1"]);
    assert_eq!(compact_flags(&ids, true), "UFIDTA");
    assert_eq!(compact_flags(&ids, false), "UFIDT");
    assert_eq!(compact_flags(&strings(&["STARRED", "STARRED"]), false), "F");
    assert_eq!(compact_flags(&[], true), "A");
    assert_eq!(compact_flags(&[], false), "");
    assert_eq!(compact_flags(&strings(&["unread"]), false), "");
}

#[test]
fn custom_labels_leave_out_reserved_and_current() {
    let mut by_id = LabelsById::new();
    by_id.insert(label("Label_1", "Work"));
    by_id.insert(label("Label_2", "Home"));
    let ids = strings(&[
        "INBOX",
        "Label_1",
        "UNREAD",
        "Label_2",
        "CATEGORY_UPDATES",
        "TRASH",
        "Label_9",
    ]);
    assert_eq!(
        custom_labels(&ids, Some("Label_2"), &by_id),
        vec!["Work", "TRASH", "Label_9"]
    );
    assert_eq!(
        custom_labels(&ids, None, &by_id),
        vec!["Work", "Home", "TRASH", "Label_9"]
    );
    assert_eq!(
        custom_labels(&ids, Some("TRASH"), &by_id),
        vec!["Work", "Home", "TRASH", "Label_9"]
    );
}

#[test]
fn attachments_are_found_in_nested_parts() {
    assert!(!payload_has_attachment(None));
    assert!(!payload_has_attachment(Some(&payload("", Vec::new()))));
    assert!(!payload_has_attachment(Some(&payload("  ", Vec::new()))));
    assert!(payload_has_attachment(Some(&payload("a.pdf", Vec::new()))));
    let nested = payload(
        "",
        vec![
            payload("", Vec::new()),
            payload("", vec![payload(" report.txt ", Vec::new())]),
        ],
    );
    assert!(payload_has_attachment(Some(&nested)));
    let empty_tree = payload("", vec![payload("", vec![payload("\t", Vec::new())])]);
    assert!(!payload_has_attachment(Some(&empty_tree)));
}

#[test]
fn internal_dates_in_rfc3339() {
    assert_eq!(
        parse_internal_date("0"),
        Some("1970-01-01T00:00:00+00:00".to_string())
    );
    assert_eq!(
        parse_internal_date("1700000000000"),
        Some("2023-11-14T22:13:20+00:00".to_string())
    );
    assert_eq!(
        parse_internal_date("1700000000123"),
        Some("2023-11-14T22:13:20.123+00:00".to_string())
    );
    assert_eq!(
        parse_internal_date("-1000"),
        Some("1969-12-31T23:59:59+00:00".to_string())
    );
    assert_eq!(parse_internal_date("abc"), None);
    assert_eq!(parse_internal_date(""), None);
    assert_eq!(parse_internal_date("9223372036854775807"), None);
    assert_eq!(parse_internal_date("9223372036854775808"), None);
}
