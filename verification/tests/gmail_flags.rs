use comfy_table::{ContentArrangement, Row, Table};
use gmail_cli::gmail::account::{RetryDecision, RetryState, MAX_RETRIES};
use gmail_cli::gmail::error::GmailError;
use gmail_cli::gmail::flag::{build_label_updates, classify_flag, FlagClass};
use gmail_cli::gmail::label::list::LabelsTable;
use gmail_cli::gmail::model::Label;
use gmail_cli::table::TableArrangement;

fn label(id: &str, name: &str) -> Label {
    Label {
        id: id.to_string(),
        name: name.to_string(),
        label_type: None,
        messages_unread: None,
        messages_total: None,
    }
}

fn strings(v: &[&str]) -> Vec<String> {
    v.iter().map(|s| s.to_string()).collect()
}

#[test]
fn flag_classes() {
    assert_eq!(classify_flag("Seen"), Ok(FlagClass::SystemInverse("UNREAD".into())));
    assert_eq!(classify_flag("\\seen"), Ok(FlagClass::SystemInverse("UNREAD".into())));
    assert_eq!(classify_flag("unread"), Ok(FlagClass::System("UNREAD".into())));
    assert_eq!(classify_flag("\\Unseen"), Ok(FlagClass::System("UNREAD".into())));
    assert_eq!(classify_flag("starred"), Ok(FlagClass::System("STARRED".into())));
    assert_eq!(classify_flag("\\Flagged"), Ok(FlagClass::System("STARRED".into())));
    assert_eq!(classify_flag("IMPORTANT"), Ok(FlagClass::System("IMPORTANT".into())));
    assert_eq!(classify_flag("\\draft"), Ok(FlagClass::System("DRAFT".into())));
    assert_eq!(classify_flag("trash"), Ok(FlagClass::System("TRASH".into())));
    assert_eq!(classify_flag("Deleted"), Ok(FlagClass::System("TRASH".into())));
    assert_eq!(classify_flag("Answered"), Err(GmailError::AnsweredUnsupported));
    assert_eq!(classify_flag("\\answered"), Err(GmailError::AnsweredUnsupported));
    assert_eq!(classify_flag("My-Label"), Ok(FlagClass::Custom("my-label".into())));
    assert_eq!(classify_flag(" seen"), Ok(FlagClass::Custom(" seen".into())));
}

#[test]
fn label_updates_add_mode() {
    let labels = vec![label("Label_1", "Work"), label("Label_2", "home")];
    let (add, remove) = build_label_updates(
        &strings(&["starred", "seen", "WORK", "flagged", "HOME", "trash"]),
        &labels,
        false,
    )
    .unwrap();
    assert_eq!(add, vec!["Label_1", "Label_2", "STARRED", "TRASH"]);
    assert_eq!(remove, vec!["UNREAD"]);
}

#[test]
fn label_updates_remove_mode() {
    let labels = vec![label("Label_1", "Work")];
    let (add, remove) =
        build_label_updates(&strings(&["seen", "work", "unseen", "draft"]), &labels, true)
            .unwrap();
    assert_eq!(add, vec!["UNREAD"]);
    assert_eq!(remove, vec!["DRAFT", "Label_1", "UNREAD"]);
    let (add, remove) = build_label_updates(&[], &labels, true).unwrap();
    assert!(add.is_empty() && remove.is_empty());
}

#[test]
fn label_update_errors() {
    let labels = vec![label("Label_1", "Work")];
    let e = build_label_updates(&strings(&["seen", "answered", "nope"]), &labels, false)
        .unwrap_err();
    assert_eq!(e, GmailError::AnsweredUnsupported);
    let e = build_label_updates(&strings(&["Label_1"]), &labels, false).unwrap_err();
    assert_eq!(e, GmailError::LabelNotFound("label_1".to_string()));
    let e = build_label_updates(&strings(&["Nope", "answered"]), &labels, true).unwrap_err();
    assert_eq!(e, GmailError::LabelNotFound("nope".to_string()));
    assert_eq!(e.message(), "Gmail label `nope` not found");
}

#[test]
fn retry_schedule() {
    let mut s = RetryState::new();
    let mut waits = Vec::new();
    loop {
        match s.on_failure(Some(503), true) {
            RetryDecision::Retry { wait_ms } => waits.push(wait_ms),
            RetryDecision::GiveUp => break,
            RetryDecision::Unauthorized => panic!("not a 401"),
        }
    }
    assert_eq!(waits, vec![250, 500, 1000, 2000]);
    assert_eq!(s.attempt, MAX_RETRIES);
    assert_eq!(s.on_failure(Some(503), true), RetryDecision::GiveUp);
}

#[test]
fn retry_decisions() {
    let mut s = RetryState::new();
    assert_eq!(s.on_failure(Some(401), true), RetryDecision::Unauthorized);
    assert_eq!(s, RetryState::new());
    assert_eq!(s.on_failure(Some(400), false), RetryDecision::GiveUp);
    assert_eq!(s.on_failure(None, false), RetryDecision::GiveUp);
    assert_eq!(s.attempt, 0);
    assert_eq!(s.on_failure(None, true), RetryDecision::Retry { wait_ms: 250 });
    assert_eq!(s.attempt, 1);
    assert_eq!(s.backoff_ms, 500);
    let mut huge = RetryState {
        attempt: 0,
        backoff_ms: u64::MAX - 1,
    };
    assert_eq!(
        huge.on_failure(Some(500), true),
        RetryDecision::Retry {
            wait_ms: u64::MAX - 1
        }
    );
    assert_eq!(huge.backoff_ms, u64::MAX);
}

#[test]
fn labels_table() {
    let mut work = label("Label_1", "Work");
    work.label_type = Some("user".to_string());
    work.messages_unread = Some(3);
    work.messages_total = Some(12);
    let table = LabelsTable {
        preset: comfy_table::presets::ASCII_FULL.to_string(),
        arrangement: TableArrangement::Disabled,
        labels: vec![work, label("INBOX", "INBOX")],
    };
    assert_eq!(LabelsTable::header(), vec!["ID", "NAME", "TYPE", "UNREAD", "TOTAL"]);
    assert_eq!(
        table.rows(),
        vec![
            vec!["Label_1", "Work", "user", "3", "12"],
            vec!["INBOX", "INBOX", "", "", ""]
        ]
    );
    let mut expected = Table::new();
    expected
        .load_preset(comfy_table::presets::ASCII_FULL)
        .set_content_arrangement(ContentArrangement::Disabled)
        .set_header(vec!["ID", "NAME", "TYPE", "UNREAD", "TOTAL"]);
    for cells in table.rows() {
        let mut row = Row::from(cells);
        row.max_height(1);
        expected.add_row(row);
    }
    assert_eq!(table.render(), format!("\n{expected}\n"));
}

#[test]
fn remove_mode_swaps_the_changes() {
    let labels = vec![label("Label_1", "Work")];
    let flags = strings(&["seen", "starred", "work", "\\Unseen"]);
    let (add, remove) = build_label_updates(&flags, &labels, false).unwrap();
    let (add_r, remove_r) = build_label_updates(&flags, &labels, true).unwrap();
    assert_eq!(add, vec!["Label_1", "STARRED", "UNREAD"]);
    assert_eq!(remove, vec!["UNREAD"]);
    assert_eq!(add_r, remove);
    assert_eq!(remove_r, add);
    let bad = strings(&["seen", "home"]);
    assert_eq!(
        build_label_updates(&bad, &labels, false).unwrap_err(),
        build_label_updates(&bad, &labels, true).unwrap_err()
    );
}
