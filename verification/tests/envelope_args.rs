use gmail_cli::email::cli::{scan, ArgError};
use gmail_cli::email::envelope::arg::ids::{EnvelopeIdArg, EnvelopeIdsArgs};
use gmail_cli::email::envelope::flag::arg::ids_and_flags::{into_tuple, IdsAndFlagsArgs};
use gmail_cli::email::envelope::flag::{Flag, Flags};

#[test]
fn parses_arbitrary_single_envelope_ids() {
    let args = EnvelopeIdArg::try_parse_from(&["cmd", "19be48ac82b25a5b"]).unwrap();
    assert_eq!(args.id, "19be48ac82b25a5b");
}

#[test]
fn parses_multiple_mixed_envelope_ids() {
    let args = EnvelopeIdsArgs::try_parse_from(&["cmd", "19be48ac82b25a5b", "42"]).unwrap();
    assert_eq!(args.ids, vec!["19be48ac82b25a5b", "42"]);
}

#[test]
fn parses_string_ids_and_flags_without_ambiguity() {
    let args = IdsAndFlagsArgs::try_parse_from(&[
        "cmd",
        "--id",
        "19be48ac82b25a5b",
        "--id",
        "42",
        "seen",
        "custom-flag",
    ])
    .unwrap();

    let (ids, flags) = into_tuple(&args);

    assert_eq!(ids, vec!["19be48ac82b25a5b", "42"]);
    assert!(flags.contains(&Flag::Seen));
    assert!(flags.contains(&Flag::Custom("custom-flag".into())));
}

#[test]
fn preserves_legacy_numeric_id_parsing_when_no_explicit_id_is_used() {
    let args = IdsAndFlagsArgs::try_parse_from(&["cmd", "42", "seen"]).unwrap();

    let (ids, flags) = into_tuple(&args);

    assert_eq!(ids, vec!["42"]);
    assert!(flags.contains(&Flag::Seen));
}

#[test]
fn single_id_refuses_a_second_value() {
    match EnvelopeIdArg::try_parse_from(&["cmd", "a", "b"]) {
        Err(ArgError::UnexpectedArgument(v)) => assert_eq!(v, "b"),
        other => panic!("unexpected {:?}", other),
    }
}

#[test]
fn ids_are_required() {
    assert!(matches!(
        EnvelopeIdArg::try_parse_from(&["cmd"]),
        Err(ArgError::MissingRequired)
    ));
    assert!(matches!(
        EnvelopeIdsArgs::try_parse_from(&["cmd"]),
        Err(ArgError::MissingRequired)
    ));
    assert!(matches!(
        IdsAndFlagsArgs::try_parse_from(&["cmd", "--id", "7"]),
        Err(ArgError::MissingRequired)
    ));
}

#[test]
fn unknown_options_and_help() {
    match IdsAndFlagsArgs::try_parse_from(&["cmd", "-3"]) {
        Err(ArgError::UnknownArgument(v)) => assert_eq!(v, "-3"),
        other => panic!("unexpected {:?}", other),
    }
    match EnvelopeIdsArgs::try_parse_from(&["cmd", "1", "--verbose"]) {
        Err(ArgError::UnknownArgument(v)) => assert_eq!(v, "--verbose"),
        other => panic!("unexpected {:?}", other),
    }
    match EnvelopeIdsArgs::try_parse_from(&["cmd", "-x"]) {
        Err(ArgError::UnknownArgument(v)) => assert_eq!(v, "-x"),
        other => panic!("unexpected {:?}", other),
    }
    match EnvelopeIdsArgs::try_parse_from(&["cmd", "--id", "1"]) {
        Err(ArgError::UnknownArgument(v)) => assert_eq!(v, "--id"),
        other => panic!("unexpected {:?}", other),
    }
    assert!(matches!(
        EnvelopeIdsArgs::try_parse_from(&["cmd", "1", "--help"]),
        Err(ArgError::Help)
    ));
    assert!(matches!(
        EnvelopeIdArg::try_parse_from(&["cmd", "-h"]),
        Err(ArgError::Help)
    ));
}

#[test]
fn id_option_without_value() {
    match IdsAndFlagsArgs::try_parse_from(&["cmd", "seen", "--id"]) {
        Err(ArgError::MissingValue(v)) => assert_eq!(v, "--id"),
        other => panic!("unexpected {:?}", other),
    }
    match IdsAndFlagsArgs::try_parse_from(&["cmd", "-i", "--id", "3", "seen"]) {
        Err(ArgError::MissingValue(v)) => assert_eq!(v, "-i"),
        other => panic!("unexpected {:?}", other),
    }
}

#[test]
fn id_option_forms() {
    let args =
        IdsAndFlagsArgs::try_parse_from(&["cmd", "--id=a", "-ib", "-i=c", "-i", "d", "flagged"])
            .unwrap();
    assert_eq!(args.ids, vec!["a", "b", "c", "d"]);
    assert_eq!(args.flags, vec!["flagged"]);
}

#[test]
fn double_dash_ends_options() {
    let args = EnvelopeIdsArgs::try_parse_from(&["cmd", "--", "-5", "--id"]).unwrap();
    assert_eq!(args.ids, vec!["-5", "--id"]);
    let s = scan(&["cmd", "x", "--", "--help"], false, false).unwrap();
    assert_eq!(s.positionals, vec!["x", "--help"]);
    assert!(s.ids.is_empty());
    let lone_dash = EnvelopeIdArg::try_parse_from(&["cmd", "-"]).unwrap();
    assert_eq!(lone_dash.id, "-");
}

#[test]
fn explicit_ids_keep_numbers_as_flags() {
    let args = IdsAndFlagsArgs::try_parse_from(&["cmd", "-i", "abc", "42", "seen"]).unwrap();
    let (ids, flags) = into_tuple(&args);
    assert_eq!(ids, vec!["abc"]);
    assert!(flags.contains(&Flag::Custom("42".into())));
    assert!(flags.contains(&Flag::Seen));
    assert!(!flags.contains(&Flag::Flagged));
}

#[test]
fn legacy_ids_only_for_usize_values() {
    let args =
        IdsAndFlagsArgs::try_parse_from(&["cmd", "1", "+2", "3.5", "x4", "Deleted"]).unwrap();
    let (ids, flags) = into_tuple(&args);
    assert_eq!(ids, vec!["1", "+2"]);
    assert!(flags.contains(&Flag::Custom("3.5".into())));
    assert!(flags.contains(&Flag::Deleted));
    assert!(flags.contains(&Flag::Custom("x4".into())));
    assert!(!flags.contains(&Flag::Custom("1".into())));
    let big = IdsAndFlagsArgs::try_parse_from(&["cmd", "99999999999999999999999"]).unwrap();
    let (ids, flags) = into_tuple(&big);
    assert!(ids.is_empty());
    assert!(flags.contains(&Flag::Custom("99999999999999999999999".into())));
}

#[test]
fn flag_names() {
    assert_eq!(Flag::from_str(" SEEN "), Flag::Seen);
    assert_eq!(Flag::from_str("Replied"), Flag::Answered);
    assert_eq!(Flag::from_str("answered"), Flag::Answered);
    assert_eq!(Flag::from_str("flagged"), Flag::Flagged);
    assert_eq!(Flag::from_str("trashed"), Flag::Deleted);
    assert_eq!(Flag::from_str("deleted"), Flag::Deleted);
    assert_eq!(Flag::from_str("Drafts"), Flag::Draft);
    assert_eq!(Flag::from_str("draft"), Flag::Draft);
    assert_eq!(Flag::from_str("  my flag "), Flag::Custom("my flag".into()));
    assert_eq!(Flag::from_str("séen"), Flag::Custom("séen".into()));
}

#[test]
fn flag_set_insert_and_contains() {
    let mut flags = Flags::new();
    assert!(!flags.contains(&Flag::Seen));
    flags.insert(Flag::Seen);
    flags.insert(Flag::Custom("s".into()));
    flags.insert(Flag::Seen);
    assert!(flags.contains(&Flag::Seen));
    assert!(flags.contains(&Flag::Custom("s".into())));
    assert!(!flags.contains(&Flag::Custom("".into())));
    assert!(!flags.contains(&Flag::Draft));
}
