//! Commit-message classification and the string-level parsing behind it.

use what_bump::bumping::{BumpType, ObserveParseError, ParseError};
use what_bump::text::FirstLine;

#[test]
fn test_parse_commit_messages() {
    assert_eq!(BumpType::parse_commit_msg("feat: hello"), BumpType::Minor);
    assert_eq!(BumpType::parse_commit_msg("FEAT: hello"), BumpType::Minor);
    assert_eq!(BumpType::parse_commit_msg("feat!: hello"), BumpType::Major);

    assert_eq!(BumpType::parse_commit_msg("fix: hello"), BumpType::Patch);
    assert_eq!(BumpType::parse_commit_msg("Fix: hello"), BumpType::Patch);
    assert_eq!(BumpType::parse_commit_msg("fix!: hello"), BumpType::Major);

    assert_eq!(BumpType::parse_commit_msg("chore"), BumpType::NoBump);
    assert_eq!(BumpType::parse_commit_msg("platypus: foo"), BumpType::NoBump);
}

#[test]
fn known_type_does_not_call_observer() {
    let mut observed: Vec<ParseError> = Vec::new();
    let bump = BumpType::parse_commit_msg_with_errors("chore: tidy", &mut observed);
    assert_eq!(bump, BumpType::NoBump);
    assert_eq!(observed.len(), 0);
}

#[test]
fn unknown_type_calls_observer_once_with_first_line() {
    let mut observed: Vec<ParseError> = Vec::new();
    let bump = BumpType::parse_commit_msg_with_errors("platypus: foo\nmore text", &mut observed);
    assert_eq!(bump, BumpType::NoBump);
    assert_eq!(observed.len(), 1);
    assert_eq!(observed[0].first_line, "platypus: foo");
}

#[test]
fn observing_classification_records_exactly_the_bad_lines() {
    let mut observed: Vec<ParseError> = Vec::new();
    assert_eq!(
        BumpType::parse_commit_msg_observing("fix: fine", &mut observed),
        BumpType::Patch
    );
    assert!(observed.is_empty());
    assert_eq!(
        BumpType::parse_commit_msg_observing("platypus: foo\nbody", &mut observed),
        BumpType::NoBump
    );
    assert_eq!(
        BumpType::parse_commit_msg_observing("chore: fine", &mut observed),
        BumpType::NoBump
    );
    assert_eq!(observed.len(), 1);
    assert_eq!(observed[0].first_line, "platypus: foo");
}

#[test]
fn discarding_observer_is_a_no_op() {
    let mut noop: () = ();
    noop.on_error("platypus: foo", "platypus: foo");
    assert_eq!(
        BumpType::parse_commit_msg_with_errors("platypus: foo", &mut noop),
        BumpType::NoBump
    );
}

#[test]
fn breaking_change_line_wins_over_any_prefix() {
    assert_eq!(
        BumpType::parse_commit_msg("chore: tidy\nBREAKING CHANGE: config renamed"),
        BumpType::Major
    );
    assert_eq!(
        BumpType::parse_commit_msg("platypus: foo\n\nBREAKING CHANGE"),
        BumpType::Major
    );
    // On the very first line no newline precedes the marker, so it is not a body
    // marker and nothing is breaking.
    assert_eq!(BumpType::parse_commit_msg("BREAKING CHANGE"), BumpType::NoBump);
}

#[test]
fn first_line_stops_at_newline() {
    assert_eq!("feat: a\nfix: b".first_line(), "feat: a");
    assert_eq!("no newline".first_line(), "no newline");
}

#[test]
fn prefix_is_lower_cased_up_to_colon() {
    assert_eq!("FIX(Parser): boom".prefix(), "fix(parser)");
    assert_eq!("no colon here".prefix(), "no colon here");
}

#[test]
fn split_at_colon_drops_one_space() {
    assert_eq!(
        "fix(parser): message".split_at_colon(),
        ("fix(parser)".to_string(), "message".to_string())
    );
    assert_eq!("chore".split_at_colon(), ("chore".to_string(), String::new()));
    assert_eq!("fix:msg".split_at_colon(), ("fix".to_string(), "msg".to_string()));
}

#[test]
fn extract_scope_needs_well_formed_brackets() {
    assert_eq!("fix(parser)".extract_scope(), Some("parser".to_string()));
    assert_eq!("fix".extract_scope(), None);
    assert_eq!("fix)parser(".extract_scope(), None);
    assert_eq!("feat(api)!".extract_scope(), Some("api".to_string()));
}

#[test]
fn bump_names_round_trip() {
    assert_eq!(BumpType::NoBump.name(), "None");
    assert_eq!(BumpType::Patch.name(), "Patch");
    assert_eq!(BumpType::Minor.name(), "Minor");
    assert_eq!(BumpType::Major.name(), "Major");
    assert_eq!(BumpType::from_name("none"), Some(BumpType::NoBump));
    assert_eq!(BumpType::from_name("PATCH"), Some(BumpType::Patch));
    assert_eq!(BumpType::from_name("Minor"), Some(BumpType::Minor));
    assert_eq!(BumpType::from_name("major"), Some(BumpType::Major));
    assert_eq!(BumpType::from_name("platypus"), None);
}

#[test]
fn default_bump_is_the_bottom_of_the_order() {
    assert_eq!(BumpType::default(), BumpType::NoBump);
    assert!(BumpType::NoBump < BumpType::Patch);
    assert!(BumpType::Patch < BumpType::Minor);
    assert!(BumpType::Minor < BumpType::Major);
}
