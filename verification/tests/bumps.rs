//! The bump lattice, its reduction, and version arithmetic.

use what_bump::bumping::{max_bump, strict_check, BumpType, ParseError};
use what_bump::errors::CoreError;
use what_bump::repo::CommitInfo;
use what_bump::version::{output_line, Bump, Version};

#[test]
fn max_picks_the_more_severe_bump() {
    // The reduction of [Patch, Minor, NoBump] is Minor.
    let reduced = BumpType::Patch.max(BumpType::Minor).max(BumpType::NoBump);
    assert_eq!(reduced, BumpType::Minor);
    assert_eq!(BumpType::NoBump.max(BumpType::Major), BumpType::Major);
    assert_eq!(BumpType::Patch.max(BumpType::Patch), BumpType::Patch);
}

fn commit(id: &str, msg: &str) -> CommitInfo {
    CommitInfo { id: id.to_string(), message: Some(msg.to_string()) }
}

#[test]
fn max_bump_reduces_a_history() {
    let commits = vec![
        commit("a", "fix: a"),
        commit("b", "feat: b"),
        commit("c", "chore: c"),
    ];
    let mut observed: Vec<ParseError> = Vec::new();
    assert_eq!(max_bump(&commits, &mut observed), BumpType::Minor);
    assert!(observed.is_empty());
}

#[test]
fn max_bump_of_nothing_is_none() {
    let commits: Vec<CommitInfo> = Vec::new();
    let mut observed: Vec<ParseError> = Vec::new();
    assert_eq!(max_bump(&commits, &mut observed), BumpType::NoBump);
    assert!(observed.is_empty());
}

#[test]
fn max_bump_treats_missing_messages_as_no_bump() {
    let commits = vec![
        CommitInfo { id: "a".to_string(), message: None },
        commit("b", "fix: b"),
    ];
    let mut observed: Vec<ParseError> = Vec::new();
    assert_eq!(max_bump(&commits, &mut observed), BumpType::Patch);
    assert!(observed.is_empty());
}

#[test]
fn max_bump_reports_non_conventional_messages() {
    let commits = vec![commit("a", "platypus: foo"), commit("b", "fix: b")];
    let mut observed: Vec<ParseError> = Vec::new();
    assert_eq!(max_bump(&commits, &mut observed), BumpType::Patch);
    assert_eq!(observed.len(), 1);
    assert_eq!(observed[0].first_line, "platypus: foo");
}

#[test]
fn strict_mode_turns_observations_into_one_error() {
    let observed = vec![ParseError { first_line: "platypus: foo".to_string() }];
    assert_eq!(strict_check(false, &observed), Ok(()));
    assert_eq!(strict_check(true, &Vec::new()), Ok(()));
    assert_eq!(
        strict_check(true, &observed),
        Err(CoreError::NonConventionalCommits { count: 1 })
    );
}

#[test]
fn bumping_a_version() {
    let v = Version { major: 1, minor: 2, patch: 3 };
    assert_eq!(v.bump(&BumpType::Patch), Version { major: 1, minor: 2, patch: 4 });
    assert_eq!(v.bump(&BumpType::Minor), Version { major: 1, minor: 3, patch: 0 });
    assert_eq!(v.bump(&BumpType::Major), Version { major: 2, minor: 0, patch: 0 });
    assert_eq!(v.bump(&BumpType::NoBump), Version { major: 1, minor: 2, patch: 3 });
}

#[test]
fn version_strings() {
    assert_eq!(Version { major: 1, minor: 2, patch: 3 }.version_string(), "1.2.3");
    assert_eq!(Version { major: 0, minor: 0, patch: 0 }.version_string(), "0.0.0");
    assert_eq!(Version { major: 10, minor: 0, patch: 25 }.version_string(), "10.0.25");
}

#[test]
fn output_is_version_or_bump_name() {
    let v = Version { major: 2, minor: 0, patch: 0 };
    assert_eq!(output_line(Some(&v), BumpType::Major), "2.0.0");
    assert_eq!(output_line(None, BumpType::Major), "Major");
    assert_eq!(output_line(None, BumpType::NoBump), "None");
}
