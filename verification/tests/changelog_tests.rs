//! Changelog aggregation: entries, buckets, dates, and template selection.

use what_bump::bumping::LogEntry;
use what_bump::changelog::{builtin_template, ChangeLog, Date, TemplateType};
use what_bump::errors::CoreError;
use what_bump::repo::CommitInfo;

fn commit(id: &str, msg: &str) -> CommitInfo {
    CommitInfo { id: id.to_string(), message: Some(msg.to_string()) }
}

#[test]
fn log_entry_takes_scope_and_trimmed_description() {
    let entry = LogEntry::try_from_commit(&commit("abc", "fix(parser): handle tabs  \n\nbody"))
        .unwrap();
    assert_eq!(entry.scope.as_deref(), Some("parser"));
    assert_eq!(entry.description, "handle tabs");
    assert_eq!(entry.commit.id, "abc");
}

#[test]
fn log_entry_without_scope() {
    let entry = LogEntry::try_from_commit(&commit("abc", "feat: speed")).unwrap();
    assert_eq!(entry.scope, None);
    assert_eq!(entry.description, "speed");
}

#[test]
fn log_entry_needs_a_message() {
    let no_message = CommitInfo { id: "abc".to_string(), message: None };
    assert!(matches!(
        LogEntry::try_from_commit(&no_message),
        Err(CoreError::MissingCommitMessage { id }) if id == "abc"
    ));
}

#[test]
fn log_entry_needs_a_description() {
    assert!(matches!(
        LogEntry::try_from_commit(&commit("abc", "fix:   ")),
        Err(CoreError::EmptyDescription { id }) if id == "abc"
    ));
    assert!(matches!(
        LogEntry::try_from_commit(&commit("abc", "no colon at all")),
        Err(CoreError::EmptyDescription { id }) if id == "abc"
    ));
}

#[test]
fn changelog_buckets_by_bump_category() {
    let commits = vec![
        commit("1", "fix: one"),
        commit("2", "feat: two"),
        commit("3", "feat!: three"),
        commit("4", "chore: four"),
        commit("5", "fix: five"),
        CommitInfo { id: "6".to_string(), message: None },
        commit("7", "fix:   "),
    ];
    let log = ChangeLog::new(&commits);
    assert_eq!(log.version, "0.0.0");
    let fixes: Vec<&str> = log.fixes.iter().map(|e| e.description.as_str()).collect();
    assert_eq!(fixes, vec!["one", "five"]);
    let features: Vec<&str> = log.features.iter().map(|e| e.description.as_str()).collect();
    assert_eq!(features, vec!["two"]);
    let breaking: Vec<&str> = log.breaking.iter().map(|e| e.description.as_str()).collect();
    assert_eq!(breaking, vec!["three"]);
    let other: Vec<&str> = log.other.iter().map(|e| e.description.as_str()).collect();
    assert_eq!(other, vec!["four"]);
}

#[test]
fn skipped_commits_are_reported_one_error_each() {
    let commits = vec![
        commit("1", "fix: kept"),
        CommitInfo { id: "2".to_string(), message: None },
        commit("3", "feat:   "),
        commit("4", "chore: kept too"),
    ];
    let mut skipped: Vec<CoreError> = Vec::new();
    let log = ChangeLog::new_reporting(&commits, &mut skipped);
    assert_eq!(log.fixes.len(), 1);
    assert_eq!(log.other.len(), 1);
    assert_eq!(
        skipped,
        vec![
            CoreError::MissingCommitMessage { id: "2".to_string() },
            CoreError::EmptyDescription { id: "3".to_string() },
        ]
    );
}

#[test]
fn default_changelog_is_empty_and_dated_today() {
    let log = ChangeLog::default();
    assert_eq!(log.version, "0.0.0");
    assert!(log.fixes.is_empty());
    assert!(log.features.is_empty());
    assert!(log.breaking.is_empty());
    assert!(log.other.is_empty());
    assert!((1..=12).contains(&log.date.month));
    assert!((1..=31).contains(&log.date.day));
}

#[test]
fn dates_print_in_iso_shape() {
    assert_eq!(Date { year: 2024, month: 3, day: 7 }.date_string(), "2024-03-07");
    assert_eq!(Date { year: 987, month: 12, day: 31 }.date_string(), "0987-12-31");
    assert_eq!(Date { year: -44, month: 1, day: 1 }.date_string(), "-0044-01-01");
}

#[test]
fn a_template_file_wins_over_a_template_id() {
    let chosen = TemplateType::from_cli(Some("my.tpl".to_string()), "default.md".to_string());
    assert!(matches!(chosen, TemplateType::File(p) if p == "my.tpl"));
    let fallback = TemplateType::from_cli(None, "default.md".to_string());
    assert!(matches!(fallback, TemplateType::Internal(i) if i == "default.md"));
}

#[test]
fn the_builtin_registry_knows_exactly_two_templates() {
    assert!(builtin_template("default.md").is_some());
    assert!(builtin_template("default.html").is_some());
    assert!(builtin_template("default.txt").is_none());
    assert!(builtin_template("").is_none());
}

#[test]
fn an_unknown_builtin_id_is_an_error() {
    let bad = TemplateType::Internal("nope.md".to_string());
    assert_eq!(
        bad.builtin_text(),
        Err(CoreError::UnknownTemplate { id: "nope.md".to_string() })
    );
    let good = TemplateType::Internal("default.md".to_string());
    assert!(matches!(good.builtin_text(), Ok(Some(_))));
    let file = TemplateType::File("my.tpl".to_string());
    assert_eq!(file.builtin_text(), Ok(None));
}
