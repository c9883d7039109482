//! The ancestry walk over an in-memory commit graph.

use what_bump::errors::CoreError;
use what_bump::repo::{MemCommit, MemRepo};

fn linear_repo(n: usize) -> MemRepo {
    // Commit 0 is the root; commit i's sole parent is commit i - 1.
    let mut commits = Vec::new();
    for i in 0..n {
        let parents = if i == 0 { vec![] } else { vec![i - 1] };
        commits.push(MemCommit {
            id: format!("c{}", i),
            message: Some(format!("fix: change {}", i)),
            parents,
        });
    }
    MemRepo { commits }
}

#[test]
fn linear_history_yields_exactly_the_commits_after_the_boundary() {
    // Five commits; the boundary is the fourth ancestor of the head, so the walk
    // yields four commits, child before parent, and excludes the boundary.
    let repo = linear_repo(5);
    let walked = repo.commits_up_to("c0").unwrap();
    let ids: Vec<&str> = walked.iter().map(|c| c.id.as_str()).collect();
    assert_eq!(ids, vec!["c4", "c3", "c2", "c1"]);
}

#[test]
fn boundary_at_head_yields_nothing() {
    let repo = linear_repo(3);
    let walked = repo.commits_up_to("c2").unwrap();
    assert!(walked.is_empty());
}

#[test]
fn reaching_a_root_without_the_boundary_just_ends_the_walk() {
    // The boundary commit exists but sits on a side branch: the first-parent walk
    // ends quietly at the root without emitting it.
    let repo = MemRepo {
        commits: vec![
            MemCommit { id: "root".to_string(), message: Some("feat: begin".to_string()), parents: vec![] },
            MemCommit { id: "side".to_string(), message: Some("fix: side".to_string()), parents: vec![0] },
            MemCommit { id: "head".to_string(), message: Some("fix: head".to_string()), parents: vec![0] },
        ],
    };
    let walked = repo.commits_up_to("side").unwrap();
    let ids: Vec<&str> = walked.iter().map(|c| c.id.as_str()).collect();
    assert_eq!(ids, vec!["head"]);
}

#[test]
fn a_merge_commit_in_range_aborts_the_walk() {
    let repo = MemRepo {
        commits: vec![
            MemCommit { id: "a".to_string(), message: Some("fix: a".to_string()), parents: vec![] },
            MemCommit { id: "b".to_string(), message: Some("fix: b".to_string()), parents: vec![] },
            MemCommit { id: "merge".to_string(), message: Some("merge a and b".to_string()), parents: vec![0, 1] },
            MemCommit { id: "head".to_string(), message: Some("fix: top".to_string()), parents: vec![2] },
        ],
    };
    let result = repo.commits_up_to("a");
    assert_eq!(
        result,
        Err(CoreError::AmbiguousMergeCommit { id: "merge".to_string() })
    );
}

#[test]
fn an_unknown_revision_aborts_before_walking() {
    let repo = linear_repo(3);
    let result = repo.commits_up_to("nope");
    assert_eq!(
        result,
        Err(CoreError::RevisionResolution { detail: "nope".to_string() })
    );
}

#[test]
fn walked_commits_carry_their_messages() {
    let repo = linear_repo(2);
    let walked = repo.commits_up_to("c0").unwrap();
    assert_eq!(walked.len(), 1);
    assert_eq!(walked[0].id, "c1");
    assert_eq!(walked[0].message.as_deref(), Some("fix: change 1"));
}

#[test]
fn error_messages_name_their_cause() {
    let ambiguous = CoreError::AmbiguousMergeCommit { id: "deadbeef".to_string() };
    assert_eq!(
        ambiguous.message(),
        "ambiguous history: commit deadbeef has more than one parent"
    );
    assert!(ambiguous.is_fatal());
    let missing = CoreError::MissingCommitMessage { id: "deadbeef".to_string() };
    assert_eq!(missing.message(), "no commit message in deadbeef");
    assert!(!missing.is_fatal());
    let unresolved = CoreError::RevisionResolution { detail: "nope".to_string() };
    assert_eq!(unresolved.message(), "cannot resolve revision: nope");
    assert!(unresolved.is_fatal());
}
