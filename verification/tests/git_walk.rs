//! The walker against a real repository, built through git2.

use git2::{Commit, Oid, Repository, Signature};
use what_bump::errors::CoreError;
use what_bump::repo::ConventionalRepo;

fn fresh_repo(tag: &str) -> (Repository, String) {
    let nanos = std::time::SystemTime::now()
        .duration_since(std::time::UNIX_EPOCH)
        .unwrap()
        .as_nanos();
    let path = format!("/tmp/what-bump-{}-{}", tag, nanos);
    (Repository::init(&path).unwrap(), path)
}

fn add_commit(repo: &Repository, msg: &str, parents: &[&Commit]) -> Oid {
    let sig = Signature::now("tester", "tester@example.com").unwrap();
    let tree_id = repo.index().unwrap().write_tree().unwrap();
    let tree = repo.find_tree(tree_id).unwrap();
    repo.commit(Some("HEAD"), &sig, &sig, msg, &tree, parents).unwrap()
}

#[test]
fn walking_a_linear_repository() {
    let (repo, path) = fresh_repo("linear");
    let boundary = add_commit(&repo, "chore: begin", &[]);
    let c1 = {
        let p = repo.find_commit(boundary).unwrap();
        add_commit(&repo, "fix: one", &[&p])
    };
    let head = {
        let p = repo.find_commit(c1).unwrap();
        add_commit(&repo, "feat: two", &[&p])
    };

    let conventional = ConventionalRepo::open(&path).unwrap();
    let commits = conventional
        .commits_up_to(&boundary.to_string())
        .unwrap()
        .collect_commits()
        .unwrap();

    let ids: Vec<&str> = commits.iter().map(|c| c.id.as_str()).collect();
    assert_eq!(ids, vec![head.to_string().as_str(), c1.to_string().as_str()]);
    assert_eq!(commits[0].message.as_deref(), Some("feat: two"));
    assert_eq!(commits[1].message.as_deref(), Some("fix: one"));
}

#[test]
fn a_merge_commit_fails_the_walk() {
    let (repo, path) = fresh_repo("merge");
    let root = add_commit(&repo, "chore: begin", &[]);
    let left = {
        let p = repo.find_commit(root).unwrap();
        add_commit(&repo, "fix: left", &[&p])
    };
    let merge = {
        let l = repo.find_commit(left).unwrap();
        let r = repo.find_commit(root).unwrap();
        add_commit(&repo, "merge the branches", &[&l, &r])
    };

    let conventional = ConventionalRepo::open(&path).unwrap();
    let result = conventional
        .commits_up_to(&root.to_string())
        .unwrap()
        .collect_commits();

    assert_eq!(
        result,
        Err(CoreError::AmbiguousMergeCommit { id: merge.to_string() })
    );
}

#[test]
fn an_unresolvable_revision_fails_before_walking() {
    let (repo, path) = fresh_repo("unresolved");
    add_commit(&repo, "chore: begin", &[]);

    let conventional = ConventionalRepo::open(&path).unwrap();
    let result = conventional.commits_up_to("does-not-exist");
    assert!(matches!(result, Err(CoreError::RevisionResolution { .. })));
}

#[test]
fn opening_a_missing_repository_fails() {
    let result = ConventionalRepo::open("/tmp/what-bump-no-such-repo");
    assert!(matches!(result, Err(CoreError::RepoAccess { .. })));
}
