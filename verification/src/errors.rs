//! The error taxonomy of the commit-analysis core.

use vstd::prelude::*;
use vstd::string::StringExecFns;

verus! {

/// What can go wrong while walking history, building a changelog, or rendering it.
///
/// Structural failures (an ambiguous merge, an unresolved revision, rendering) are
/// fatal to the pipeline; the per-commit failures (a missing message, an empty
/// description) only exclude the offending commit.
#[derive(Clone, Debug, PartialEq, Eq)]
pub enum CoreError {
    /// A commit has no message text.
    MissingCommitMessage { id: String },
    /// A message has a conventional prefix but no trailing description.
    EmptyDescription { id: String },
    /// A commit in the walked range has more than one parent.
    AmbiguousMergeCommit { id: String },
    /// The boundary or head revision cannot be resolved to a commit.
    RevisionResolution { detail: String },
    /// The repository could not hand out a commit during the walk.
    RepoAccess { detail: String },
    /// A built-in template id that the registry does not know.
    UnknownTemplate { id: String },
    /// The template engine refused the template or the context.
    TemplateRender { detail: String },
    /// Non-conventional commit messages were found while running in strict mode.
    NonConventionalCommits { count: usize },
}

/// The printable description of each error.
pub open spec fn spec_error_message(e: CoreError) -> Seq<char> {
    match e {
        CoreError::MissingCommitMessage { id } => "no commit message in "@ + id@,
        CoreError::EmptyDescription { id } => "empty commit message in "@ + id@,
        CoreError::AmbiguousMergeCommit { id } => "ambiguous history: commit "@ + id@
            + " has more than one parent"@,
        CoreError::RevisionResolution { detail } => "cannot resolve revision: "@ + detail@,
        CoreError::RepoAccess { detail } => "cannot read commit: "@ + detail@,
        CoreError::UnknownTemplate { id } => "unknown template id: "@ + id@,
        CoreError::TemplateRender { detail } => "cannot render template: "@ + detail@,
        CoreError::NonConventionalCommits { count } =>
            "some non-conventional commit messages were encountered while running in strict mode"@,
    }
}

impl CoreError {
    /// A human-readable description of the error.
    pub fn message(&self) -> (r: String)
        ensures
            r@ == spec_error_message(*self),
    {
        match self {
            CoreError::MissingCommitMessage { id } => {
                let mut s = String::new();
                s.append("no commit message in ");
                s.append(id.as_str());
                s
            },
            CoreError::EmptyDescription { id } => {
                let mut s = String::new();
                s.append("empty commit message in ");
                s.append(id.as_str());
                s
            },
            CoreError::AmbiguousMergeCommit { id } => {
                let mut s = String::new();
                s.append("ambiguous history: commit ");
                s.append(id.as_str());
                s.append(" has more than one parent");
                s
            },
            CoreError::RevisionResolution { detail } => {
                let mut s = String::new();
                s.append("cannot resolve revision: ");
                s.append(detail.as_str());
                s
            },
            CoreError::RepoAccess { detail } => {
                let mut s = String::new();
                s.append("cannot read commit: ");
                s.append(detail.as_str());
                s
            },
            CoreError::UnknownTemplate { id } => {
                let mut s = String::new();
                s.append("unknown template id: ");
                s.append(id.as_str());
                s
            },
            CoreError::TemplateRender { detail } => {
                let mut s = String::new();
                s.append("cannot render template: ");
                s.append(detail.as_str());
                s
            },
            CoreError::NonConventionalCommits { count: _ } => {
                let mut s = String::new();
                s.append(
                    "some non-conventional commit messages were encountered while running in strict mode",
                );
                s
            },
        }
    }

    /// True for the failures that abort the whole pipeline.
    pub fn is_fatal(&self) -> (r: bool)
        ensures
            r == spec_is_fatal(*self),
    {
        match self {
            CoreError::MissingCommitMessage { .. } => false,
            CoreError::EmptyDescription { .. } => false,
            _ => true,
        }
    }
}

/// Structural anomalies are never absorbed; per-commit parse anomalies are.
pub open spec fn spec_is_fatal(e: CoreError) -> bool {
    match e {
        CoreError::MissingCommitMessage { .. } => false,
        CoreError::EmptyDescription { .. } => false,
        _ => true,
    }
}

} // verus!
