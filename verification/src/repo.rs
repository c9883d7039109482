//! Commit history: the ancestry walk from head to an exclusive boundary revision.
//!
//! The walk follows first-parent links only, stops (without error) at the boundary
//! commit or at a root, and refuses a merge commit: a bump computed across a merge
//! boundary would be meaningless without knowing which side holds the real history.

use vstd::prelude::*;

use crate::errors::CoreError;
use crate::text::{chars_eq, chars_of};

verus! {

/// A commit as the walk hands it out: its identity and its message, if any.
#[derive(Clone, Debug, PartialEq, Eq)]
pub struct CommitInfo {
    pub id: String,
    pub message: Option<String>,
}

/// The mathematical shape of a walked commit.
pub struct CommitView {
    pub id: Seq<char>,
    pub message: Option<Seq<char>>,
}

impl View for CommitInfo {
    type V = CommitView;

    open spec fn view(&self) -> CommitView {
        CommitView {
            id: self.id@,
            message: match self.message {
                Some(m) => Some(m@),
                None => None,
            },
        }
    }
}

pub fn clone_commit(c: &CommitInfo) -> (r: CommitInfo)
    ensures
        r@ == c@,
{
    let message = match &c.message {
        Some(m) => Some(m.clone()),
        None => None,
    };
    CommitInfo { id: c.id.clone(), message }
}

/// A commit of the in-memory graph: parents are indices of older commits.
pub struct MemCommit {
    pub id: String,
    pub message: Option<String>,
    pub parents: Vec<usize>,
}

/// The mathematical shape of an in-memory commit.
pub struct MemCommitView {
    pub id: Seq<char>,
    pub message: Option<Seq<char>>,
    pub parents: Seq<usize>,
}

impl View for MemCommit {
    type V = MemCommitView;

    open spec fn view(&self) -> MemCommitView {
        MemCommitView {
            id: self.id@,
            message: match self.message {
                Some(m) => Some(m@),
                None => None,
            },
            parents: self.parents@,
        }
    }
}

/// An in-memory commit graph, oldest commit first; the head is the last commit.
///
/// It stands in for a real repository so the walk itself can be exercised against
/// a known graph.
pub struct MemRepo {
    pub commits: Vec<MemCommit>,
}

impl View for MemRepo {
    type V = Seq<MemCommitView>;

    open spec fn view(&self) -> Seq<MemCommitView> {
        self.commits@.map_values(|c: MemCommit| c@)
    }
}

/// Every parent link points at an older (earlier) commit: the graph is acyclic.
pub open spec fn spec_wf(cs: Seq<MemCommitView>) -> bool {
    forall|i: int, j: int|
        0 <= i < cs.len() && 0 <= j < cs[i].parents.len() ==> (#[trigger] cs[i].parents[j]) < i
}

/// What an ancestry walk yields: the walked commits, or the merge commit that
/// made the history ambiguous.
pub enum WalkView {
    Commits(Seq<CommitView>),
    Ambiguous(Seq<char>),
}

/// The walk from commit `cur`, exclusive of the first commit whose id is `boundary`:
/// stop at the boundary or at a root, fail at a merge, otherwise emit the commit and
/// follow its sole parent.
pub open spec fn spec_walk(cs: Seq<MemCommitView>, cur: int, boundary: Seq<char>) -> WalkView
    decreases cur,
    when spec_wf(cs) && 0 <= cur < cs.len()
{
    let c = cs[cur];
    if c.id == boundary {
        WalkView::Commits(Seq::empty())
    } else if c.parents.len() == 0 {
        WalkView::Commits(Seq::empty())
    } else if c.parents.len() > 1 {
        WalkView::Ambiguous(c.id)
    } else {
        match spec_walk(cs, c.parents[0] as int, boundary) {
            WalkView::Commits(rest) => WalkView::Commits(
                seq![CommitView { id: c.id, message: c.message }] + rest,
            ),
            WalkView::Ambiguous(id) => WalkView::Ambiguous(id),
        }
    }
}

/// Commits already emitted, joined with what the rest of the walk yields.
pub open spec fn walk_append(prefix: Seq<CommitView>, w: WalkView) -> WalkView {
    match w {
        WalkView::Commits(s) => WalkView::Commits(prefix + s),
        WalkView::Ambiguous(id) => WalkView::Ambiguous(id),
    }
}

impl MemRepo {
    pub open spec fn wf(&self) -> bool {
        spec_wf(self@)
    }

    /// The index of the first commit whose id is `revision`, if any.
    pub fn resolve(&self, revision: &str) -> (r: Option<usize>)
        ensures
            match r {
                Some(i) => i < self@.len() && self@[i as int].id == revision@,
                None => forall|k: int| 0 <= k < self@.len() ==> self@[k].id != revision@,
            },
    {
        let rev = chars_of(revision);
        let mut i: usize = 0;
        while i < self.commits.len()
            invariant
                i <= self@.len(),
                rev@ == revision@,
                self@.len() == self.commits@.len(),
                forall|k: int| 0 <= k < i ==> self@[k].id != revision@,
            decreases self@.len() - i,
        {
            let cid = chars_of(self.commits[i].id.as_str());
            if chars_eq(&cid, &rev) {
                return Some(i);
            }
            i = i + 1;
        }
        None
    }

    /// Walk from the head (the newest commit) up to, and exclusive of, the commit
    /// that `revision` names, newest first.
    ///
    /// Fails fast: an unresolvable revision aborts before any walking begins, and a
    /// merge commit in range aborts the walk with no partial result.
    pub fn commits_up_to(&self, revision: &str) -> (r: Result<Vec<CommitInfo>, CoreError>)
        requires
            self.wf(),
        ensures
            (self@.len() == 0 || self.resolve_spec_none(revision@)) ==> (r matches Err(e)
                && e matches CoreError::RevisionResolution { detail } && detail@ == revision@),
            self@.len() > 0 && !self.resolve_spec_none(revision@) ==> match spec_walk(
                self@,
                self@.len() - 1,
                revision@,
            ) {
                WalkView::Commits(s) => r matches Ok(v) && v@.map_values(|c: CommitInfo| c@)
                    == s,
                WalkView::Ambiguous(aid) => r matches Err(e) && e matches
                    CoreError::AmbiguousMergeCommit { id } && id@ == aid,
            },
    {
        let boundary = chars_of(revision);
        if self.commits.len() == 0 {
            return Err(CoreError::RevisionResolution { detail: revision.to_owned() });
        }
        match self.resolve(revision) {
            None => {
                return Err(CoreError::RevisionResolution { detail: revision.to_owned() });
            },
            Some(_) => {},
        }
        let ghost head: int = self@.len() - 1;
        let mut cur: usize = self.commits.len() - 1;
        let mut out: Vec<CommitInfo> = Vec::new();
        loop
            invariant
                self.wf(),
                0 <= cur < self@.len(),
                self@.len() == self.commits@.len(),
                head == self@.len() - 1,
                boundary@ == revision@,
                !self.resolve_spec_none(revision@),
                walk_append(out@.map_values(|c: CommitInfo| c@), spec_walk(self@, cur as int, revision@))
                    == spec_walk(self@, head, revision@),
            decreases cur,
        {
            let c = &self.commits[cur];
            let cid = chars_of(c.id.as_str());
            proof {
                reveal_with_fuel(spec_walk, 2);
            }
            if chars_eq(&cid, &boundary) {
                proof {
                    let ov = out@.map_values(|cc: CommitInfo| cc@);
                    assert(ov + Seq::<CommitView>::empty() =~= ov);
                }
                return Ok(out);
            }
            if c.parents.len() == 0 {
                proof {
                    let ov = out@.map_values(|cc: CommitInfo| cc@);
                    assert(ov + Seq::<CommitView>::empty() =~= ov);
                }
                return Ok(out);
            }
            if c.parents.len() > 1 {
                return Err(CoreError::AmbiguousMergeCommit { id: c.id.clone() });
            }
            let info = CommitInfo {
                id: c.id.clone(),
                message: match &c.message {
                    Some(m) => Some(m.clone()),
                    None => None,
                },
            };
            let ghost old_out = out@;
            out.push(info);
            let p = c.parents[0];
            proof {
                let cs = self@;
                let cv = CommitView { id: cs[cur as int].id, message: cs[cur as int].message };
                let ov = old_out.map_values(|cc: CommitInfo| cc@);
                let ov2 = out@.map_values(|cc: CommitInfo| cc@);
                assert(ov2 =~= ov + seq![cv]);
                match spec_walk(cs, p as int, revision@) {
                    WalkView::Commits(rest) => {
                        assert(spec_walk(cs, cur as int, revision@) == WalkView::Commits(
                            seq![cv] + rest,
                        ));
                        assert(ov + (seq![cv] + rest) =~= (ov + seq![cv]) + rest);
                    },
                    WalkView::Ambiguous(_) => {},
                }
            }
            cur = p;
        }
    }

    /// True when no commit of the graph carries the id `revision`.
    pub open spec fn resolve_spec_none(&self, revision: Seq<char>) -> bool {
        forall|k: int| 0 <= k < self@.len() ==> self@[k].id != revision
    }
}

#[verifier::external_type_specification]
#[verifier::external_body]
pub struct ExRepository(git2::Repository);

#[verifier::external_type_specification]
#[verifier::external_body]
pub struct ExCommit<'a>(git2::Commit<'a>);

#[verifier::external_type_specification]
#[verifier::external_body]
pub struct ExGitError(git2::Error);

/// Relies on git2's `Repository::open`: opens the repository at `path`.
#[verifier::external_body]
fn repo_open(path: &str) -> Result<git2::Repository, git2::Error> {
    git2::Repository::open(path)
}

/// Relies on git2's `Repository::revparse_single` and `Object::peel_to_commit`:
/// resolves a revision specifier to the commit it names.
#[verifier::external_body]
fn resolve_commit<'r>(repo: &'r git2::Repository, spec: &str) -> Result<
    git2::Commit<'r>,
    git2::Error,
> {
    repo.revparse_single(spec)?.peel_to_commit()
}

/// Relies on git2's `Repository::head` and `Reference::peel_to_commit`: the commit
/// the current head points at.
#[verifier::external_body]
fn head_commit<'r>(repo: &'r git2::Repository) -> Result<git2::Commit<'r>, git2::Error> {
    repo.head()?.peel_to_commit()
}

/// The raw bytes of a commit's object id: a function of the commit value alone.
pub uninterp spec fn spec_id_bytes(c: git2::Commit) -> Seq<u8>;

/// A commit's message, where it has one that is valid text: a function of the
/// commit value alone.
pub uninterp spec fn spec_message(c: git2::Commit) -> Option<Seq<char>>;

/// How many parents a commit has: a function of the commit value alone.
pub uninterp spec fn spec_parent_count(c: git2::Commit) -> usize;

/// The printable description a repository error carries: a function of the
/// error value alone.
pub uninterp spec fn spec_git_error_text(e: git2::Error) -> Seq<char>;

/// The hexadecimal digits.
pub open spec fn hex_digits() -> Seq<char> {
    "0123456789abcdef"@
}

/// The lower-case hexadecimal notation of a byte string, two digits per byte.
pub open spec fn hex_of(b: Seq<u8>) -> Seq<char>
    decreases b.len(),
{
    if b.len() == 0 {
        Seq::empty()
    } else {
        hex_of(b.drop_last()) + seq![
            hex_digits()[b.last() as int / 16],
            hex_digits()[b.last() as int % 16],
        ]
    }
}

/// Relies on git2's `Commit::id` and `Oid::as_bytes`: the commit's object id, as
/// its raw bytes.
#[verifier::external_body]
fn commit_id_bytes(c: &git2::Commit) -> (r: Vec<u8>)
    ensures
        r@ == spec_id_bytes(*c),
{
    c.id().as_bytes().to_vec()
}

/// Relies on the `Display` impl of git2's `Oid`: the commit id, which is exactly
/// the lower-case hexadecimal notation of its raw bytes.
#[verifier::external_body]
fn commit_id_hex(c: &git2::Commit) -> (r: String)
    ensures
        r@ == hex_of(spec_id_bytes(*c)),
{
    c.id().to_string()
}

/// Relies on git2's `Commit::message`: the commit's message, when it has one that
/// is valid text.
#[verifier::external_body]
fn commit_message(c: &git2::Commit) -> (r: Option<String>)
    ensures
        match r {
            Some(m) => spec_message(*c) == Some(m@),
            None => spec_message(*c) is None,
        },
{
    c.message().ok().map(|m| m.to_owned())
}

/// Relies on git2's `Commit::parent_count`.
#[verifier::external_body]
fn commit_parent_count(c: &git2::Commit) -> (r: usize)
    ensures
        r == spec_parent_count(*c),
{
    c.parent_count()
}

/// Relies on git2's `Commit::parent`: the commit's `i`-th parent, fetched from
/// the repository, which may refuse.
#[verifier::external_body]
fn commit_parent<'r>(c: &git2::Commit<'r>, i: usize) -> Result<git2::Commit<'r>, git2::Error> {
    c.parent(i)
}

/// Relies on git2's `Error::message`: the failure's printable description.
#[verifier::external_body]
fn git_error_message(e: &git2::Error) -> (r: String)
    ensures
        r@ == spec_git_error_text(*e),
{
    e.message().to_owned()
}

/// True when the two byte vectors hold the same bytes.
fn bytes_eq(a: &Vec<u8>, b: &Vec<u8>) -> (r: bool)
    ensures
        r == (a@ == b@),
{
    if a.len() != b.len() {
        proof {
            assert(a@ != b@);
        }
        return false;
    }
    let mut i: usize = 0;
    while i < a.len()
        invariant
            i <= a@.len(),
            a@.len() == b@.len(),
            forall|j: int| 0 <= j < i ==> a@[j] == b@[j],
        decreases a@.len() - i,
    {
        if a[i] != b[i] {
            return false;
        }
        i = i + 1;
    }
    proof {
        assert(a@ =~= b@);
    }
    true
}

/// A git repository whose messages respect the Conventional Commits convention.
///
/// Can be created from the path of the git repo.
pub struct ConventionalRepo {
    repo: git2::Repository,
}

impl ConventionalRepo {
    /// Open the repository at `path`.
    pub fn open(path: &str) -> (r: Result<ConventionalRepo, CoreError>)
        ensures
            r matches Err(e) ==> e is RepoAccess,
    {
        match repo_open(path) {
            Ok(repo) => Ok(ConventionalRepo { repo }),
            Err(e) => Err(CoreError::RepoAccess { detail: git_error_message(&e) }),
        }
    }

    /// Begin the walk from the repository's head up to, and exclusive of, the
    /// commit that `revision` names. An unresolvable boundary (or head) aborts
    /// before any walking begins.
    pub fn commits_up_to<'a>(&'a self, revision: &str) -> (r: Result<
        CommitIterator<'a>,
        CoreError,
    >)
        ensures
            r matches Err(e) ==> e is RevisionResolution,
            r matches Ok(it) ==> !it.done(),
    {
        let boundary = match resolve_commit(&self.repo, revision) {
            Ok(c) => c,
            Err(e) => {
                return Err(CoreError::RevisionResolution { detail: git_error_message(&e) });
            },
        };
        let head = match head_commit(&self.repo) {
            Ok(c) => c,
            Err(e) => {
                return Err(CoreError::RevisionResolution { detail: git_error_message(&e) });
            },
        };
        Ok(CommitIterator { boundary: commit_id_bytes(&boundary), current: Some(head) })
    }
}

/// The single-pass, forward-only walk over a real repository, child before
/// parent. It is not restartable: a fresh walk must be constructed from a fresh
/// boundary resolution.
pub struct CommitIterator<'a> {
    boundary: Vec<u8>,
    current: Option<git2::Commit<'a>>,
}

impl<'a> CommitIterator<'a> {
    /// True once the walk has ended, by reaching the boundary, a root, or a
    /// failure.
    pub closed spec fn done(&self) -> bool {
        self.current is None
    }

    /// The commit the walk stands on, where it has not ended.
    pub closed spec fn spec_current(&self) -> Option<git2::Commit<'a>> {
        self.current
    }

    /// The id bytes of the boundary commit, fixed when the walk was constructed.
    pub closed spec fn spec_boundary(&self) -> Seq<u8> {
        self.boundary@
    }

    /// One step of the walk, deciding on the commit it stands on: `Ok(None)` at
    /// the boundary or at a root (neither is emitted); the ambiguous-history
    /// error, naming the commit, at a merge (more than one parent); otherwise the
    /// commit's id and message are emitted and the walk advances to its sole
    /// parent — or the repository refuses the parent and the access error comes.
    /// After an end or an error the walk stays ended.
    pub fn next(&mut self) -> (r: Result<Option<CommitInfo>, CoreError>)
        ensures
            final(self).spec_boundary() == old(self).spec_boundary(),
            r matches Err(e) ==> (e is AmbiguousMergeCommit || e is RepoAccess),
            (r matches Ok(c) && c is None) ==> final(self).done(),
            r matches Err(_) ==> final(self).done(),
            match old(self).spec_current() {
                None => r matches Ok(c) && c is None,
                Some(cur) => {
                    if spec_id_bytes(cur) == old(self).spec_boundary() {
                        r matches Ok(c) && c is None
                    } else if spec_parent_count(cur) == 0 {
                        r matches Ok(c) && c is None
                    } else if spec_parent_count(cur) > 1 {
                        r matches Err(e) && e matches CoreError::AmbiguousMergeCommit { id }
                            && id@ == hex_of(spec_id_bytes(cur))
                    } else {
                        match r {
                            Ok(c) => c matches Some(ci) && ci@.id == hex_of(
                                spec_id_bytes(cur),
                            ) && ci@.message == spec_message(cur) && !final(self).done(),
                            Err(e) => e is RepoAccess,
                        }
                    }
                },
            },
    {
        let cur = match self.current.take() {
            None => {
                return Ok(None);
            },
            Some(c) => c,
        };
        let cid = commit_id_bytes(&cur);
        if bytes_eq(&cid, &self.boundary) {
            return Ok(None);
        }
        let parents = commit_parent_count(&cur);
        if parents == 0 {
            return Ok(None);
        }
        if parents > 1 {
            return Err(CoreError::AmbiguousMergeCommit { id: commit_id_hex(&cur) });
        }
        let parent = match commit_parent(&cur, 0) {
            Ok(p) => p,
            Err(e) => {
                return Err(CoreError::RepoAccess { detail: git_error_message(&e) });
            },
        };
        self.current = Some(parent);
        Ok(Some(CommitInfo { id: commit_id_hex(&cur), message: commit_message(&cur) }))
    }

    /// Drain the walk into a vector, newest commit first, failing fast on the
    /// first error. (The step budget is far beyond any history a repository can
    /// hold; a walk that somehow outlived it would be refused like any other
    /// unreadable history.)
    pub fn collect_commits(&mut self) -> (r: Result<Vec<CommitInfo>, CoreError>)
        ensures
            r matches Err(e) ==> (e is AmbiguousMergeCommit || e is RepoAccess),
            final(self).done(),
            old(self).done() ==> (r matches Ok(v) && v@.len() == 0),
    {
        let mut out: Vec<CommitInfo> = Vec::new();
        match self.next() {
            Err(e) => {
                return Err(e);
            },
            Ok(None) => {
                return Ok(out);
            },
            Ok(Some(ci)) => {
                out.push(ci);
            },
        }
        let mut fuel: usize = usize::MAX;
        while fuel > 0
            invariant
                !old(self).done(),
            decreases fuel,
        {
            match self.next() {
                Err(e) => {
                    return Err(e);
                },
                Ok(None) => {
                    return Ok(out);
                },
                Ok(Some(ci)) => {
                    out.push(ci);
                },
            }
            fuel = fuel - 1;
        }
        self.current = None;
        Err(CoreError::RepoAccess { detail: "history too deep to walk".to_owned() })
    }
}

/// Over a linear stretch of history (each commit's sole parent is the commit just
/// before it), the walk from `head` down to the boundary at index `b_idx` yields
/// exactly `head - b_idx` commits, newest first: the boundary itself is excluded.
pub proof fn lemma_linear_walk(cs: Seq<MemCommitView>, head: int, b_idx: int)
    requires
        spec_wf(cs),
        cs.len() <= usize::MAX,
        0 <= b_idx <= head < cs.len(),
        forall|i: int| b_idx < i <= head ==> (#[trigger] cs[i].parents) =~= seq![(i - 1) as usize],
        forall|i: int| b_idx <= i <= head && i != b_idx ==> (#[trigger] cs[i].id) != cs[b_idx].id,
    ensures
        spec_walk(cs, head, cs[b_idx].id) == WalkView::Commits(
            Seq::new((head - b_idx) as nat, |k: int| CommitView {
                id: cs[head - k].id,
                message: cs[head - k].message,
            }),
        ),
    decreases head - b_idx,
{
    reveal_with_fuel(spec_walk, 2);
    if head == b_idx {
        assert(Seq::<CommitView>::empty() =~= Seq::new(0nat, |k: int| CommitView {
            id: cs[head - k].id,
            message: cs[head - k].message,
        }));
    } else {
        assert(cs[head].parents =~= seq![(head - 1) as usize]);
        assert(cs[head].id != cs[b_idx].id);
        lemma_linear_walk(cs, head - 1, b_idx);
        let rest = Seq::new((head - 1 - b_idx) as nat, |k: int| CommitView {
            id: cs[head - 1 - k].id,
            message: cs[head - 1 - k].message,
        });
        let whole = Seq::new((head - b_idx) as nat, |k: int| CommitView {
            id: cs[head - k].id,
            message: cs[head - k].message,
        });
        assert(seq![CommitView { id: cs[head].id, message: cs[head].message }] + rest =~= whole);
    }
}

/// A walk that reaches a merge commit (more than one parent) before reaching the
/// boundary fails as ambiguous, naming that commit, and yields no commits at all.
pub proof fn lemma_walk_hits_merge(cs: Seq<MemCommitView>, head: int, m: int, boundary: Seq<char>)
    requires
        spec_wf(cs),
        cs.len() <= usize::MAX,
        0 <= m <= head < cs.len(),
        forall|i: int| m < i <= head ==> (#[trigger] cs[i].parents) =~= seq![(i - 1) as usize],
        forall|i: int| m <= i <= head ==> (#[trigger] cs[i].id) != boundary,
        cs[m].parents.len() > 1,
    ensures
        spec_walk(cs, head, boundary) == WalkView::Ambiguous(cs[m].id),
    decreases head - m,
{
    reveal_with_fuel(spec_walk, 2);
    if head == m {
    } else {
        assert(cs[head].parents =~= seq![(head - 1) as usize]);
        assert(cs[head].id != boundary);
        lemma_walk_hits_merge(cs, head - 1, m, boundary);
    }
}

} // verus!
