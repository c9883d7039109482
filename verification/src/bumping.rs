//! Classifying conventional commit messages into version bumps, and the
//! changelog entries built from them.

use vstd::prelude::*;

use crate::errors::CoreError;
use crate::repo::{clone_commit, CommitInfo};
use crate::text::{
    chars_eq_str, chars_of, contains_char, contains_seq, first_index_of,
    lemma_first_index_of, lower, prefix_chars, rest_after_colon_chars, scope_chars,
    spec_extract_scope, spec_first_line, spec_prefix, spec_rest_after_colon, spec_trim,
    starts_with_chars, string_from_chars, sub_chars, trim_chars, vec_contains_char,
    vec_contains_seq,
};

verus! {

/// The different types of version bumps that one can do.
///
/// Totally ordered: `NoBump < Patch < Minor < Major`. The bottom element prints
/// as `"None"`; it is named `NoBump` here only because `None` is reserved.
#[derive(Copy, Clone, Debug, Eq, Ord, PartialOrd, PartialEq, Structural)]
pub enum BumpType {
    NoBump,
    Patch,
    Minor,
    Major,
}

impl Default for BumpType {
    fn default() -> (r: Self)
        ensures
            r == BumpType::NoBump,
    {
        BumpType::NoBump
    }
}

/// The position of a bump in the severity order.
pub open spec fn bump_rank(b: BumpType) -> int {
    match b {
        BumpType::NoBump => 0,
        BumpType::Patch => 1,
        BumpType::Minor => 2,
        BumpType::Major => 3,
    }
}

/// The more severe of two bumps.
pub open spec fn spec_bump_max(a: BumpType, b: BumpType) -> BumpType {
    if bump_rank(a) >= bump_rank(b) {
        a
    } else {
        b
    }
}

/// The body marker that flags a breaking change: `BREAKING CHANGE` starting its
/// own line, so the marker searched for is preceded by a newline.
pub open spec fn breaking_marker() -> Seq<char> {
    "\nBREAKING CHANGE"@
}

/// The fixed vocabulary of conventional commit types.
pub open spec fn is_known_type(p: Seq<char>) -> bool {
    ||| p == "build"@
    ||| p == "ci"@
    ||| p == "chore"@
    ||| p == "docs"@
    ||| p == "feat"@
    ||| p == "fix"@
    ||| p == "perf"@
    ||| p == "refactor"@
    ||| p == "revert"@
    ||| p == "style"@
    ||| p == "test"@
}

/// The lower-cased prefix of the first line of `msg`.
pub open spec fn spec_msg_prefix(msg: Seq<char>) -> Seq<char> {
    spec_prefix(spec_first_line(msg))
}

/// A message is breaking when its prefix carries `!` or its body holds a line
/// starting with `BREAKING CHANGE`.
pub open spec fn spec_is_breaking(msg: Seq<char>) -> bool {
    contains_char(spec_msg_prefix(msg), '!') || contains_seq(msg, breaking_marker())
}

/// The bump implied by one commit message.
pub open spec fn spec_classify(msg: Seq<char>) -> BumpType {
    if spec_is_breaking(msg) {
        BumpType::Major
    } else if "fix"@.is_prefix_of(spec_msg_prefix(msg)) {
        BumpType::Patch
    } else if "feat"@.is_prefix_of(spec_msg_prefix(msg)) {
        BumpType::Minor
    } else {
        BumpType::NoBump
    }
}

/// A message is non-conventional when it classifies as `NoBump` while its prefix
/// is outside the fixed vocabulary; exactly such messages are reported to the
/// observer.
pub open spec fn spec_is_observed(msg: Seq<char>) -> bool {
    spec_classify(msg) == BumpType::NoBump && !is_known_type(spec_msg_prefix(msg))
}

/// An observer for non-conventional commit messages.
///
/// Substitutable policy: a discarding observer (`()`) or an accumulating one
/// (`Vec<ParseError>`), chosen by the caller.
pub trait ObserveParseError {
    fn on_error(&mut self, commit_msg: &str, first_line: &str);
}

impl ObserveParseError for () {
    /// The discarding observer: nothing happens.
    fn on_error(&mut self, _commit_msg: &str, _first_line: &str)
        ensures
            *final(self) == *old(self),
    {
    }
}

/// One observed non-conventional commit message, by its first line.
pub struct ParseError {
    pub first_line: String,
}

/// The first lines that an accumulating observer has recorded, in order.
pub open spec fn observed_lines(v: Seq<ParseError>) -> Seq<Seq<char>> {
    v.map_values(|p: ParseError| p.first_line@)
}

impl ObserveParseError for Vec<ParseError> {
    /// The accumulating observer: appends exactly one observation carrying the
    /// offending first line; the full message is not recorded.
    fn on_error(&mut self, _commit_msg: &str, first_line: &str)
        ensures
            observed_lines(final(self)@) == observed_lines(old(self)@).push(first_line@),
    {
        self.push(ParseError { first_line: first_line.to_owned() });
        proof {
            assert(observed_lines(self@) =~= observed_lines(old(self)@).push(first_line@));
        }
    }
}

/// The classification of one message, together with the observation it triggers:
/// its first line exactly when the message is non-conventional, nothing otherwise.
fn classify_with_observation(commit_msg: &str) -> (r: (BumpType, Option<String>))
    ensures
        r.0 == spec_classify(commit_msg@),
        match r.1 {
            Some(line) => spec_is_observed(commit_msg@) && line@ == spec_first_line(
                commit_msg@,
            ),
            None => !spec_is_observed(commit_msg@),
        },
{
    let v = chars_of(commit_msg);
    let line_end = find_line_end(&v);
    let line = sub_chars(&v, 0, line_end);
    let prefix = prefix_chars(&line);
    let marker = chars_of("\nBREAKING CHANGE");
    let breaking = vec_contains_char(&prefix, '!') || vec_contains_seq(&v, &marker);
    if breaking {
        (BumpType::Major, None)
    } else if starts_with_chars(&prefix, &chars_of("fix")) {
        (BumpType::Patch, None)
    } else if starts_with_chars(&prefix, &chars_of("feat")) {
        (BumpType::Minor, None)
    } else {
        if !is_known_type_chars(&prefix) {
            (BumpType::NoBump, Some(string_from_chars(&line)))
        } else {
            (BumpType::NoBump, None)
        }
    }
}

impl BumpType {
    /// The bump implied by `commit_msg`, ignoring non-conventional messages.
    pub fn parse_commit_msg(commit_msg: &str) -> (r: Self)
        ensures
            r == spec_classify(commit_msg@),
    {
        let mut noop: () = ();
        BumpType::parse_commit_msg_with_errors(commit_msg, &mut noop)
    }

    /// Parses a conventional commit message into a `BumpType`. If a non-conventional
    /// message is encountered, the `error_observer` is called, with the message and
    /// its first line.
    ///
    /// A no-op implementation of `ObserveParseError` is provided for `()`, for callers
    /// that ignore errors. (Non-conventional messages always generate `BumpType::NoBump`.)
    /// Through a generic observer nothing can be stated of the observation itself;
    /// [`BumpType::parse_commit_msg_observing`] fixes it for the accumulating one.
    pub fn parse_commit_msg_with_errors<O: ObserveParseError>(
        commit_msg: &str,
        error_observer: &mut O,
    ) -> (r: Self)
        ensures
            r == spec_classify(commit_msg@),
    {
        let (bump, observation) = classify_with_observation(commit_msg);
        match observation {
            Some(line) => error_observer.on_error(commit_msg, line.as_str()),
            None => {},
        }
        bump
    }

    /// Classification with the accumulating observer: besides the bump, exactly one
    /// observation carrying the message's first line is appended when the message is
    /// non-conventional, and nothing is appended otherwise.
    pub fn parse_commit_msg_observing(commit_msg: &str, errors_found: &mut Vec<ParseError>) -> (r:
        Self)
        ensures
            r == spec_classify(commit_msg@),
            observed_lines(final(errors_found)@) == if spec_is_observed(commit_msg@) {
                observed_lines(old(errors_found)@).push(spec_first_line(commit_msg@))
            } else {
                observed_lines(old(errors_found)@)
            },
    {
        let (bump, observation) = classify_with_observation(commit_msg);
        match observation {
            Some(line) => errors_found.on_error(commit_msg, line.as_str()),
            None => {},
        }
        bump
    }

    /// The more severe of `self` and `other`.
    pub fn max(self, other: BumpType) -> (r: BumpType)
        ensures
            r == spec_bump_max(self, other),
    {
        match (self, other) {
            (BumpType::Major, _) => BumpType::Major,
            (_, BumpType::Major) => other,
            (BumpType::Minor, _) => BumpType::Minor,
            (_, BumpType::Minor) => other,
            (BumpType::Patch, _) => BumpType::Patch,
            (_, BumpType::Patch) => other,
            _ => self,
        }
    }

    /// The name of the bump, as it is printed.
    pub fn name(&self) -> (r: &'static str)
        ensures
            r@ == spec_bump_name(*self),
    {
        match self {
            BumpType::NoBump => "None",
            BumpType::Patch => "Patch",
            BumpType::Minor => "Minor",
            BumpType::Major => "Major",
        }
    }

    /// The bump named by `s`, compared case-insensitively; `None` when `s` names no
    /// bump.
    pub fn from_name(s: &str) -> (r: Option<BumpType>)
        ensures
            match r {
                Some(b) => spec_bump_of_name(lower(s@)) == Some(b),
                None => spec_bump_of_name(lower(s@)) is None,
            },
    {
        let v = chars_of(s);
        let low = crate::text::lower_chars(&v);
        if chars_eq_str(&low, "none") {
            Some(BumpType::NoBump)
        } else if chars_eq_str(&low, "patch") {
            Some(BumpType::Patch)
        } else if chars_eq_str(&low, "minor") {
            Some(BumpType::Minor)
        } else if chars_eq_str(&low, "major") {
            Some(BumpType::Major)
        } else {
            None
        }
    }
}

/// The printable name of each bump.
pub open spec fn spec_bump_name(b: BumpType) -> Seq<char> {
    match b {
        BumpType::NoBump => "None"@,
        BumpType::Patch => "Patch"@,
        BumpType::Minor => "Minor"@,
        BumpType::Major => "Major"@,
    }
}

/// The bump that a lower-cased name denotes.
pub open spec fn spec_bump_of_name(s: Seq<char>) -> Option<BumpType> {
    if s == "none"@ {
        Some(BumpType::NoBump)
    } else if s == "patch"@ {
        Some(BumpType::Patch)
    } else if s == "minor"@ {
        Some(BumpType::Minor)
    } else if s == "major"@ {
        Some(BumpType::Major)
    } else {
        None
    }
}

/// The end of the first line of `v`.
fn find_line_end(v: &Vec<char>) -> (r: usize)
    ensures
        r == first_index_of(v@, '\n'),
        0 <= r <= v@.len(),
        v@.subrange(0, r as int) == spec_first_line(v@),
{
    let r = crate::text::find_char(v, '\n');
    proof {
        lemma_first_index_of(v@, '\n');
    }
    r
}

/// True when `p` spells one of the fixed conventional types.
fn is_known_type_chars(p: &Vec<char>) -> (r: bool)
    ensures
        r == is_known_type(p@),
{
    chars_eq_str(p, "build") || chars_eq_str(p, "ci") || chars_eq_str(p, "chore")
        || chars_eq_str(p, "docs") || chars_eq_str(p, "feat") || chars_eq_str(p, "fix")
        || chars_eq_str(p, "perf") || chars_eq_str(p, "refactor") || chars_eq_str(p, "revert")
        || chars_eq_str(p, "style") || chars_eq_str(p, "test")
}

/// The bump contributed by one walked commit: a missing message counts as a
/// classification error and contributes `None`.
pub open spec fn spec_commit_bump(m: Option<Seq<char>>) -> BumpType {
    match m {
        Some(s) => spec_classify(s),
        None => BumpType::NoBump,
    }
}

/// The maximal bump over a sequence of optional messages; `None` for an empty
/// sequence.
pub open spec fn spec_max_bump(ms: Seq<Option<Seq<char>>>) -> BumpType
    decreases ms.len(),
{
    if ms.len() == 0 {
        BumpType::NoBump
    } else {
        spec_bump_max(spec_max_bump(ms.drop_last()), spec_commit_bump(ms.last()))
    }
}

/// The message sequence of a sequence of walked commits.
pub open spec fn spec_messages_of(cs: Seq<crate::repo::CommitView>) -> Seq<Option<Seq<char>>> {
    cs.map_values(|c: crate::repo::CommitView| c.message)
}

/// Whether one walked commit triggers an observation: it has a message and that
/// message is non-conventional.
pub open spec fn spec_commit_observed(c: crate::repo::CommitView) -> bool {
    match c.message {
        Some(m) => spec_is_observed(m),
        None => false,
    }
}

/// The first lines a walked history contributes to the observation list: one per
/// non-conventional message, in walk order.
pub open spec fn spec_observations(cs: Seq<crate::repo::CommitView>) -> Seq<Seq<char>>
    decreases cs.len(),
{
    if cs.len() == 0 {
        Seq::empty()
    } else {
        let rest = spec_observations(cs.drop_last());
        match cs.last().message {
            Some(m) => if spec_is_observed(m) {
                rest.push(spec_first_line(m))
            } else {
                rest
            },
            None => rest,
        }
    }
}

/// Classify every commit message and reduce to the single maximal bump; `None`
/// for an empty sequence. Classification errors are non-fatal: a missing message
/// or a non-conventional one contributes `None`, and the first line of every
/// non-conventional message — exactly those — is appended to `errors_found`.
pub fn max_bump(commits: &Vec<CommitInfo>, errors_found: &mut Vec<ParseError>) -> (r: BumpType)
    ensures
        r == spec_max_bump(spec_messages_of(commits@.map_values(|c: CommitInfo| c@))),
        observed_lines(final(errors_found)@) == observed_lines(old(errors_found)@)
            + spec_observations(commits@.map_values(|c: CommitInfo| c@)),
{
    let ghost cs = commits@.map_values(|c: CommitInfo| c@);
    let ghost all = spec_messages_of(cs);
    let ghost base = observed_lines(errors_found@);
    let mut acc = BumpType::NoBump;
    let mut i: usize = 0;
    proof {
        assert(base + spec_observations(cs.subrange(0, 0)) =~= base);
    }
    while i < commits.len()
        invariant
            i <= commits@.len(),
            cs == commits@.map_values(|c: CommitInfo| c@),
            all == spec_messages_of(cs),
            all.len() == commits@.len(),
            cs.len() == commits@.len(),
            acc == spec_max_bump(all.subrange(0, i as int)),
            observed_lines(errors_found@) == base + spec_observations(cs.subrange(0, i as int)),
        decreases commits@.len() - i,
    {
        let b = match &commits[i].message {
            Some(m) => BumpType::parse_commit_msg_observing(m.as_str(), errors_found),
            None => BumpType::NoBump,
        };
        proof {
            assert(all.subrange(0, i + 1).drop_last() =~= all.subrange(0, i as int));
            assert(all.subrange(0, i + 1).last() == all[i as int]);
            assert(cs.subrange(0, i + 1).drop_last() =~= cs.subrange(0, i as int));
            assert(cs.subrange(0, i + 1).last() == cs[i as int]);
            assert(observed_lines(errors_found@) =~= base + spec_observations(
                cs.subrange(0, i + 1),
            ));
        }
        acc = acc.max(b);
        i = i + 1;
    }
    proof {
        assert(all.subrange(0, all.len() as int) =~= all);
        assert(cs.subrange(0, cs.len() as int) =~= cs);
    }
    acc
}

/// A walked history contributes a non-empty observation list exactly when some
/// commit of it carries a non-conventional message; with the strict gate, such a
/// history — and only such — turns into the single fatal strict-mode error at
/// the end of the run.
pub proof fn lemma_observations_iff_nonconventional(cs: Seq<crate::repo::CommitView>)
    ensures
        spec_observations(cs).len() > 0 <==> exists|i: int|
            0 <= i < cs.len() && spec_commit_observed(#[trigger] cs[i]),
    decreases cs.len(),
{
    if cs.len() == 0 {
    } else {
        let rest = cs.drop_last();
        lemma_observations_iff_nonconventional(rest);
        if spec_commit_observed(cs.last()) {
            assert(cs[cs.len() - 1] == cs.last());
        } else {
            if spec_observations(rest).len() > 0 {
                let i = choose|i: int| 0 <= i < rest.len() && spec_commit_observed(#[trigger] rest[i]);
                assert(cs[i] == rest[i]);
            }
            if exists|i: int| 0 <= i < cs.len() && spec_commit_observed(#[trigger] cs[i]) {
                let i = choose|i: int| 0 <= i < cs.len() && spec_commit_observed(#[trigger] cs[i]);
                assert(i < rest.len());
                assert(rest[i] == cs[i]);
            }
        }
    }
}

/// A change-log entry.
///
/// Can be created from a walked commit.
pub struct LogEntry {
    pub scope: Option<String>,
    pub description: String,
    pub commit: CommitInfo,
}

/// The mathematical shape of a change-log entry.
pub struct LogEntryView {
    pub scope: Option<Seq<char>>,
    pub description: Seq<char>,
    pub commit: crate::repo::CommitView,
}

impl View for LogEntry {
    type V = LogEntryView;

    open spec fn view(&self) -> LogEntryView {
        LogEntryView {
            scope: match self.scope {
                Some(s) => Some(s@),
                None => None,
            },
            description: self.description@,
            commit: self.commit@,
        }
    }
}

/// The description a message yields: the trimmed text after the first colon of
/// its first line.
pub open spec fn spec_description_of(m: Seq<char>) -> Seq<char> {
    spec_trim(spec_rest_after_colon(spec_first_line(m)))
}

/// The scope a message yields: the text between the parentheses of its prefix.
pub open spec fn spec_scope_of(m: Seq<char>) -> Option<Seq<char>> {
    spec_extract_scope(spec_prefix(spec_first_line(m)))
}

impl LogEntry {
    /// The entry for one walked commit: its trimmed post-colon description and its
    /// scope. A commit without a message, or with an empty description, yields the
    /// corresponding (non-fatal) error instead.
    pub fn try_from_commit(commit: &CommitInfo) -> (r: Result<LogEntry, CoreError>)
        ensures
            match commit@.message {
                None => r matches Err(e) && e matches CoreError::MissingCommitMessage { id }
                    && id@ == commit@.id,
                Some(m) => {
                    if spec_description_of(m).len() == 0 {
                        r matches Err(e) && e matches CoreError::EmptyDescription { id } && id@
                            == commit@.id
                    } else {
                        r matches Ok(entry) && entry@.scope == spec_scope_of(m)
                            && entry@.description == spec_description_of(m) && entry@.commit
                            == commit@
                    }
                },
            },
    {
        let msg = match &commit.message {
            None => {
                return Err(CoreError::MissingCommitMessage { id: commit.id.clone() });
            },
            Some(m) => m,
        };
        let v = chars_of(msg.as_str());
        let line_end = find_line_end(&v);
        let line = sub_chars(&v, 0, line_end);
        let prefix = prefix_chars(&line);
        let rest = rest_after_colon_chars(&line);
        let description = trim_chars(&rest);
        if description.len() == 0 {
            return Err(CoreError::EmptyDescription { id: commit.id.clone() });
        }
        let scope = match scope_chars(&prefix) {
            Some(sc) => Some(string_from_chars(&sc)),
            None => None,
        };
        Ok(LogEntry {
            scope,
            description: string_from_chars(&description),
            commit: clone_commit(commit),
        })
    }
}

/// The reduction of two bumps to the more severe one is associative.
pub proof fn lemma_bump_max_assoc(a: BumpType, b: BumpType, c: BumpType)
    ensures
        spec_bump_max(spec_bump_max(a, b), c) == spec_bump_max(a, spec_bump_max(b, c)),
{
}

/// The reduction of two bumps to the more severe one is commutative.
pub proof fn lemma_bump_max_comm(a: BumpType, b: BumpType)
    ensures
        spec_bump_max(a, b) == spec_bump_max(b, a),
{
}

/// `NoBump`, the value of the empty reduction, is its identity element.
pub proof fn lemma_bump_max_identity(a: BumpType)
    ensures
        spec_bump_max(a, BumpType::NoBump) == a,
        spec_bump_max(BumpType::NoBump, a) == a,
{
}

/// A message holding a line that starts with `BREAKING CHANGE` — other than its
/// very first line — classifies as `Major`, regardless of its prefix. (On the
/// first line no newline precedes the marker, and the rule does not apply.)
pub proof fn lemma_breaking_line_is_major(msg: Seq<char>, i: int)
    requires
        1 <= i,
        i + 15 <= msg.len(),
        msg[i - 1] == '\n',
        msg.subrange(i, i + 15) == "BREAKING CHANGE"@,
    ensures
        spec_classify(msg) == BumpType::Major,
{
    reveal_strlit("BREAKING CHANGE");
    reveal_strlit("\nBREAKING CHANGE");
    let m = breaking_marker();
    assert(m =~= seq!['\n'] + "BREAKING CHANGE"@);
    assert(msg.subrange(i - 1, i - 1 + m.len() as int) =~= seq!['\n'] + "BREAKING CHANGE"@);
    assert(contains_seq(msg, m));
}

/// When the caller's policy is strict, any accumulated non-conventional messages
/// turn into a single fatal error at the end of the run.
pub fn strict_check(strict: bool, errors_found: &Vec<ParseError>) -> (r: Result<(), CoreError>)
    ensures
        r is Ok <==> (!strict || errors_found@.len() == 0),
        r matches Err(e) ==> e matches CoreError::NonConventionalCommits { count } && count
            == errors_found@.len(),
{
    if strict && errors_found.len() > 0 {
        Err(CoreError::NonConventionalCommits { count: errors_found.len() })
    } else {
        Ok(())
    }
}

} // verus!
