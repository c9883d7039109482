//! Aggregating walked commits into a changelog: bucketing by bump category,
//! dated and versioned, ready for rendering.

use vstd::prelude::*;
use vstd::string::StringExecFns;

use crate::bumping::{
    spec_classify, spec_description_of, spec_scope_of, BumpType, LogEntry, LogEntryView,
};
use crate::errors::CoreError;
use crate::repo::{CommitInfo, CommitView};
use crate::text::{chars_eq_str, chars_of};
use crate::version::{spec_dec, spec_zero_pad, padded_dec};

verus! {

/// A calendar date.
pub struct Date {
    pub year: i64,
    pub month: u64,
    pub day: u64,
}

/// The month and the day are a valid calendar month and day.
pub open spec fn date_wf(d: Date) -> bool {
    1 <= d.month <= 12 && 1 <= d.day <= 31
}

/// Relies on chrono's `Local::now` (with `NaiveDate` and `Datelike`): the current
/// local calendar date. The month and day of any date chrono hands out are a valid
/// month number (1 to 12) and day number (1 to 31).
#[verifier::external_body]
fn today_ymd() -> (r: (i64, u64, u64))
    ensures
        1 <= r.1 <= 12,
        1 <= r.2 <= 31,
{
    let d = chrono::Local::now().date_naive();
    (
        chrono::Datelike::year(&d) as i64,
        chrono::Datelike::month(&d) as u64,
        chrono::Datelike::day(&d) as u64,
    )
}

/// The magnitude of the year.
pub open spec fn spec_abs_year(y: i64) -> int {
    if y >= 0 {
        y as int
    } else {
        -(y as int)
    }
}

/// The date in ISO shape: a zero-padded four-digit year (with a sign when the
/// year is negative), then two-digit month and day.
pub open spec fn spec_date_string(d: Date) -> Seq<char> {
    (if d.year < 0 {
        seq!['-']
    } else {
        Seq::empty()
    }) + spec_zero_pad(spec_dec(spec_abs_year(d.year)), 4) + seq!['-'] + spec_zero_pad(
        spec_dec(d.month as int),
        2,
    ) + seq!['-'] + spec_zero_pad(spec_dec(d.day as int), 2)
}

impl Date {
    /// Today, by the local clock.
    pub fn today() -> (r: Date)
        ensures
            date_wf(r),
    {
        let (year, month, day) = today_ymd();
        Date { year, month, day }
    }

    /// The date as `YYYY-MM-DD`.
    pub fn date_string(&self) -> (r: String)
        ensures
            r@ == spec_date_string(*self),
    {
        let mut v: Vec<char> = Vec::new();
        let ay: u64 = if self.year < 0 {
            ((-(self.year + 1)) as u64) + 1
        } else {
            self.year as u64
        };
        if self.year < 0 {
            v.push('-');
        }
        let mut y = padded_dec(ay, 4);
        v.append(&mut y);
        v.push('-');
        let mut m = padded_dec(self.month, 2);
        v.append(&mut m);
        v.push('-');
        let mut d = padded_dec(self.day, 2);
        v.append(&mut d);
        proof {
            assert(v@ =~= spec_date_string(*self));
        }
        crate::text::string_from_chars(&v)
    }
}

/// Identifies the template for changelog generation.
pub enum TemplateType {
    /// A user-provided template file, by its path.
    File(String),
    /// One of the built-in templates, by its id.
    Internal(String),
}

impl TemplateType {
    /// A template file wins over a built-in template id.
    pub fn from_cli(template_file: Option<String>, template_id: String) -> (r: Self)
        ensures
            match template_file {
                Some(p) => r matches TemplateType::File(f) && f == p,
                None => r matches TemplateType::Internal(i) && i == template_id,
            },
    {
        if let Some(path) = template_file {
            TemplateType::File(path)
        } else {
            TemplateType::Internal(template_id)
        }
    }

    /// The built-in template text this selection names: `Ok(Some(text))` for a known
    /// built-in id, an error for an unknown one, and `Ok(None)` for a template file,
    /// which the caller must read itself.
    pub fn builtin_text(&self) -> (r: Result<Option<&'static str>, CoreError>)
        ensures
            match self {
                TemplateType::File(_) => r matches Ok(t) && t is None,
                TemplateType::Internal(id) => {
                    if spec_is_builtin_id(id@) {
                        r matches Ok(t) && t matches Some(text) && text@ == spec_builtin_text(
                            id@,
                        )
                    } else {
                        r matches Err(e) && e matches CoreError::UnknownTemplate { id: bad } && bad@
                            == id@
                    }
                },
            },
    {
        match self {
            TemplateType::File(_) => Ok(None),
            TemplateType::Internal(id) => match builtin_template(id.as_str()) {
                Some(text) => Ok(Some(text)),
                None => Err(CoreError::UnknownTemplate { id: id.clone() }),
            },
        }
    }
}

/// The built-in Markdown template.
pub const DEFAULT_TEMPLATE_MD: &'static str = "# Version {{version}} ({{date}})\n\n{% if breaking %}## Breaking changes\n\n{% for entry in breaking %}* {% if entry.scope %}**{{entry.scope}}:** {% endif %}{{entry.description}} ({{entry.commit}})\n{% endfor %}\n{% endif %}{% if features %}## New features\n\n{% for entry in features %}* {% if entry.scope %}**{{entry.scope}}:** {% endif %}{{entry.description}} ({{entry.commit}})\n{% endfor %}\n{% endif %}{% if fixes %}## Fixes\n\n{% for entry in fixes %}* {% if entry.scope %}**{{entry.scope}}:** {% endif %}{{entry.description}} ({{entry.commit}})\n{% endfor %}\n{% endif %}{% if other %}## Other changes\n\n{% for entry in other %}* {% if entry.scope %}**{{entry.scope}}:** {% endif %}{{entry.description}} ({{entry.commit}})\n{% endfor %}\n{% endif %}";

/// The built-in HTML template.
pub const DEFAULT_TEMPLATE_HTML: &'static str = "<h1>Version {{version}} ({{date}})</h1>\n{% if breaking %}<h2>Breaking changes</h2>\n<ul>\n{% for entry in breaking %}<li>{% if entry.scope %}<b>{{entry.scope}}:</b> {% endif %}{{entry.description}} ({{entry.commit}})</li>\n{% endfor %}</ul>\n{% endif %}{% if features %}<h2>New features</h2>\n<ul>\n{% for entry in features %}<li>{% if entry.scope %}<b>{{entry.scope}}:</b> {% endif %}{{entry.description}} ({{entry.commit}})</li>\n{% endfor %}</ul>\n{% endif %}{% if fixes %}<h2>Fixes</h2>\n<ul>\n{% for entry in fixes %}<li>{% if entry.scope %}<b>{{entry.scope}}:</b> {% endif %}{{entry.description}} ({{entry.commit}})</li>\n{% endfor %}</ul>\n{% endif %}{% if other %}<h2>Other changes</h2>\n<ul>\n{% for entry in other %}<li>{% if entry.scope %}<b>{{entry.scope}}:</b> {% endif %}{{entry.description}} ({{entry.commit}})</li>\n{% endfor %}</ul>\n{% endif %}";

/// The ids the built-in registry knows.
pub open spec fn spec_is_builtin_id(id: Seq<char>) -> bool {
    id == "default.md"@ || id == "default.html"@
}

/// The text registered under a built-in id.
pub open spec fn spec_builtin_text(id: Seq<char>) -> Seq<char> {
    if id == "default.md"@ {
        DEFAULT_TEMPLATE_MD@
    } else {
        DEFAULT_TEMPLATE_HTML@
    }
}

/// The immutable registry of built-in templates: the text under `id`, or `None`
/// for an unknown id.
pub fn builtin_template(id: &str) -> (r: Option<&'static str>)
    ensures
        match r {
            Some(t) => spec_is_builtin_id(id@) && t@ == spec_builtin_text(id@),
            None => !spec_is_builtin_id(id@),
        },
{
    let v = chars_of(id);
    if chars_eq_str(&v, "default.md") {
        Some(DEFAULT_TEMPLATE_MD)
    } else if chars_eq_str(&v, "default.html") {
        Some(DEFAULT_TEMPLATE_HTML)
    } else {
        None
    }
}

/// Whether a walked commit yields a changelog entry: it must have a message whose
/// post-colon description, trimmed, is non-empty.
pub open spec fn spec_entry_ok(c: CommitView) -> bool {
    match c.message {
        Some(m) => spec_description_of(m).len() > 0,
        None => false,
    }
}

/// The entry a walked commit yields.
pub open spec fn spec_entry_of(c: CommitView) -> LogEntryView {
    match c.message {
        Some(m) => LogEntryView {
            scope: spec_scope_of(m),
            description: spec_description_of(m),
            commit: c,
        },
        None => LogEntryView { scope: None, description: Seq::empty(), commit: c },
    }
}

/// The bump category a walked commit falls in.
pub open spec fn spec_commit_category(c: CommitView) -> BumpType {
    match c.message {
        Some(m) => spec_classify(m),
        None => BumpType::NoBump,
    }
}

/// The entries of bucket `b`, in walker emission order: the entry of every commit
/// that yields one and whose category is `b`.
pub open spec fn spec_bucket(cs: Seq<CommitView>, b: BumpType) -> Seq<LogEntryView>
    decreases cs.len(),
{
    if cs.len() == 0 {
        Seq::empty()
    } else {
        let rest = spec_bucket(cs.drop_last(), b);
        let c = cs.last();
        if spec_entry_ok(c) && spec_commit_category(c) == b {
            rest.push(spec_entry_of(c))
        } else {
            rest
        }
    }
}

/// The commits that yield no changelog entry, in walk order.
pub open spec fn spec_skipped(cs: Seq<CommitView>) -> Seq<CommitView>
    decreases cs.len(),
{
    if cs.len() == 0 {
        Seq::empty()
    } else {
        let rest = spec_skipped(cs.drop_last());
        if !spec_entry_ok(cs.last()) {
            rest.push(cs.last())
        } else {
            rest
        }
    }
}

/// The error reported for one skipped commit: its message was missing, or its
/// description empty.
pub open spec fn spec_skip_matches(e: CoreError, c: CommitView) -> bool {
    match c.message {
        None => e matches CoreError::MissingCommitMessage { id } && id@ == c.id,
        Some(_) => e matches CoreError::EmptyDescription { id } && id@ == c.id,
    }
}

/// Contains all data needed to write the changelog.
pub struct ChangeLog {
    pub version: String,
    pub date: Date,
    pub fixes: Vec<LogEntry>,
    pub features: Vec<LogEntry>,
    pub breaking: Vec<LogEntry>,
    pub other: Vec<LogEntry>,
}

/// The entry views of a bucket.
pub open spec fn entries_view(v: Seq<LogEntry>) -> Seq<LogEntryView> {
    v.map_values(|e: LogEntry| e@)
}

impl Default for ChangeLog {
    /// An empty changelog for version `0.0.0`, dated today.
    fn default() -> (r: ChangeLog)
        ensures
            r.version@ == "0.0.0"@,
            date_wf(r.date),
            r.fixes@.len() == 0,
            r.features@.len() == 0,
            r.breaking@.len() == 0,
            r.other@.len() == 0,
    {
        ChangeLog::empty()
    }
}

impl ChangeLog {
    /// An empty changelog for version `0.0.0`, dated today.
    pub fn empty() -> (r: ChangeLog)
        ensures
            r.version@ == "0.0.0"@,
            date_wf(r.date),
            r.fixes@.len() == 0,
            r.features@.len() == 0,
            r.breaking@.len() == 0,
            r.other@.len() == 0,
    {
        ChangeLog {
            version: String::from_str("0.0.0"),
            date: Date::today(),
            fixes: Vec::new(),
            features: Vec::new(),
            breaking: Vec::new(),
            other: Vec::new(),
        }
    }

    /// Consume the walked commits, bucketing each parseable one by the bump it
    /// implies: fixes for `Patch`, features for `Minor`, breaking for `Major`,
    /// everything else in `other`. Commits without a usable entry (no message, or
    /// an empty description) are skipped. Buckets keep the walker's order.
    pub fn new(commits: &Vec<CommitInfo>) -> (r: ChangeLog)
        ensures
            r.version@ == "0.0.0"@,
            date_wf(r.date),
            entries_view(r.fixes@) == spec_bucket(
                commits@.map_values(|c: CommitInfo| c@),
                BumpType::Patch,
            ),
            entries_view(r.features@) == spec_bucket(
                commits@.map_values(|c: CommitInfo| c@),
                BumpType::Minor,
            ),
            entries_view(r.breaking@) == spec_bucket(
                commits@.map_values(|c: CommitInfo| c@),
                BumpType::Major,
            ),
            entries_view(r.other@) == spec_bucket(
                commits@.map_values(|c: CommitInfo| c@),
                BumpType::NoBump,
            ),
    {
        let mut skipped: Vec<CoreError> = Vec::new();
        ChangeLog::new_reporting(commits, &mut skipped)
    }

    /// As [`ChangeLog::new`], and besides the buckets it reports each skipped
    /// commit: one non-fatal error per commit without a usable entry — a missing
    /// message or an empty description, naming the commit — appended to
    /// `skipped` in walk order.
    pub fn new_reporting(commits: &Vec<CommitInfo>, skipped: &mut Vec<CoreError>) -> (r:
        ChangeLog)
        ensures
            r.version@ == "0.0.0"@,
            date_wf(r.date),
            entries_view(r.fixes@) == spec_bucket(
                commits@.map_values(|c: CommitInfo| c@),
                BumpType::Patch,
            ),
            entries_view(r.features@) == spec_bucket(
                commits@.map_values(|c: CommitInfo| c@),
                BumpType::Minor,
            ),
            entries_view(r.breaking@) == spec_bucket(
                commits@.map_values(|c: CommitInfo| c@),
                BumpType::Major,
            ),
            entries_view(r.other@) == spec_bucket(
                commits@.map_values(|c: CommitInfo| c@),
                BumpType::NoBump,
            ),
            final(skipped)@.len() == old(skipped)@.len() + spec_skipped(
                commits@.map_values(|c: CommitInfo| c@),
            ).len(),
            forall|k: int|
                0 <= k < old(skipped)@.len() ==> final(skipped)@[k] == old(skipped)@[k],
            forall|k: int|
                0 <= k < spec_skipped(commits@.map_values(|c: CommitInfo| c@)).len()
                    ==> spec_skip_matches(
                    #[trigger] final(skipped)@[old(skipped)@.len() + k],
                    spec_skipped(commits@.map_values(|c: CommitInfo| c@))[k],
                ),
    {
        let ghost cs = commits@.map_values(|c: CommitInfo| c@);
        let ghost base = skipped@;
        let mut result = ChangeLog::empty();
        let mut i: usize = 0;
        proof {
            assert(cs.subrange(0, 0) =~= Seq::<CommitView>::empty());
        }
        while i < commits.len()
            invariant
                i <= commits@.len(),
                cs == commits@.map_values(|c: CommitInfo| c@),
                cs.len() == commits@.len(),
                result.version@ == "0.0.0"@,
                date_wf(result.date),
                entries_view(result.fixes@) == spec_bucket(
                    cs.subrange(0, i as int),
                    BumpType::Patch,
                ),
                entries_view(result.features@) == spec_bucket(
                    cs.subrange(0, i as int),
                    BumpType::Minor,
                ),
                entries_view(result.breaking@) == spec_bucket(
                    cs.subrange(0, i as int),
                    BumpType::Major,
                ),
                entries_view(result.other@) == spec_bucket(
                    cs.subrange(0, i as int),
                    BumpType::NoBump,
                ),
                skipped@.len() == base.len() + spec_skipped(cs.subrange(0, i as int)).len(),
                forall|k: int| 0 <= k < base.len() ==> skipped@[k] == base[k],
                forall|k: int|
                    0 <= k < spec_skipped(cs.subrange(0, i as int)).len() ==> spec_skip_matches(
                        #[trigger] skipped@[base.len() + k],
                        spec_skipped(cs.subrange(0, i as int))[k],
                    ),
            decreases commits@.len() - i,
        {
            let c = &commits[i];
            let bump = match &c.message {
                Some(m) => BumpType::parse_commit_msg(m.as_str()),
                None => BumpType::NoBump,
            };
            let entry = LogEntry::try_from_commit(c);
            proof {
                assert(cs.subrange(0, i + 1).drop_last() =~= cs.subrange(0, i as int));
                assert(cs.subrange(0, i + 1).last() == cs[i as int]);
            }
            match entry {
                Ok(e) => {
                    let ghost old_fixes = result.fixes@;
                    let ghost old_features = result.features@;
                    let ghost old_breaking = result.breaking@;
                    let ghost old_other = result.other@;
                    match bump {
                        BumpType::Patch => result.fixes.push(e),
                        BumpType::Minor => result.features.push(e),
                        BumpType::Major => result.breaking.push(e),
                        BumpType::NoBump => result.other.push(e),
                    }
                    proof {
                        assert(entries_view(result.fixes@) =~= if bump == BumpType::Patch {
                            entries_view(old_fixes).push(spec_entry_of(cs[i as int]))
                        } else {
                            entries_view(old_fixes)
                        });
                        assert(entries_view(result.features@) =~= if bump == BumpType::Minor {
                            entries_view(old_features).push(spec_entry_of(cs[i as int]))
                        } else {
                            entries_view(old_features)
                        });
                        assert(entries_view(result.breaking@) =~= if bump == BumpType::Major {
                            entries_view(old_breaking).push(spec_entry_of(cs[i as int]))
                        } else {
                            entries_view(old_breaking)
                        });
                        assert(entries_view(result.other@) =~= if bump == BumpType::NoBump {
                            entries_view(old_other).push(spec_entry_of(cs[i as int]))
                        } else {
                            entries_view(old_other)
                        });
                    }
                },
                Err(e) => {
                    skipped.push(e);
                    proof {
                        assert(!spec_entry_ok(cs[i as int]));
                        assert(spec_skip_matches(skipped@.last(), cs[i as int]));
                    }
                },
            }
            i = i + 1;
        }
        proof {
            assert(cs.subrange(0, cs.len() as int) =~= cs);
        }
        result
    }
}

} // verus!
