//! Turning an aggregated changelog into text through the template engine, and
//! merging it with what a changelog file already holds.
//!
//! The engine's context is modelled by name: `ctx_bindings` gives the string and
//! entry-list bindings a context holds, the wrappers state how each call changes
//! them, and `spec_render` names the engine's output for a template, those
//! bindings, and the autoescape flag. In the vendored engine, built as this
//! crate requests it, a one-off render is a function of exactly these: it runs
//! on a fresh default instance whose only built-in functions are `range` and
//! `throw`, no clock, environment or randomness reaches a template, and — with
//! the `preserve_order` feature this crate turns on — every map a template can
//! iterate is insertion-ordered, so even key-iteration order is determined by
//! the bindings.

use std::collections::BTreeMap;

use vstd::prelude::*;
use vstd::string::StrSliceExecFns;
use vstd::string::StringSliceAdditionalSpecFns;

use crate::bumping::{LogEntry, LogEntryView};
use crate::changelog::{entries_view, spec_date_string, ChangeLog};
use crate::errors::CoreError;
use crate::text::{chars_of, ends_with_str};

verus! {

#[verifier::external_type_specification]
#[verifier::external_body]
pub struct ExContext(tera::Context);

#[verifier::external_type_specification]
#[verifier::external_body]
pub struct ExTeraError(tera::Error);

#[verifier::external_type_specification]
#[verifier::external_body]
pub struct ExValue(tera::Value);

/// The row an entry value binds, as (scope, description, commit id).
pub uninterp spec fn spec_row_of(v: tera::Value) -> (Option<Seq<char>>, Seq<char>, Seq<char>);

/// The bindings a render context holds, where they are only strings and lists of
/// entry rows — the only contexts this module builds: `Some((strings, lists))`,
/// each a map from binding name to bound value.
pub uninterp spec fn ctx_bindings(c: tera::Context) -> Option<
    (Map<Seq<char>, Seq<char>>, Map<Seq<char>, Seq<(Option<Seq<char>>, Seq<char>, Seq<char>)>>),
>;

/// What the engine renders for a template, string and entry-list bindings, and
/// the autoescape flag — `None` when it refuses; a function of these alone.
pub uninterp spec fn spec_render(
    template: Seq<char>,
    strings: Map<Seq<char>, Seq<char>>,
    lists: Map<Seq<char>, Seq<(Option<Seq<char>>, Seq<char>, Seq<char>)>>,
    autoescape: bool,
) -> Option<Seq<char>>;

/// Relies on tera's value construction (`Value::from` over a `BTreeMap`, a
/// string, and null): one row object binding "scope" (null when absent),
/// "description" and "commit" to the given values.
#[verifier::external_body]
fn row_value(scope: &Option<String>, description: &str, commit: &str) -> (r: tera::Value)
    ensures
        spec_row_of(r) == (
            match *scope {
                Some(s) => Some(s@),
                None => None,
            },
            description@,
            commit@,
        ),
{
    let mut row: BTreeMap<String, tera::Value> = BTreeMap::new();
    let scope_value = match scope {
        Some(s) => tera::Value::from(s.as_str()),
        None => tera::Value::from(()),
    };
    row.insert("scope".to_owned(), scope_value);
    row.insert("description".to_owned(), tera::Value::from(description));
    row.insert("commit".to_owned(), tera::Value::from(commit));
    tera::Value::from(row)
}

/// Relies on tera's `Context::new`: a fresh context with no bindings.
#[verifier::external_body]
fn ctx_new() -> (r: tera::Context)
    ensures
        ctx_bindings(r) == Some(
            (
                Map::<Seq<char>, Seq<char>>::empty(),
                Map::<Seq<char>, Seq<(Option<Seq<char>>, Seq<char>, Seq<char>)>>::empty(),
            ),
        ),
{
    tera::Context::new()
}

/// Relies on tera's `Context::insert`: binds `key` to the string `value`,
/// replacing whatever `key` was bound to.
#[verifier::external_body]
fn ctx_insert_str(ctx: &mut tera::Context, key: &str, value: &str)
    ensures
        ctx_bindings(*old(ctx)) matches Some(b) ==> (ctx_bindings(*final(ctx)) matches Some(nb)
            && nb.0 == b.0.insert(key@, value@) && nb.1 == b.1.remove(key@)),
{
    ctx.insert(key.to_owned(), value);
}

/// Relies on tera's `Context::insert_value` and `Value::from` over a vector:
/// binds `key` to the list of the given entry rows, replacing whatever `key`
/// was bound to.
#[verifier::external_body]
fn ctx_insert_rows(ctx: &mut tera::Context, key: &str, rows: Vec<tera::Value>)
    ensures
        ctx_bindings(*old(ctx)) matches Some(b) ==> (ctx_bindings(*final(ctx)) matches Some(nb)
            && nb.1 == b.1.insert(key@, rows@.map_values(|v: tera::Value| spec_row_of(v)))
            && nb.0 == b.0.remove(key@)),
{
    ctx.insert_value(key.to_owned(), tera::Value::from(rows));
}

/// Relies on tera's `Tera::one_off`: renders `input` against the context's
/// bindings on a fresh default engine, HTML-escaping interpolated values when
/// `autoescape` is set; with insertion-ordered maps (`preserve_order`) the
/// outcome is deterministic in (template, bindings, flag).
#[verifier::external_body]
fn render_one_off(input: &str, ctx: &tera::Context, autoescape: bool) -> (r: Result<
    String,
    tera::Error,
>)
    ensures
        ctx_bindings(*ctx) matches Some(b) ==> match r {
            Ok(text) => spec_render(input@, b.0, b.1, autoescape) == Some(text@),
            Err(_) => spec_render(input@, b.0, b.1, autoescape) is None,
        },
{
    tera::Tera::one_off(input, ctx, autoescape)
}

/// The printable description a render error carries: a function of the error
/// value alone.
pub uninterp spec fn spec_tera_error_text(e: tera::Error) -> Seq<char>;

/// Relies on the `Display` impl of tera's error type: its printable description.
#[verifier::external_body]
fn tera_error_message(e: &tera::Error) -> (r: String)
    ensures
        r@ == spec_tera_error_text(*e),
{
    e.to_string()
}

/// The template names whose rendered values are HTML-escaped, as the engine's
/// default autoescape policy has it.
pub open spec fn spec_autoescape(name: Seq<char>) -> bool {
    ".html"@.is_suffix_of(name) || ".htm"@.is_suffix_of(name) || ".xml"@.is_suffix_of(name)
}

pub fn should_autoescape(name: &str) -> (r: bool)
    ensures
        r == spec_autoescape(name@),
{
    let v = chars_of(name);
    ends_with_str(&v, ".html") || ends_with_str(&v, ".htm") || ends_with_str(&v, ".xml")
}

/// The row one changelog entry contributes: its scope, description, and
/// originating commit's id.
pub open spec fn spec_row_of_entry(e: LogEntryView) -> (Option<Seq<char>>, Seq<char>, Seq<char>) {
    (e.scope, e.description, e.commit.id)
}

/// The rows of a whole bucket, in order.
pub open spec fn spec_rows_of(entries: Seq<LogEntryView>) -> Seq<
    (Option<Seq<char>>, Seq<char>, Seq<char>),
> {
    entries.map_values(|e: LogEntryView| spec_row_of_entry(e))
}

/// The entry values of a bucket: one row object per entry, in order.
fn entry_values(entries: &Vec<LogEntry>) -> (r: Vec<tera::Value>)
    ensures
        r@.map_values(|v: tera::Value| spec_row_of(v)) == spec_rows_of(entries_view(entries@)),
{
    let mut r: Vec<tera::Value> = Vec::new();
    let mut i: usize = 0;
    while i < entries.len()
        invariant
            i <= entries@.len(),
            r@.len() == i,
            forall|j: int|
                0 <= j < i ==> spec_row_of(#[trigger] r@[j]) == spec_row_of_entry(
                    entries@[j]@,
                ),
        decreases entries@.len() - i,
    {
        let e = &entries[i];
        r.push(row_value(&e.scope, e.description.as_str(), e.commit.id.as_str()));
        i = i + 1;
    }
    proof {
        assert forall|j: int| 0 <= j < r@.len() implies r@.map_values(
            |v: tera::Value| spec_row_of(v),
        )[j] == spec_rows_of(entries_view(entries@))[j] by {
            assert(entries_view(entries@)[j] == entries@[j]@);
            assert(spec_row_of(r@[j]) == spec_row_of_entry(entries@[j]@));
        }
        assert(r@.map_values(|v: tera::Value| spec_row_of(v)) =~= spec_rows_of(
            entries_view(entries@),
        ));
    }
    r
}

/// The string bindings every render of a changelog sees: its version and its
/// date, as strings.
pub open spec fn changelog_strings(c: ChangeLog) -> Map<Seq<char>, Seq<char>> {
    Map::empty().insert("version"@, c.version@).insert("date"@, spec_date_string(c.date))
}

/// The entry-list bindings every render of a changelog sees: the four buckets,
/// each a list of (scope, description, commit id) rows.
pub open spec fn changelog_lists(c: ChangeLog) -> Map<
    Seq<char>,
    Seq<(Option<Seq<char>>, Seq<char>, Seq<char>)>,
> {
    Map::empty().insert("fixes"@, spec_rows_of(entries_view(c.fixes@))).insert(
        "features"@,
        spec_rows_of(entries_view(c.features@)),
    ).insert("breaking"@, spec_rows_of(entries_view(c.breaking@))).insert(
        "other"@,
        spec_rows_of(entries_view(c.other@)),
    )
}

impl ChangeLog {
    /// The context every render sees: exactly the version and date strings and
    /// the four entry buckets.
    fn build_context(&self) -> (r: tera::Context)
        ensures
            ctx_bindings(r) matches Some(b) && b.0 == changelog_strings(*self) && b.1
                == changelog_lists(*self),
    {
        let mut ctx = ctx_new();
        ctx_insert_str(&mut ctx, "version", self.version.as_str());
        let date = self.date.date_string();
        ctx_insert_str(&mut ctx, "date", date.as_str());
        ctx_insert_rows(&mut ctx, "fixes", entry_values(&self.fixes));
        ctx_insert_rows(&mut ctx, "features", entry_values(&self.features));
        ctx_insert_rows(&mut ctx, "breaking", entry_values(&self.breaking));
        ctx_insert_rows(&mut ctx, "other", entry_values(&self.other));
        proof {
            reveal_strlit("version");
            reveal_strlit("date");
            reveal_strlit("fixes");
            reveal_strlit("features");
            reveal_strlit("breaking");
            reveal_strlit("other");
            assert("version"@.len() == 7 && "date"@.len() == 4);
            assert("fixes"@.len() == 5 && "features"@.len() == 8);
            assert("breaking"@.len() == 8 && "other"@.len() == 5);
            let b = ctx_bindings(ctx).unwrap();
            assert(b.0 =~= changelog_strings(*self));
            assert(b.1 =~= changelog_lists(*self));
        }
        ctx
    }

    /// Render the changelog through the given template text: the engine's output
    /// for that template over exactly the changelog's bindings (version, date and
    /// the four buckets), or a fatal render error carrying the engine's
    /// description when — and only when — the engine refuses that input. Values
    /// are HTML-escaped for templates whose name ends in a markup suffix.
    pub fn render_content(&self, template_name: &str, template_text: &str) -> (r: Result<
        String,
        CoreError,
    >)
        ensures
            match r {
                Ok(text) => spec_render(
                    template_text@,
                    changelog_strings(*self),
                    changelog_lists(*self),
                    spec_autoescape(template_name@),
                ) == Some(text@),
                Err(e) => e is TemplateRender && spec_render(
                    template_text@,
                    changelog_strings(*self),
                    changelog_lists(*self),
                    spec_autoescape(template_name@),
                ) is None,
            },
    {
        let ctx = self.build_context();
        let escape = should_autoescape(template_name);
        match render_one_off(template_text, &ctx, escape) {
            Ok(text) => Ok(text),
            Err(e) => Err(CoreError::TemplateRender { detail: tera_error_message(&e) }),
        }
    }

    /// Render the output path, which may itself contain placeholders resolved
    /// against the same context as the content, never HTML-escaped.
    pub fn render_path(&self, path_template: &str) -> (r: Result<String, CoreError>)
        ensures
            match r {
                Ok(path) => spec_render(
                    path_template@,
                    changelog_strings(*self),
                    changelog_lists(*self),
                    false,
                ) == Some(path@),
                Err(e) => e is TemplateRender && spec_render(
                    path_template@,
                    changelog_strings(*self),
                    changelog_lists(*self),
                    false,
                ) is None,
            },
    {
        let ctx = self.build_context();
        match render_one_off(path_template, &ctx, false) {
            Ok(path) => Ok(path),
            Err(e) => Err(CoreError::TemplateRender { detail: tera_error_message(&e) }),
        }
    }
}

/// What the changelog file will hold: the freshly rendered content, followed —
/// unless `overwrite` is set — by the file's previous bytes, so that the newest
/// entries land at the top.
pub fn merge_with_previous(rendered: &str, previous: &Vec<u8>, overwrite: bool) -> (r: Vec<u8>)
    ensures
        overwrite ==> r@ == rendered.spec_bytes(),
        !overwrite ==> r@ == rendered.spec_bytes() + previous@,
{
    let mut out = rendered.as_bytes_vec();
    if !overwrite {
        let mut i: usize = 0;
        while i < previous.len()
            invariant
                i <= previous@.len(),
                out@ == rendered.spec_bytes() + previous@.subrange(0, i as int),
            decreases previous@.len() - i,
        {
            out.push(previous[i]);
            proof {
                assert(out@ =~= rendered.spec_bytes() + previous@.subrange(0, i + 1));
            }
            i = i + 1;
        }
        proof {
            assert(out@ =~= rendered.spec_bytes() + previous@);
        }
    } else {
        proof {
            assert(out@ =~= rendered.spec_bytes());
        }
    }
    out
}

/// Rendering twice in prepend mode against the same file: the file then starts
/// with the second run's content, followed — byte for byte — by everything the
/// first run wrote.
pub proof fn lemma_prepend_round_trip(
    first_render: Seq<u8>,
    second_render: Seq<u8>,
    prior: Seq<u8>,
)
    ensures
        (second_render + (first_render + prior)).subrange(0, second_render.len() as int)
            == second_render,
        (second_render + (first_render + prior)).subrange(
            second_render.len() as int,
            (second_render + (first_render + prior)).len() as int,
        ) == first_render + prior,
{
    let whole = second_render + (first_render + prior);
    assert(whole.subrange(0, second_render.len() as int) =~= second_render);
    assert(whole.subrange(second_render.len() as int, whole.len() as int) =~= first_render
        + prior);
}

} // verus!
