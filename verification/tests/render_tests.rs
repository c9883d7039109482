//! Rendering through the template engine and merging with previous file content.

use what_bump::changelog::{ChangeLog, Date};
use what_bump::errors::CoreError;
use what_bump::render::{merge_with_previous, should_autoescape};
use what_bump::repo::CommitInfo;

fn sample_changelog() -> ChangeLog {
    let commits = vec![
        CommitInfo {
            id: "c1".to_string(),
            message: Some("fix(parser): handle tabs".to_string()),
        },
        CommitInfo { id: "c2".to_string(), message: Some("feat: faster walk".to_string()) },
    ];
    let mut log = ChangeLog::new(&commits);
    log.version = "1.2.3".to_string();
    log.date = Date { year: 2024, month: 3, day: 7 };
    log
}

#[test]
fn rendering_substitutes_the_context() {
    let log = sample_changelog();
    let text = log.render_content("t.md", "v={{version}} d={{date}}").unwrap();
    assert_eq!(text, "v=1.2.3 d=2024-03-07");
}

#[test]
fn rendering_iterates_the_buckets() {
    let log = sample_changelog();
    let text = log
        .render_content(
            "t.md",
            "{% for e in fixes %}[{{e.scope}}|{{e.description}}|{{e.commit}}]{% endfor %}{% for e in features %}<{{e.description}}>{% endfor %}",
        )
        .unwrap();
    assert_eq!(text, "[parser|handle tabs|c1]<faster walk>");
}

#[test]
fn the_output_path_is_rendered_too() {
    let log = sample_changelog();
    let path = log.render_path("CHANGELOG-{{version}}.md").unwrap();
    assert_eq!(path, "CHANGELOG-1.2.3.md");
}

#[test]
fn a_bad_template_is_a_render_error() {
    let log = sample_changelog();
    let result = log.render_content("t.md", "{% endfor %}");
    assert!(matches!(result, Err(CoreError::TemplateRender { .. })));
}

#[test]
fn markup_templates_escape_values() {
    let commits = vec![CommitInfo {
        id: "c1".to_string(),
        message: Some("fix: use <em> & friends".to_string()),
    }];
    let log = ChangeLog::new(&commits);
    let html = log
        .render_content("t.html", "{% for e in fixes %}{{e.description}}{% endfor %}")
        .unwrap();
    assert_eq!(html, "use &lt;em&gt; &amp; friends");
    let md = log
        .render_content("t.md", "{% for e in fixes %}{{e.description}}{% endfor %}")
        .unwrap();
    assert_eq!(md, "use <em> & friends");
}

#[test]
fn the_default_markdown_template_renders() {
    let log = sample_changelog();
    let text = log
        .render_content(
            "default.md",
            what_bump::changelog::DEFAULT_TEMPLATE_MD,
        )
        .unwrap();
    assert!(text.contains("# Version 1.2.3 (2024-03-07)"));
    assert!(text.contains("**parser:** handle tabs (c1)"));
    assert!(text.contains("faster walk (c2)"));
}

#[test]
fn autoescape_follows_the_template_name() {
    assert!(should_autoescape("default.html"));
    assert!(should_autoescape("page.htm"));
    assert!(should_autoescape("feed.xml"));
    assert!(!should_autoescape("default.md"));
    assert!(!should_autoescape("CHANGELOG"));
}

#[test]
fn overwrite_discards_previous_content() {
    let previous = b"old stuff".to_vec();
    let merged = merge_with_previous("new stuff\n", &previous, true);
    assert_eq!(merged, b"new stuff\n".to_vec());
}

#[test]
fn prepend_keeps_previous_content_below() {
    let previous = b"old stuff".to_vec();
    let merged = merge_with_previous("new stuff\n", &previous, false);
    assert_eq!(merged, b"new stuff\nold stuff".to_vec());
}

#[test]
fn rendering_twice_in_prepend_mode_stacks_newest_first() {
    // First run against an absent file, second against the first run's output:
    // the second file must start with the second render and end with, byte for
    // byte, everything the first run wrote.
    let log = sample_changelog();
    let first_render = log.render_content("t.md", "run one: {{version}}\n").unwrap();
    let first_file = merge_with_previous(&first_render, &Vec::new(), false);
    assert_eq!(first_file, first_render.as_bytes().to_vec());

    let second_render = log.render_content("t.md", "run two: {{version}}\n").unwrap();
    let second_file = merge_with_previous(&second_render, &first_file, false);

    assert_eq!(&second_file[..second_render.len()], second_render.as_bytes());
    assert_eq!(&second_file[second_render.len()..], &first_file[..]);
}
