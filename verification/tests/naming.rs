use emdash::naming::{extract_template_prefix, render_branch_template, sanitize_branch_name, slugify};

#[test]
fn render_example_template() {
    let branch = render_branch_template("agent/{slug}-{timestamp}", "fix-bug", "1700000000000");
    assert_eq!(branch, "agent/fix-bug-1700000000000");
}

#[test]
fn render_never_yields_doubled_slashes_or_edge_marks() {
    let cases = [
        ("agent//{slug}//", "a b", "1"),
        ("///", "x", "y"),
        ("-{slug}-", "--", "2"),
        ("{slug}", "", ""),
        ("HEAD", "h", "1"),
        ("{timestamp}", "s", "HEAD"),
    ];
    for (template, slug, ts) in cases {
        let b = render_branch_template(template, slug, ts);
        assert!(!b.is_empty(), "empty branch for {template}");
        assert_ne!(b, "HEAD");
        assert!(!b.contains("//"), "doubled slash in {b}");
        for edge in ['.', '/', '-'] {
            assert!(!b.starts_with(edge), "bad start in {b}");
            assert!(!b.ends_with(edge), "bad end in {b}");
        }
    }
}

#[test]
fn render_substitutes_both_placeholders() {
    let b = render_branch_template("pr/{slug}.{timestamp}", "topic", "42");
    assert_eq!(b, "pr/topic.42");
}

#[test]
fn slugify_lowercases_and_collapses() {
    assert_eq!(slugify("Fix Bug"), "fix-bug");
    assert_eq!(slugify("  Hello,   World!  "), "hello-world");
    assert_eq!(slugify("---"), "");
    assert_eq!(slugify("A"), "a");
    assert_eq!(slugify("task"), "task");
}

#[test]
fn sanitize_keeps_valid_names() {
    assert_eq!(sanitize_branch_name("agent/fix-1"), "agent/fix-1");
    assert_eq!(sanitize_branch_name("a b"), "a-b");
    assert_eq!(sanitize_branch_name("x//y"), "x/y");
    assert_eq!(sanitize_branch_name("x--y"), "x-y");
    assert_eq!(sanitize_branch_name("./x/."), "x");
}

#[test]
fn sanitize_falls_back_for_empty_and_head() {
    assert_eq!(sanitize_branch_name(""), "agent/task");
    assert_eq!(sanitize_branch_name("///"), "agent/task");
    assert_eq!(sanitize_branch_name("HEAD"), "agent/task");
}

#[test]
fn template_prefix_takes_first_literal_segment() {
    assert_eq!(extract_template_prefix("agent/{slug}-{timestamp}"), Some("agent".to_string()));
    assert_eq!(extract_template_prefix("pr/x"), Some("pr".to_string()));
    assert_eq!(extract_template_prefix("{slug}"), None);
    assert_eq!(extract_template_prefix("   "), None);
    assert_eq!(extract_template_prefix(" my prefix /{slug}"), Some("myprefix".to_string()));
    assert_eq!(extract_template_prefix("-./{slug}"), None);
}
