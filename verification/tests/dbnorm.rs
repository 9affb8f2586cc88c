use emdash::dbnorm::{
    compute_base_ref, default_branch, is_simple_remote_name, normalize_ref, remote_alias,
    split_statements, ProjectSettingsUpdate,
};

#[test]
fn remote_alias_falls_back_to_origin() {
    assert_eq!(remote_alias(None), "origin");
    assert_eq!(remote_alias(Some("  ")), "origin");
    assert_eq!(remote_alias(Some("https://example.test/repo.git")), "origin");
    assert_eq!(remote_alias(Some(" upstream ")), "upstream");
    assert_eq!(remote_alias(Some("bad name")), "origin");
}

#[test]
fn simple_remote_names() {
    assert!(is_simple_remote_name("origin"));
    assert!(is_simple_remote_name("up-stream.2_x"));
    assert!(!is_simple_remote_name(""));
    assert!(!is_simple_remote_name("a b"));
}

#[test]
fn normalize_ref_shapes() {
    assert_eq!(normalize_ref(Some("origin/main"), "up"), Some("origin/main".to_string()));
    assert_eq!(normalize_ref(Some("main"), "up"), Some("up/main".to_string()));
    assert_eq!(normalize_ref(Some("/feature"), "up"), Some("up/feature".to_string()));
    assert_eq!(normalize_ref(Some("https://x/y"), "up"), None);
    assert_eq!(normalize_ref(Some("  "), "up"), None);
    assert_eq!(normalize_ref(Some("a/"), "up"), None);
    assert_eq!(normalize_ref(None, "up"), None);
}

#[test]
fn compute_base_ref_prefers_stored_hint() {
    assert_eq!(compute_base_ref(Some("origin/release"), None, None), "origin/release");
    assert_eq!(compute_base_ref(Some("release"), Some("up"), None), "up/release");
    assert_eq!(compute_base_ref(None, Some("up"), Some("dev")), "up/dev");
    assert_eq!(compute_base_ref(None, None, None), "origin/main");
    assert_eq!(default_branch(), "main");
}

#[test]
fn split_statements_on_breakpoints() {
    let script = "CREATE TABLE a;\n--> statement-breakpoint\n  CREATE TABLE b; \n--> statement-breakpoint\n   \n";
    assert_eq!(
        split_statements(script),
        vec!["CREATE TABLE a;".to_string(), "CREATE TABLE b;".to_string()]
    );
    assert_eq!(split_statements(""), Vec::<String>::new());
    assert_eq!(split_statements("one"), vec!["one".to_string()]);
}

#[test]
fn settings_update_carries_fields() {
    let u = ProjectSettingsUpdate { project_id: "p".to_string(), base_ref: "origin/x".to_string() };
    assert_eq!(u.project_id, "p");
    assert_eq!(u.base_ref, "origin/x");
}
