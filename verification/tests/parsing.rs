use emdash::hygiene::{append_exclude_line, join_path, parse_gitdir};
use emdash::output::combine_output;
use emdash::parse::{head_branch_of_output, output_lists_remote, parse_status_output, parse_worktree_list};

#[test]
fn combine_output_prefers_stderr() {
    assert_eq!(combine_output("out text", "  err text \n"), "err text");
    assert_eq!(combine_output("  out text ", ""), "out text");
    assert_eq!(combine_output("  ", "\n"), "Command failed");
}

#[test]
fn worktree_list_lines_are_parsed() {
    let out = "/repo/proj      abc123 [main]\n/w/x  def [agent/y]\nno brackets here\n/w/z  ghi (detached)\n";
    let entries = parse_worktree_list(out);
    assert_eq!(entries.len(), 2);
    assert_eq!(entries[0].path, "/repo/proj");
    assert_eq!(entries[0].branch, "main");
    assert_eq!(entries[1].path, "/w/x");
    assert_eq!(entries[1].branch, "agent/y");
}

#[test]
fn head_branch_line_is_found() {
    let out = "* remote origin\n  HEAD branch: develop\n";
    assert_eq!(head_branch_of_output(out), Some("develop".to_string()));
    assert_eq!(head_branch_of_output("nothing"), None);
    // a blank branch is skipped in favour of a later line
    let out2 = "HEAD branch:\nHEAD branch: main\n";
    assert_eq!(head_branch_of_output(out2), Some("main".to_string()));
}

#[test]
fn remote_listing_is_checked_by_line() {
    assert!(output_lists_remote("origin\nupstream\n", "upstream"));
    assert!(output_lists_remote("  origin  \n", "origin"));
    assert!(!output_lists_remote("origin\n", "fork"));
}

#[test]
fn porcelain_status_is_classified() {
    let s = parse_status_output("D  gone.rs\n M edited.rs\n?? new.rs\n");
    assert_eq!(s.staged, vec!["gone.rs".to_string(), "edited.rs".to_string()]);
    assert_eq!(s.unstaged, vec!["gone.rs".to_string(), "edited.rs".to_string()]);
    assert_eq!(s.untracked, vec!["new.rs".to_string()]);
    assert!(s.has_changes);
    let empty = parse_status_output("");
    assert!(!empty.has_changes);
}

#[test]
fn gitdir_pointer_is_read() {
    assert_eq!(
        parse_gitdir("gitdir: ../.git/worktrees/x\n"),
        Some("../.git/worktrees/x".to_string())
    );
    // the last pointer wins, matching a repeated-key file
    assert_eq!(
        parse_gitdir("gitdir: a\ngitdir: b\n"),
        Some("b".to_string())
    );
    assert_eq!(parse_gitdir("gitdir:\n"), None);
    assert_eq!(parse_gitdir("no pointer"), None);
}

#[test]
fn join_path_respects_absolute_entries() {
    assert_eq!(join_path("/w/x", "../.git"), "/w/x/../.git");
    assert_eq!(join_path("/w/x", "/abs/dir"), "/abs/dir");
}

#[test]
fn exclude_append_handles_trailing_newline() {
    assert_eq!(append_exclude_line(""), "codex-stream.log\n");
    assert_eq!(append_exclude_line("target\n"), "target\ncodex-stream.log\n");
    assert_eq!(append_exclude_line("target"), "target\ncodex-stream.log\n");
}
