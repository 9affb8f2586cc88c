use emdash::create::{CreateFlow, CreateFromBranchFlow};
use emdash::effects::{Action, Event, ProjectSettingsRow, Step, WtError};
use emdash::listing::ListFlow;
use emdash::mergeop::MergeFlow;
use emdash::registry::{WorktreeInfo, WorktreeState};
use emdash::remove::RemoveFlow;
use emdash::statusop::StatusFlow;

fn ran(ok: bool, stdout: &str, error: &str) -> Event {
    Event::Ran { ok, stdout: stdout.to_string(), error: error.to_string() }
}

fn path_info(exists: bool, is_file: bool) -> Event {
    Event::PathInfo { exists, is_file }
}

fn fs_done(ok: bool, error: &str) -> Event {
    Event::FsDone { ok, error: error.to_string() }
}

fn file_read(ok: bool, content: &str) -> Event {
    Event::FileRead { ok, content: content.to_string() }
}

fn settings_row(base_ref: Option<&str>) -> Event {
    Event::SettingsRow {
        ok: true,
        row: ProjectSettingsRow {
            git_remote: None,
            git_branch: Some("main".to_string()),
            base_ref: base_ref.map(|s| s.to_string()),
        },
        error: String::new(),
    }
}

/// Drive a creation to completion against a cooperative pretend world, and
/// return the registered workspace.
fn drive_create(reg: &mut WorktreeState, push: bool, auto: bool) -> WorktreeInfo {
    let (mut flow, step) = CreateFlow::start(
        "/repo/proj",
        "Fix Bug",
        "proj-1",
        auto,
        "agent/{slug}-{timestamp}",
        push,
    );
    assert_eq!(flow.slug, "fix-bug");
    assert!(flow.branch.starts_with("agent/fix-bug-"));
    assert!(flow.wt_path.starts_with("/repo/proj/../worktrees/fix-bug-"));
    // target probe
    match &step {
        Step::Run(Action::CheckPath { path }) => assert_eq!(path, &flow.wt_path),
        _ => panic!("expected the conflict probe"),
    }
    let step = flow.on_event(reg, &path_info(false, false));
    match &step {
        Step::Run(Action::CreateDirAll { path }) => assert_eq!(path, "/repo/proj/../worktrees"),
        _ => panic!("expected the parent creation"),
    }
    let step = flow.on_event(reg, &fs_done(true, ""));
    assert!(matches!(step, Step::Run(Action::FetchSettingsRow { .. })));
    // resolve: stored base ref origin/release, configured remotes {origin}
    let step = flow.on_event(reg, &settings_row(Some("origin/release")));
    assert!(matches!(step, Step::Run(Action::RunGit { .. })));
    // `git remote` lists origin; resolve finishes and the fetch begins
    let step = flow.on_event(reg, &ran(true, "origin\n", ""));
    match &step {
        Step::Run(Action::RunGit { args, .. }) => {
            assert_eq!(args[0], "fetch");
            assert_eq!(args[1], "origin");
            assert_eq!(args[2], "release");
        },
        _ => panic!("expected the fetch"),
    }
    // the fetch succeeds; the worktree add runs
    let step = flow.on_event(reg, &ran(true, "", ""));
    match &step {
        Step::Run(Action::RunGit { args, cwd }) => {
            assert_eq!(args[0], "worktree");
            assert_eq!(args[1], "add");
            assert_eq!(args[2], "-b");
            assert_eq!(args[3], flow.branch);
            assert_eq!(args[4], flow.wt_path);
            assert_eq!(args[5], "origin/release");
            assert_eq!(cwd, "/repo/proj");
        },
        _ => panic!("expected the worktree add"),
    }
    let step = flow.on_event(reg, &ran(true, "", ""));
    assert!(matches!(step, Step::Run(Action::CheckPath { .. })));
    // the directory exists now; hygiene probes .git
    let step = flow.on_event(reg, &path_info(true, false));
    match &step {
        Step::Run(Action::CheckPath { path }) => {
            assert_eq!(path, &format!("{}/.git", flow.wt_path));
        },
        _ => panic!("expected the .git probe"),
    }
    // .git is a file pointing elsewhere
    let step = flow.on_event(reg, &path_info(true, true));
    assert!(matches!(step, Step::Run(Action::ReadFile { .. })));
    let step = flow.on_event(reg, &file_read(true, "gitdir: ../.git/worktrees/x\n"));
    match &step {
        Step::Run(Action::ReadFile { path }) => {
            assert_eq!(path, &format!("{}/../.git/worktrees/x/info/exclude", flow.wt_path));
        },
        _ => panic!("expected the exclude read"),
    }
    // the exclude file lacks the entry: it is written back
    let step = flow.on_event(reg, &file_read(true, "target\n"));
    match &step {
        Step::Run(Action::WriteFile { content, .. }) => {
            assert_eq!(content, "target\ncodex-stream.log\n");
        },
        _ => panic!("expected the exclude write"),
    }
    let mut step = flow.on_event(reg, &fs_done(true, ""));
    if auto {
        match &step {
            Step::Run(Action::WriteAgentSettings { dir }) => assert_eq!(dir, &flow.wt_path),
            _ => panic!("expected the agent-settings merge"),
        }
        step = flow.on_event(reg, &fs_done(true, ""));
    }
    if push {
        match &step {
            Step::Run(Action::RunGit { args, cwd }) => {
                assert_eq!(
                    args,
                    &vec![
                        "push".to_string(),
                        "--set-upstream".to_string(),
                        "origin".to_string(),
                        flow.branch.clone()
                    ]
                );
                assert_eq!(cwd, &flow.wt_path);
            },
            _ => panic!("expected the upstream push"),
        }
        step = flow.on_event(reg, &ran(false, "", "push rejected"));
    }
    match step {
        Step::Done(Ok(info)) => {
            assert_eq!(info.name, "Fix Bug");
            assert_eq!(info.branch, flow.branch);
            assert_eq!(info.path, flow.wt_path);
            assert_eq!(info.project_id, "proj-1");
            assert_eq!(info.status, "active");
            assert!(info.id.starts_with("wt-"));
            info
        },
        _ => panic!("expected the workspace"),
    }
}

#[test]
fn create_registers_workspace() {
    let mut reg = WorktreeState::new();
    let info = drive_create(&mut reg, false, false);
    let got = reg.get(&info.id).expect("registered");
    assert_eq!(got.path, info.path);
    assert_eq!(reg.entry_count(), 1);
}

#[test]
fn create_with_push_and_auto_approve() {
    let mut reg = WorktreeState::new();
    let info = drive_create(&mut reg, true, true);
    assert!(reg.get(&info.id).is_some());
}

#[test]
fn create_rejects_blank_inputs() {
    let (_, step) = CreateFlow::start("  ", "t", "p", false, "x", false);
    match step {
        Step::Done(Err(WtError::InvalidArgument(m))) => {
            assert_eq!(m, "Missing required parameters");
        },
        _ => panic!("expected the validation failure"),
    }
}

#[test]
fn create_stops_on_existing_target() {
    let mut reg = WorktreeState::new();
    let (mut flow, _) = CreateFlow::start("/p", "t", "id", false, "agent/{slug}", false);
    let step = flow.on_event(&mut reg, &path_info(true, false));
    match step {
        Step::Done(Err(WtError::PathConflict(m))) => {
            assert!(m.starts_with("Worktree directory already exists: "));
        },
        _ => panic!("expected the conflict"),
    }
    assert_eq!(reg.entry_count(), 0);
}

#[test]
fn list_contains_created_workspace_exactly_once() {
    let mut reg = WorktreeState::new();
    let info = drive_create(&mut reg, false, false);
    let (mut list, step) = ListFlow::start("/repo/proj", "agent/{slug}-{timestamp}");
    assert!(matches!(step, Step::Run(Action::RunGit { .. })));
    let listing = format!(
        "/repo/proj  abc123 [main]\n{}  def456 [{}]\n",
        info.path, info.branch
    );
    let step = list.on_event(&reg, &ran(true, &listing, ""));
    match step {
        Step::Done(Ok(ws)) => {
            let matching: Vec<_> = ws.iter().filter(|w| w.path == info.path).collect();
            assert_eq!(matching.len(), 1);
            assert_eq!(matching[0].id, info.id);
            assert_eq!(matching[0].name, "Fix Bug");
        },
        _ => panic!("expected the listing"),
    }
}

#[test]
fn list_synthesizes_managed_unregistered_entries() {
    let reg = WorktreeState::new();
    let (mut list, _) = ListFlow::start("/repo/proj", "team/{slug}");
    let listing = "/w/one  a [agent/x]\n/w/two  b [team-y]\n/w/three  c [private]\n";
    let step = list.on_event(&reg, &ran(true, listing, ""));
    match step {
        Step::Done(Ok(ws)) => {
            assert_eq!(ws.len(), 2);
            assert_eq!(ws[0].path, "/w/one");
            assert_eq!(ws[0].name, "one");
            assert_eq!(ws[0].branch, "agent/x");
            assert_eq!(ws[0].status, "active");
            assert_eq!(ws[0].project_id, "proj");
            assert_eq!(ws[1].path, "/w/two");
            assert_eq!(ws[1].branch, "team-y");
        },
        _ => panic!("expected the listing"),
    }
}

/// Drive one removal to completion; record whether any directory deletion or
/// permission grant was asked for.
fn drive_remove(
    reg: &mut WorktreeState,
    id: &str,
    explicit_path: Option<String>,
    dir_exists: bool,
) -> (bool, bool) {
    let (mut flow, mut step) = RemoveFlow::start(reg, "/repo/proj", id, explicit_path, None);
    let mut mutated = false;
    let mut ok = false;
    loop {
        match step {
            Step::Run(a) => {
                let ev = match &a {
                    Action::RunGit { .. } => ran(true, "", ""),
                    Action::CheckPath { .. } => path_info(dir_exists, false),
                    Action::RemoveDirAll { .. } => {
                        mutated = true;
                        fs_done(true, "")
                    },
                    Action::GrantWrite { .. } => {
                        mutated = true;
                        ran(true, "", "")
                    },
                    _ => panic!("unexpected action during removal"),
                };
                step = flow.on_event(reg, &ev);
            },
            Step::Done(res) => {
                ok = res.is_ok();
                break;
            },
        }
    }
    (ok, mutated)
}

#[test]
fn remove_is_idempotent() {
    let mut reg = WorktreeState::new();
    let info = drive_create(&mut reg, false, false);
    let (ok1, mutated1) = drive_remove(&mut reg, &info.id, None, true);
    assert!(ok1);
    assert!(mutated1);
    assert!(reg.get(&info.id).is_none());
    // the second removal: the registry is empty, the path is explicit, and
    // nothing is on disk any more
    let (ok2, mutated2) = drive_remove(&mut reg, &info.id, Some(info.path.clone()), false);
    assert!(ok2);
    assert!(!mutated2, "second removal must not touch the filesystem");
}

#[test]
fn remove_without_path_fails() {
    let reg = WorktreeState::new();
    let (_, step) = RemoveFlow::start(&reg, "/p", "wt-zzz", None, None);
    match step {
        Step::Done(Err(WtError::InvalidArgument(m))) => {
            assert_eq!(m, "Worktree path not provided");
        },
        _ => panic!("expected the missing-path failure"),
    }
}

#[test]
fn remove_strips_origin_prefix_for_remote_deletion() {
    let mut reg = WorktreeState::new();
    let (mut flow, mut step) =
        RemoveFlow::start(&reg, "/p", "wt-x", Some("/w/x".to_string()), Some("origin/feat".to_string()));
    let mut saw_remote_delete = false;
    loop {
        match step {
            Step::Run(a) => {
                if let Action::RunGit { args, .. } = &a {
                    if args.len() == 4 && args[0] == "push" && args[2] == "--delete" {
                        saw_remote_delete = true;
                        assert_eq!(args[3], "feat");
                    }
                }
                let ev = match &a {
                    Action::CheckPath { .. } => path_info(false, false),
                    _ => ran(true, "", ""),
                };
                step = flow.on_event(&mut reg, &ev);
            },
            Step::Done(res) => {
                assert!(res.is_ok());
                break;
            },
        }
    }
    assert!(saw_remote_delete);
}

#[test]
fn merge_failure_leaves_workspace_and_registry_intact() {
    let mut reg = WorktreeState::new();
    let info = drive_create(&mut reg, false, false);
    let (mut flow, step) = MergeFlow::start(&reg, "/repo/proj", &info.id);
    assert!(matches!(step, Step::Run(_)));
    // advertised HEAD, then checkout succeeds, then the merge conflicts
    let step = flow.on_event(&mut reg, &ran(true, "HEAD branch: main\n", ""));
    match &step {
        Step::Run(Action::RunGit { args, .. }) => {
            assert_eq!(args, &vec!["checkout".to_string(), "main".to_string()]);
        },
        _ => panic!("expected the checkout"),
    }
    let step = flow.on_event(&mut reg, &ran(true, "", ""));
    match &step {
        Step::Run(Action::RunGit { args, .. }) => {
            assert_eq!(args, &vec!["merge".to_string(), info.branch.clone()]);
        },
        _ => panic!("expected the merge"),
    }
    let step = flow.on_event(&mut reg, &ran(false, "", "CONFLICT (content)"));
    match step {
        Step::Done(Err(WtError::CommandFailed(m))) => assert_eq!(m, "CONFLICT (content)"),
        _ => panic!("expected the merge failure"),
    }
    // the workspace is still tracked for manual resolution
    assert!(reg.get(&info.id).is_some());
}

#[test]
fn merge_success_removes_workspace() {
    let mut reg = WorktreeState::new();
    let info = drive_create(&mut reg, false, false);
    let (mut flow, mut step) = MergeFlow::start(&reg, "/repo/proj", &info.id);
    let mut steps = 0;
    loop {
        steps += 1;
        assert!(steps < 32, "merge did not finish");
        match step {
            Step::Run(a) => {
                let ev = match &a {
                    Action::CheckPath { .. } => path_info(false, false),
                    _ => ran(true, "HEAD branch: main\n", ""),
                };
                step = flow.on_event(&mut reg, &ev);
            },
            Step::Done(res) => {
                assert!(res.is_ok());
                break;
            },
        }
    }
    assert!(reg.get(&info.id).is_none());
}

#[test]
fn merge_unknown_workspace_fails() {
    let reg = WorktreeState::new();
    let (_, step) = MergeFlow::start(&reg, "/p", "wt-zzz");
    match step {
        Step::Done(Err(WtError::NotTracked(m))) => assert_eq!(m, "Worktree not found"),
        _ => panic!("expected the not-found failure"),
    }
}

#[test]
fn status_classifies_porcelain_lines() {
    let (mut flow, step) = StatusFlow::start(" /w/x ");
    match &step {
        Step::Run(Action::RunGit { args, cwd }) => {
            assert_eq!(
                args,
                &vec![
                    "status".to_string(),
                    "--porcelain".to_string(),
                    "--untracked-files=all".to_string()
                ]
            );
            assert_eq!(cwd, "/w/x");
        },
        _ => panic!("expected the status command"),
    }
    let out = "M  staged.rs\nA  added.rs\n?? fresh.rs\n\n";
    let step = flow.on_event(&ran(true, out, ""));
    match step {
        Step::Done(Ok(s)) => {
            // an `M` in either column marks the file both staged and unstaged
            assert_eq!(s.staged, vec!["staged.rs".to_string(), "added.rs".to_string()]);
            assert_eq!(s.unstaged, vec!["staged.rs".to_string()]);
            assert_eq!(s.untracked, vec!["fresh.rs".to_string()]);
            assert!(s.has_changes);
        },
        _ => panic!("expected the summary"),
    }
}

#[test]
fn status_blank_path_fails() {
    let (_, step) = StatusFlow::start("   ");
    match step {
        Step::Done(Err(WtError::InvalidArgument(m))) => assert_eq!(m, "worktreePath is required"),
        _ => panic!("expected the validation failure"),
    }
}

#[test]
fn create_from_branch_adopts_branch_name() {
    let mut reg = WorktreeState::new();
    let (mut flow, step) = CreateFromBranchFlow::start(
        "/repo/proj",
        "",
        "feature/login",
        "proj-1",
        Some("/w/login".to_string()),
    );
    assert_eq!(flow.name, "feature-login");
    assert!(matches!(step, Step::Run(Action::CheckPath { .. })));
    let step = flow.on_event(&mut reg, &path_info(false, false));
    match &step {
        Step::Run(Action::CreateDirAll { path }) => assert_eq!(path, "/w"),
        _ => panic!("expected the parent creation"),
    }
    let step = flow.on_event(&mut reg, &fs_done(true, ""));
    match &step {
        Step::Run(Action::RunGit { args, .. }) => {
            assert_eq!(
                args,
                &vec![
                    "worktree".to_string(),
                    "add".to_string(),
                    "/w/login".to_string(),
                    "feature/login".to_string()
                ]
            );
        },
        _ => panic!("expected the worktree add"),
    }
    let step = flow.on_event(&mut reg, &ran(true, "", ""));
    assert!(matches!(step, Step::Run(Action::CheckPath { .. })));
    let step = flow.on_event(&mut reg, &path_info(true, false));
    assert!(matches!(step, Step::Run(Action::CheckPath { .. })));
    // .git is a plain directory; the exclude file already carries the entry
    let step = flow.on_event(&mut reg, &path_info(true, false));
    assert!(matches!(step, Step::Run(Action::ReadFile { .. })));
    let step = flow.on_event(&mut reg, &file_read(true, "codex-stream.log\n"));
    match step {
        Step::Done(Ok(info)) => {
            assert_eq!(info.branch, "feature/login");
            assert_eq!(info.path, "/w/login");
            assert!(reg.get(&info.id).is_some());
        },
        _ => panic!("expected the adopted workspace"),
    }
}

#[test]
fn create_from_branch_add_failure_is_labelled() {
    let mut reg = WorktreeState::new();
    let (mut flow, _) = CreateFromBranchFlow::start(
        "/p",
        "n",
        "feat",
        "id",
        Some("/w/x".to_string()),
    );
    let _ = flow.on_event(&mut reg, &path_info(false, false));
    let _ = flow.on_event(&mut reg, &fs_done(true, ""));
    let step = flow.on_event(&mut reg, &ran(false, "", "bad ref"));
    match step {
        Step::Done(Err(WtError::CommandFailed(m))) => {
            assert_eq!(m, "Failed to create worktree for branch feat: bad ref");
        },
        _ => panic!("expected the labelled failure"),
    }
}
