use emdash::baseref::{
    get_default_branch, is_missing_remote_ref_error, parse_base_ref_parts, FetchFlow, FetchSt,
    ResolveFlow, ResolveSt,
};
use emdash::effects::{Action, Event, ProjectSettingsRow, Step};

fn ran(ok: bool, stdout: &str, error: &str) -> Event {
    Event::Ran { ok, stdout: stdout.to_string(), error: error.to_string() }
}

#[test]
fn parse_base_ref_splits_remote_and_branch() {
    assert_eq!(
        parse_base_ref_parts("origin/release"),
        Some(("origin".to_string(), "release".to_string()))
    );
    assert_eq!(
        parse_base_ref_parts("refs/remotes/origin/main"),
        Some(("origin".to_string(), "main".to_string()))
    );
    assert_eq!(
        parse_base_ref_parts("remotes/up/feature/x"),
        Some(("up".to_string(), "feature/x".to_string()))
    );
    assert_eq!(parse_base_ref_parts("main"), None);
    assert_eq!(parse_base_ref_parts(""), None);
    assert_eq!(parse_base_ref_parts("/branch"), None);
    assert_eq!(parse_base_ref_parts("origin/"), None);
}

#[test]
fn missing_ref_signatures_match_case_insensitively() {
    assert!(is_missing_remote_ref_error("fatal: Couldn't find remote ref refs/heads/x"));
    assert!(is_missing_remote_ref_error("error: Remote ref does not exist"));
    assert!(is_missing_remote_ref_error("fatal: the remote end hung up unexpectedly"));
    assert!(is_missing_remote_ref_error("No such ref was fetched."));
    assert!(is_missing_remote_ref_error("could NOT find remote ref main"));
    assert!(!is_missing_remote_ref_error("permission denied"));
    assert!(!is_missing_remote_ref_error(""));
}

#[test]
fn default_branch_parses_head_line() {
    let out = "* remote origin\n  Fetch URL: x\n  HEAD branch: develop\n";
    assert_eq!(get_default_branch(true, out), "develop");
    assert_eq!(get_default_branch(true, "no marker here"), "main");
    assert_eq!(get_default_branch(true, "HEAD branch:   \n"), "main");
    assert_eq!(get_default_branch(false, "ignored"), "main");
}

#[test]
fn resolve_uses_configured_base_ref_with_known_remote() {
    // baseRef "origin/release" with configured remotes {origin} resolves to
    // origin/release without any fallback
    let row = ProjectSettingsRow {
        git_remote: None,
        git_branch: None,
        base_ref: Some("origin/release".to_string()),
    };
    let (mut flow, step) = ResolveFlow::start("/proj", &row);
    match step {
        Step::Run(Action::RunGit { args, cwd }) => {
            assert_eq!(args, vec!["remote".to_string()]);
            assert_eq!(cwd, "/proj");
        },
        _ => panic!("expected a git remote query"),
    }
    assert!(matches!(flow.st, ResolveSt::AwaitRemotes { .. }));
    let step = flow.on_event(&ran(true, "origin\n", ""));
    match step {
        Step::Done(Ok(info)) => {
            assert_eq!(info.remote, "origin");
            assert_eq!(info.branch, "release");
            assert_eq!(info.full_ref, "origin/release");
        },
        _ => panic!("expected an immediate answer"),
    }
}

#[test]
fn resolve_rejects_unknown_remote_and_falls_back() {
    let row = ProjectSettingsRow {
        git_remote: None,
        git_branch: Some("develop".to_string()),
        base_ref: Some("gone/release".to_string()),
    };
    let (mut flow, step) = ResolveFlow::start("/proj", &row);
    assert!(matches!(step, Step::Run(_)));
    // "gone" is not among the configured remotes; baseRef is not blank, so a
    // local-branch check runs next
    let step = flow.on_event(&ran(true, "origin\n", ""));
    match &step {
        Step::Run(Action::RunGit { args, .. }) => {
            assert_eq!(args[0], "rev-parse");
            assert_eq!(args[2], "refs/heads/gone/release");
        },
        _ => panic!("expected a rev-parse"),
    }
    // no such local branch: the clean gitBranch hint answers
    let step = flow.on_event(&ran(false, "", "unknown revision"));
    match step {
        Step::Done(Ok(info)) => assert_eq!(info.full_ref, "origin/develop"),
        _ => panic!("expected the gitBranch fallback"),
    }
}

#[test]
fn resolve_queries_head_when_nothing_is_stored() {
    let row = ProjectSettingsRow { git_remote: None, git_branch: None, base_ref: None };
    let (mut flow, step) = ResolveFlow::start("/proj", &row);
    match &step {
        Step::Run(Action::RunGit { args, .. }) => {
            assert_eq!(args, &vec!["remote".to_string(), "show".to_string(), "origin".to_string()])
        },
        _ => panic!("expected a remote show"),
    }
    let step = flow.on_event(&ran(true, "  HEAD branch: trunk\n", ""));
    match step {
        Step::Done(Ok(info)) => assert_eq!(info.full_ref, "origin/trunk"),
        _ => panic!("expected the advertised HEAD"),
    }
}

#[test]
fn fetch_fallback_persists_corrected_ref_exactly_once() {
    let base = emdash::baseref::make_ref("origin", "release");
    let (mut flow, step) = FetchFlow::start("/proj", "proj-1", base);
    match &step {
        Step::Run(Action::RunGit { args, .. }) => {
            assert_eq!(
                args,
                &vec!["fetch".to_string(), "origin".to_string(), "release".to_string()]
            );
        },
        _ => panic!("expected the first fetch"),
    }
    // the configured ref is gone: the default branch is attempted next
    let step = flow.on_event(&ran(false, "", "fatal: couldn't find remote ref release"));
    match &step {
        Step::Run(Action::RunGit { args, .. }) => {
            assert_eq!(
                args,
                &vec!["remote".to_string(), "show".to_string(), "origin".to_string()]
            );
        },
        _ => panic!("expected the default-branch query"),
    }
    let step = flow.on_event(&ran(true, "HEAD branch: main\n", ""));
    match &step {
        Step::Run(Action::RunGit { args, .. }) => {
            assert_eq!(args, &vec!["fetch".to_string(), "origin".to_string(), "main".to_string()]);
        },
        _ => panic!("expected the fallback fetch"),
    }
    let mut persist_count = 0;
    let step = flow.on_event(&ran(true, "", ""));
    match &step {
        Step::Run(Action::PersistBaseRef { project_id, full_ref }) => {
            persist_count += 1;
            assert_eq!(project_id, "proj-1");
            assert_eq!(full_ref, "origin/main");
        },
        _ => panic!("expected the corrected ref to be persisted"),
    }
    assert!(matches!(flow.st, FetchSt::AwaitPersist { .. }));
    let step = flow.on_event(&Event::Ack);
    match step {
        Step::Done(Ok(info)) => assert_eq!(info.full_ref, "origin/main"),
        _ => panic!("expected the fallback as the answer"),
    }
    assert_eq!(persist_count, 1);
}

#[test]
fn fetch_identical_fallback_fails_with_original_error() {
    let base = emdash::baseref::make_ref("origin", "main");
    let (mut flow, _) = FetchFlow::start("/proj", "p", base);
    let _ = flow.on_event(&ran(false, "", "no such ref was fetched"));
    // the advertised HEAD is main too: the fallback would repeat the failure
    let step = flow.on_event(&ran(true, "HEAD branch: main\n", ""));
    match step {
        Step::Done(Err(e)) => {
            assert_eq!(e.message(), "Failed to fetch origin/main: no such ref was fetched");
        },
        _ => panic!("expected a failure"),
    }
}

#[test]
fn fetch_plain_failure_does_not_fall_back() {
    let base = emdash::baseref::make_ref("origin", "dev");
    let (mut flow, _) = FetchFlow::start("/proj", "p", base);
    let step = flow.on_event(&ran(false, "", "permission denied"));
    match step {
        Step::Done(Err(e)) => {
            assert_eq!(e.message(), "Failed to fetch origin/dev: permission denied");
        },
        _ => panic!("expected a failure"),
    }
}

#[test]
fn fetch_failing_fallback_names_both_refs() {
    let base = emdash::baseref::make_ref("origin", "release");
    let (mut flow, _) = FetchFlow::start("/proj", "p", base);
    let _ = flow.on_event(&ran(false, "", "couldn't find remote ref"));
    let _ = flow.on_event(&ran(true, "HEAD branch: main\n", ""));
    let step = flow.on_event(&ran(false, "", "network down"));
    match step {
        Step::Done(Err(e)) => {
            assert_eq!(
                e.message(),
                "Failed to fetch base branch. Tried origin/release and origin/main. network down \
                 Please verify the branch exists on the remote."
            );
        },
        _ => panic!("expected a failure"),
    }
}
