//! Reading a workspace's porcelain status: staged, unstaged and untracked
//! files and whether anything changed at all.

use vstd::prelude::*;

use crate::baseref::{ran_err, ran_ok, ran_stdout};
use crate::chars::{chars_of, trim_edges, trimmed_edges, TrimClass};
use crate::effects::{git_args, git_cwd, Action, Event, Step, WtError};
use crate::parse::{parse_status_output, status_spec, StatusSummary};

verus! {

/// Where a status query stands.
pub enum StatusSt {
    AwaitStatus,
    Finished,
}

/// Queries one workspace's porcelain status.
pub struct StatusFlow {
    pub st: StatusSt,
    pub worktree_path: String,
}

impl StatusFlow {
    /// Begin a status query: fail at once for a blank path, else run the
    /// porcelain status command in the workspace.
    pub fn start(worktree_path: &str) -> (r: (StatusFlow, Step<StatusSummary>))
        ensures
            ({
                let pt = trimmed_edges(worktree_path@, TrimClass::Space);
                if pt.len() == 0 {
                    (match r.1 {
                        Step::Done(res) => match res {
                            Result::Ok(_) => false,
                            Result::Err(we) => (we is InvalidArgument) && we.text()
                                == "worktreePath is required"@,
                        },
                        _ => false,
                    })
                } else {
                    r.0.worktree_path@ == pt && (r.0.st is AwaitStatus) && (match r.1 {
                        Step::Run(a) => git_args(&a) == seq![
                            "status"@,
                            "--porcelain"@,
                            "--untracked-files=all"@,
                        ] && git_cwd(&a) == pt,
                        _ => false,
                    })
                }
            }),
    {
        let wv = chars_of(worktree_path);
        let wt = trim_edges(&wv, TrimClass::Space);
        if wt.len() == 0 {
            let flow = StatusFlow {
                st: StatusSt::Finished,
                worktree_path: worktree_path.to_owned(),
            };
            return (flow, Step::Done(Err(WtError::InvalidArgument(
                "worktreePath is required".to_owned(),
            ))));
        }
        let wp = crate::chars::string_from_chars(&wt);
        let mut args: Vec<String> = Vec::new();
        crate::effects::push_arg(&mut args, "status");
        crate::effects::push_arg(&mut args, "--porcelain");
        crate::effects::push_arg(&mut args, "--untracked-files=all");
        proof {
            assert(args@.map_values(|x: String| x@) =~= seq![
                "status"@,
                "--porcelain"@,
                "--untracked-files=all"@,
            ]);
        }
        let cwd = wp.clone();
        let flow = StatusFlow { st: StatusSt::AwaitStatus, worktree_path: wp };
        (flow, Step::Run(Action::RunGit { args, cwd }))
    }

    /// Feed back the status command's outcome.
    pub fn on_event(&mut self, ev: &Event) -> (step: Step<StatusSummary>)
        requires
            old(self).st is AwaitStatus,
            ev matches Event::Ran { .. },
        ensures
            final(self).st is Finished,
            (if ran_ok(ev) {
                match step {
                    Step::Done(res) => match res {
                        Result::Ok(s) => s.staged@.map_values(|f: String| f@) == status_spec(
                            ran_stdout(ev),
                        ).0 && s.unstaged@.map_values(|f: String| f@) == status_spec(
                            ran_stdout(ev),
                        ).1 && s.untracked@.map_values(|f: String| f@) == status_spec(
                            ran_stdout(ev),
                        ).2 && s.has_changes == (status_spec(ran_stdout(ev)).0.len() > 0
                            || status_spec(ran_stdout(ev)).1.len() > 0 || status_spec(
                            ran_stdout(ev),
                        ).2.len() > 0),
                        Result::Err(_) => false,
                    },
                    _ => false,
                }
            } else {
                match step {
                    Step::Done(res) => match res {
                        Result::Ok(_) => false,
                        Result::Err(we) => (we is CommandFailed) && we.text() == ran_err(ev),
                    },
                    _ => false,
                }
            }),
    {
        self.st = StatusSt::Finished;
        let (ok, stdout, error): (bool, &String, &String) = match ev {
            Event::Ran { ok, stdout, error } => (*ok, stdout, error),
            _ => vstd::pervasive::unreached(),
        };
        if ok {
            Step::Done(Ok(parse_status_output(stdout.as_str())))
        } else {
            Step::Done(Err(WtError::CommandFailed(error.clone())))
        }
    }
}

} // verus!
