//! Merging a workspace's branch back into the project's default branch, then
//! tearing the workspace down. A failed checkout or merge aborts with no side
//! effect: the workspace and its registry entry stay intact for manual
//! resolution.

use vstd::prelude::*;

use crate::baseref::{default_branch_of, get_default_branch, ran_err, ran_ok};
use crate::chars::{chars_of, trim_edges, trimmed_edges, TrimClass};
use crate::effects::{git_args, git_cwd, Action, Event, Step, WtError};
use crate::registry::{dup_info, lookup, WorktreeInfo, WorktreeState};
use crate::remove::RemoveFlow;

verus! {

/// Where a merge stands.
pub enum MergeSt {
    /// `git remote show origin` is running for the default branch.
    AwaitHead,
    /// `git checkout <default>` is running.
    AwaitCheckout,
    /// `git merge <branch>` is running.
    AwaitMerge,
    /// The merge succeeded; the embedded removal is cleaning up. Its result
    /// is ignored: the merge already succeeded.
    Removing(RemoveFlow),
    Finished,
}

/// Merges one tracked workspace and then removes it.
pub struct MergeFlow {
    pub st: MergeSt,
    pub project_path: String,
    pub worktree: WorktreeInfo,
}

impl MergeFlow {
    pub open spec fn wf(&self) -> bool {
        match self.st {
            MergeSt::Removing(inner) => inner.wf() && !(inner.st is Finished)
                && inner.worktree_id@ == self.worktree@.id,
            _ => true,
        }
    }

    /// Which event the flow's pending action is answered with.
    pub open spec fn expects(&self, ev: &Event) -> bool {
        match self.st {
            MergeSt::AwaitHead => ev is Ran,
            MergeSt::AwaitCheckout => ev is Ran,
            MergeSt::AwaitMerge => ev is Ran,
            MergeSt::Removing(inner) => inner.expects(ev),
            MergeSt::Finished => false,
        }
    }

    /// Begin a merge: fail at once for a blank project path or an untracked
    /// id, else query the remote's advertised HEAD.
    pub fn start(reg: &WorktreeState, project_path: &str, worktree_id: &str) -> (r: (
        MergeFlow,
        Step<()>,
    ))
        requires
            reg.wf(),
        ensures
            r.0.wf(),
            r.0.project_path@ == project_path@,
            ({
                let pt = trimmed_edges(project_path@, TrimClass::Space);
                if pt.len() == 0 {
                    (match r.1 {
                        Step::Done(res) => match res {
                            Result::Ok(_) => false,
                            Result::Err(we) => (we is InvalidArgument) && we.text()
                                == "projectPath is required"@,
                        },
                        _ => false,
                    })
                } else {
                    match lookup(reg.rows(), worktree_id@) {
                        Option::Some(iv) => r.0.worktree@ == iv && (r.0.st is AwaitHead) && (
                        match r.1 {
                            Step::Run(a) => git_args(&a) == seq!["remote"@, "show"@, "origin"@]
                                && git_cwd(&a) == project_path@,
                            _ => false,
                        }),
                        Option::None => (match r.1 {
                            Step::Done(res) => match res {
                                Result::Ok(_) => false,
                                Result::Err(we) => (we is NotTracked) && we.text()
                                    == "Worktree not found"@,
                            },
                            _ => false,
                        }),
                    }
                }
            }),
    {
        let ppv = chars_of(project_path);
        let ppt = trim_edges(&ppv, TrimClass::Space);
        let placeholder = WorktreeInfo {
            id: "".to_owned(),
            name: "".to_owned(),
            branch: "".to_owned(),
            path: "".to_owned(),
            project_id: "".to_owned(),
            status: "".to_owned(),
            created_at: "".to_owned(),
            last_activity: None,
        };
        if ppt.len() == 0 {
            let flow = MergeFlow {
                st: MergeSt::Finished,
                project_path: project_path.to_owned(),
                worktree: placeholder,
            };
            return (flow, Step::Done(Err(WtError::InvalidArgument(
                "projectPath is required".to_owned(),
            ))));
        }
        match reg.get(worktree_id) {
            Some(info) => {
                let mut args: Vec<String> = Vec::new();
                crate::effects::push_arg(&mut args, "remote");
                crate::effects::push_arg(&mut args, "show");
                crate::effects::push_arg(&mut args, "origin");
                proof {
                    assert(args@.map_values(|x: String| x@) =~= seq![
                        "remote"@,
                        "show"@,
                        "origin"@,
                    ]);
                }
                let flow = MergeFlow {
                    st: MergeSt::AwaitHead,
                    project_path: project_path.to_owned(),
                    worktree: info,
                };
                let cwd = flow.project_path.clone();
                (flow, Step::Run(Action::RunGit { args, cwd }))
            },
            None => {
                let flow = MergeFlow {
                    st: MergeSt::Finished,
                    project_path: project_path.to_owned(),
                    worktree: placeholder,
                };
                (flow, Step::Done(Err(WtError::NotTracked("Worktree not found".to_owned()))))
            },
        }
    }

    /// Feed back the outcome of the action the flow last asked for. Until
    /// the merge itself has succeeded, the registry is left untouched, and a
    /// failed checkout or merge ends the flow with that command's error and
    /// the workspace intact.
    pub fn on_event(&mut self, reg: &mut WorktreeState, ev: &Event) -> (step: Step<()>)
        requires
            old(reg).wf(),
            old(self).wf(),
            old(self).expects(ev),
        ensures
            final(self).wf(),
            final(reg).wf(),
            final(self).project_path@ == old(self).project_path@,
            final(self).worktree@ == old(self).worktree@,
            // only the embedded removal may touch the registry, and it only
            // drops this workspace's own entry
            forall|id2: Seq<char>|
                id2 != old(self).worktree@.id ==> lookup(final(reg).rows(), id2) == lookup(
                    old(reg).rows(),
                    id2,
                ),
            (match old(self).st {
                MergeSt::AwaitHead => final(reg).rows() == old(reg).rows() && (final(self).st
                    is AwaitCheckout) && (match step {
                    Step::Run(a) => git_args(&a) == seq![
                        "checkout"@,
                        default_branch_of(ran_ok(ev), ran_stdout_of(ev)),
                    ] && git_cwd(&a) == old(self).project_path@,
                    _ => false,
                }),
                MergeSt::AwaitCheckout => {
                    if ran_ok(ev) {
                        final(reg).rows() == old(reg).rows() && (final(self).st is AwaitMerge) && (
                        match step {
                            Step::Run(a) => git_args(&a) == seq![
                                "merge"@,
                                old(self).worktree@.branch,
                            ] && git_cwd(&a) == old(self).project_path@,
                            _ => false,
                        })
                    } else {
                        final(reg).rows() == old(reg).rows() && (final(self).st is Finished) && (
                        match step {
                            Step::Done(res) => match res {
                                Result::Ok(_) => false,
                                Result::Err(we) => (we is CommandFailed) && we.text() == ran_err(
                                    ev,
                                ),
                            },
                            _ => false,
                        })
                    }
                },
                MergeSt::AwaitMerge => {
                    if ran_ok(ev) {
                        final(reg).rows() == old(reg).rows() && (match step {
                            Step::Run(_) => final(self).st is Removing,
                            Step::Done(res) => res is Ok && final(self).st is Finished,
                        })
                    } else {
                        final(reg).rows() == old(reg).rows() && (final(self).st is Finished) && (
                        match step {
                            Step::Done(res) => match res {
                                Result::Ok(_) => false,
                                Result::Err(we) => (we is CommandFailed) && we.text() == ran_err(
                                    ev,
                                ),
                            },
                            _ => false,
                        })
                    }
                },
                MergeSt::Removing(_) => (match step {
                    Step::Run(_) => final(self).st is Removing,
                    Step::Done(res) => res is Ok && final(self).st is Finished,
                }),
                MergeSt::Finished => false,
            }),
    {
        let mut st = MergeSt::Finished;
        core::mem::swap(&mut st, &mut self.st);
        match st {
            MergeSt::AwaitHead => {
                let (ok, stdout): (bool, &String) = match ev {
                    Event::Ran { ok, stdout, .. } => (*ok, stdout),
                    _ => vstd::pervasive::unreached(),
                };
                let b = get_default_branch(ok, stdout.as_str());
                let mut args: Vec<String> = Vec::new();
                crate::effects::push_arg(&mut args, "checkout");
                let ghost bv = b@;
                args.push(b);
                proof {
                    assert(args@.map_values(|x: String| x@) =~= seq!["checkout"@, bv]);
                }
                self.st = MergeSt::AwaitCheckout;
                let cwd = self.project_path.clone();
                Step::Run(Action::RunGit { args, cwd })
            },
            MergeSt::AwaitCheckout => {
                let (ok, error): (bool, &String) = match ev {
                    Event::Ran { ok, error, .. } => (*ok, error),
                    _ => vstd::pervasive::unreached(),
                };
                if ok {
                    let mut args: Vec<String> = Vec::new();
                    crate::effects::push_arg(&mut args, "merge");
                    args.push(self.worktree.branch.clone());
                    proof {
                        assert(args@.map_values(|x: String| x@) =~= seq![
                            "merge"@,
                            self.worktree@.branch,
                        ]);
                    }
                    self.st = MergeSt::AwaitMerge;
                    let cwd = self.project_path.clone();
                    Step::Run(Action::RunGit { args, cwd })
                } else {
                    self.st = MergeSt::Finished;
                    Step::Done(Err(WtError::CommandFailed(error.clone())))
                }
            },
            MergeSt::AwaitMerge => {
                let (ok, error): (bool, &String) = match ev {
                    Event::Ran { ok, error, .. } => (*ok, error),
                    _ => vstd::pervasive::unreached(),
                };
                if ok {
                    let wt = dup_info(&self.worktree);
                    let (inner, istep) = RemoveFlow::start(
                        reg,
                        self.project_path.as_str(),
                        wt.id.as_str(),
                        Some(wt.path),
                        Some(wt.branch),
                    );
                    match istep {
                        Step::Run(a) => {
                            self.st = MergeSt::Removing(inner);
                            Step::Run(a)
                        },
                        Step::Done(_) => {
                            // the removal's own failure is swallowed
                            self.st = MergeSt::Finished;
                            Step::Done(Ok(()))
                        },
                    }
                } else {
                    self.st = MergeSt::Finished;
                    Step::Done(Err(WtError::CommandFailed(error.clone())))
                }
            },
            MergeSt::Removing(mut inner) => {
                let istep = inner.on_event(reg, ev);
                match istep {
                    Step::Run(a) => {
                        self.st = MergeSt::Removing(inner);
                        Step::Run(a)
                    },
                    Step::Done(_) => {
                        self.st = MergeSt::Finished;
                        Step::Done(Ok(()))
                    },
                }
            },
            MergeSt::Finished => vstd::pervasive::unreached(),
        }
    }
}

pub open spec fn ran_stdout_of(ev: &Event) -> Seq<char> {
    crate::baseref::ran_stdout(ev)
}

} // verus!
