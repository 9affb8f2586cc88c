//! Destroying a workspace: force-remove the worktree, prune stale metadata,
//! delete the directory (escalating permissions once), best-effort delete the
//! branch locally and on the remote, and drop the registry entry.

use vstd::prelude::*;

use crate::baseref::{ran_err, ran_ok};
use crate::chars::{chars_of, contains_seq, has_sub, matches_at, matches_at_spec, sub_chars, trim_edges, trimmed_edges, TrimClass};
use crate::effects::{git_args, git_cwd, Action, Event, Step, WtError};
use crate::hygiene::path_exists;
use crate::registry::{lookup, WorktreeState};

verus! {

pub open spec fn fs_ok(ev: &Event) -> bool {
    match ev {
        Event::FsDone { ok, .. } => *ok,
        _ => false,
    }
}

pub open spec fn fs_err(ev: &Event) -> Seq<char> {
    match ev {
        Event::FsDone { error, .. } => error@,
        _ => Seq::empty(),
    }
}

/// The branch deleted on the remote: the local name with one leading
/// `origin/` removed.
pub open spec fn remote_branch_of(b: Seq<char>) -> Seq<char> {
    if matches_at_spec(b, "origin/"@, 0) {
        b.skip(7)
    } else {
        b
    }
}

/// Where a removal stands.
pub enum RemoveSt {
    /// `git worktree remove --force` is running; its outcome is ignored.
    AwaitWtRemove,
    /// `git worktree prune` is running; its outcome is ignored.
    AwaitPrune1,
    /// The directory is being probed.
    AwaitPathCheck,
    /// The first directory deletion is running.
    AwaitRm1,
    /// Write permission is being granted after a failed deletion.
    AwaitChmod { err: String },
    /// The deletion is being retried.
    AwaitRm2 { err: String },
    /// `git branch -D` is running.
    AwaitBranchDel,
    /// The branch was reported checked out elsewhere; pruning again.
    AwaitPrune2,
    /// `git branch -D` is running a second time; its outcome is ignored.
    AwaitBranchDel2,
    /// The remote branch deletion is running; its outcome is ignored.
    AwaitRemoteDel,
    Finished,
}

/// What the removal does next, mathematically.
pub enum RemoveNext {
    ToPrune1,
    ToPathCheck,
    ToRm1,
    ToChmod(Seq<char>),
    ToRm2(Seq<char>),
    FailRemoval(Seq<char>),
    ToBranchDel,
    ToPrune2,
    ToBranchDel2,
    ToRemoteDel,
    Finish,
}

/// Once the directory is dealt with: delete the branch when one is known,
/// else finish.
pub open spec fn remove_after_dir(branch: Option<Seq<char>>) -> RemoveNext {
    match branch {
        Option::Some(_) => RemoveNext::ToBranchDel,
        Option::None => RemoveNext::Finish,
    }
}

/// The step an answered action leads to.
pub open spec fn remove_on_next(st: RemoveSt, branch: Option<Seq<char>>, ev: &Event) -> RemoveNext {
    match st {
        RemoveSt::AwaitWtRemove => RemoveNext::ToPrune1,
        RemoveSt::AwaitPrune1 => RemoveNext::ToPathCheck,
        RemoveSt::AwaitPathCheck => {
            if path_exists(ev) {
                RemoveNext::ToRm1
            } else {
                remove_after_dir(branch)
            }
        },
        RemoveSt::AwaitRm1 => {
            if fs_ok(ev) {
                remove_after_dir(branch)
            } else {
                RemoveNext::ToChmod(fs_err(ev))
            }
        },
        RemoveSt::AwaitChmod { err } => RemoveNext::ToRm2(err@),
        RemoveSt::AwaitRm2 { err } => {
            if fs_ok(ev) {
                remove_after_dir(branch)
            } else {
                RemoveNext::FailRemoval(err@)
            }
        },
        RemoveSt::AwaitBranchDel => {
            if !ran_ok(ev) && contains_seq(ran_err(ev), "checked out at"@) {
                RemoveNext::ToPrune2
            } else {
                RemoveNext::ToRemoteDel
            }
        },
        RemoveSt::AwaitPrune2 => RemoveNext::ToBranchDel2,
        RemoveSt::AwaitBranchDel2 => RemoveNext::ToRemoteDel,
        RemoveSt::AwaitRemoteDel => RemoveNext::Finish,
        RemoveSt::Finished => RemoveNext::Finish,
    }
}

/// Tears one workspace down. Only directory and worktree removal failures
/// are fatal; branch and remote cleanup failures are swallowed.
pub struct RemoveFlow {
    pub st: RemoveSt,
    pub project_path: String,
    pub worktree_id: String,
    pub path: String,
    pub branch: Option<String>,
    pub had_entry: bool,
}

impl RemoveFlow {
    /// The states that delete a branch are only entered when one is known.
    pub open spec fn wf(&self) -> bool {
        match self.st {
            RemoveSt::AwaitBranchDel => self.branch is Some,
            RemoveSt::AwaitPrune2 => self.branch is Some,
            RemoveSt::AwaitBranchDel2 => self.branch is Some,
            RemoveSt::AwaitRemoteDel => self.branch is Some,
            _ => true,
        }
    }

    pub open spec fn branch_view(&self) -> Option<Seq<char>> {
        match self.branch {
            Option::Some(b) => Option::Some(b@),
            Option::None => Option::None,
        }
    }

    /// Which event the flow's pending action is answered with.
    pub open spec fn expects(&self, ev: &Event) -> bool {
        match self.st {
            RemoveSt::AwaitWtRemove => ev is Ran,
            RemoveSt::AwaitPrune1 => ev is Ran,
            RemoveSt::AwaitPathCheck => ev is PathInfo,
            RemoveSt::AwaitRm1 => ev is FsDone,
            RemoveSt::AwaitChmod { .. } => ev is Ran,
            RemoveSt::AwaitRm2 { .. } => ev is FsDone,
            RemoveSt::AwaitBranchDel => ev is Ran,
            RemoveSt::AwaitPrune2 => ev is Ran,
            RemoveSt::AwaitBranchDel2 => ev is Ran,
            RemoveSt::AwaitRemoteDel => ev is Ran,
            RemoveSt::Finished => false,
        }
    }

    /// Whether this flow stands where `nx` says, with `step` as its answer
    /// and `rows0 -> rows1` as the registry's change.
    pub open spec fn emits(
        &self,
        step: &Step<()>,
        rows0: Seq<crate::registry::WorktreeInfo>,
        rows1: Seq<crate::registry::WorktreeInfo>,
        nx: RemoveNext,
    ) -> bool {
        match nx {
            RemoveNext::ToPrune1 => rows1 == rows0 && (self.st is AwaitPrune1) && (match step {
                Step::Run(a) => git_args(a) == seq!["worktree"@, "prune"@, "--verbose"@]
                    && git_cwd(a) == self.project_path@,
                _ => false,
            }),
            RemoveNext::ToPathCheck => rows1 == rows0 && (self.st is AwaitPathCheck) && (
            match step {
                Step::Run(a) => match a {
                    Action::CheckPath { path } => path@ == self.path@,
                    _ => false,
                },
                _ => false,
            }),
            RemoveNext::ToRm1 => rows1 == rows0 && (self.st is AwaitRm1) && (match step {
                Step::Run(a) => match a {
                    Action::RemoveDirAll { path } => path@ == self.path@,
                    _ => false,
                },
                _ => false,
            }),
            RemoveNext::ToChmod(e) => rows1 == rows0 && (match self.st {
                RemoveSt::AwaitChmod { err } => err@ == e,
                _ => false,
            }) && (match step {
                Step::Run(a) => match a {
                    Action::GrantWrite { path } => path@ == self.path@,
                    _ => false,
                },
                _ => false,
            }),
            RemoveNext::ToRm2(e) => rows1 == rows0 && (match self.st {
                RemoveSt::AwaitRm2 { err } => err@ == e,
                _ => false,
            }) && (match step {
                Step::Run(a) => match a {
                    Action::RemoveDirAll { path } => path@ == self.path@,
                    _ => false,
                },
                _ => false,
            }),
            RemoveNext::FailRemoval(e) => rows1 == rows0 && (self.st is Finished) && (match step {
                Step::Done(res) => match res {
                    Result::Ok(_) => false,
                    Result::Err(we) => (we is RemovalFailed) && we.text() == e,
                },
                _ => false,
            }),
            RemoveNext::ToBranchDel => rows1 == rows0 && (self.st is AwaitBranchDel) && (
            match step {
                Step::Run(a) => (match self.branch {
                    Option::Some(b) => git_args(a) == seq!["branch"@, "-D"@, b@],
                    Option::None => false,
                }) && git_cwd(a) == self.project_path@,
                _ => false,
            }),
            RemoveNext::ToPrune2 => rows1 == rows0 && (self.st is AwaitPrune2) && (match step {
                Step::Run(a) => git_args(a) == seq!["worktree"@, "prune"@, "--verbose"@]
                    && git_cwd(a) == self.project_path@,
                _ => false,
            }),
            RemoveNext::ToBranchDel2 => rows1 == rows0 && (self.st is AwaitBranchDel2) && (
            match step {
                Step::Run(a) => (match self.branch {
                    Option::Some(b) => git_args(a) == seq!["branch"@, "-D"@, b@],
                    Option::None => false,
                }) && git_cwd(a) == self.project_path@,
                _ => false,
            }),
            RemoveNext::ToRemoteDel => rows1 == rows0 && (self.st is AwaitRemoteDel) && (
            match step {
                Step::Run(a) => (match self.branch {
                    Option::Some(b) => git_args(a) == seq![
                        "push"@,
                        "origin"@,
                        "--delete"@,
                        remote_branch_of(b@),
                    ],
                    Option::None => false,
                }) && git_cwd(a) == self.project_path@,
                _ => false,
            }),
            RemoveNext::Finish => (self.st is Finished) && (match step {
                Step::Done(res) => res is Ok,
                _ => false,
            }) && (if self.had_entry {
                lookup(rows1, self.worktree_id@) is None && (forall|id2: Seq<char>|
                    id2 != self.worktree_id@ ==> lookup(rows1, id2) == lookup(rows0, id2))
            } else {
                rows1 == rows0
            }),
        }
    }

    /// Begin a removal: resolve the target path and branch, preferring the
    /// registry's record over the explicit arguments, and ask for the forced
    /// worktree removal.
    pub fn start(
        reg: &WorktreeState,
        project_path: &str,
        worktree_id: &str,
        explicit_path: Option<String>,
        explicit_branch: Option<String>,
    ) -> (r: (RemoveFlow, Step<()>))
        requires
            reg.wf(),
        ensures
            r.0.wf(),
            r.0.project_path@ == project_path@,
            r.0.worktree_id@ == worktree_id@,
            ({
                let pt = trimmed_edges(project_path@, TrimClass::Space);
                let looked = lookup(reg.rows(), worktree_id@);
                let resolved_path: Seq<char> = match looked {
                    Option::Some(iv) => iv.path,
                    Option::None => match explicit_path {
                        Option::Some(p) => p@,
                        Option::None => Seq::empty(),
                    },
                };
                let resolved_branch: Option<Seq<char>> = match looked {
                    Option::Some(iv) => Option::Some(iv.branch),
                    Option::None => match explicit_branch {
                        Option::Some(b) => Option::Some(b@),
                        Option::None => Option::None,
                    },
                };
                if pt.len() == 0 {
                    (match r.1 {
                        Step::Done(res) => match res {
                            Result::Ok(_) => false,
                            Result::Err(we) => (we is InvalidArgument) && we.text()
                                == "projectPath is required"@,
                        },
                        _ => false,
                    })
                } else if trimmed_edges(resolved_path, TrimClass::Space).len() == 0 {
                    (match r.1 {
                        Step::Done(res) => match res {
                            Result::Ok(_) => false,
                            Result::Err(we) => (we is InvalidArgument) && we.text()
                                == "Worktree path not provided"@,
                        },
                        _ => false,
                    })
                } else {
                    r.0.path@ == resolved_path && r.0.branch_view() == resolved_branch
                        && r.0.had_entry == (looked is Some) && (r.0.st is AwaitWtRemove) && (
                    match r.1 {
                        Step::Run(a) => git_args(&a) == seq![
                            "worktree"@,
                            "remove"@,
                            "--force"@,
                            resolved_path,
                        ] && git_cwd(&a) == project_path@,
                        _ => false,
                    })
                }
            }),
    {
        let ppv = chars_of(project_path);
        let ppt = trim_edges(&ppv, TrimClass::Space);
        let mut flow = RemoveFlow {
            st: RemoveSt::Finished,
            project_path: project_path.to_owned(),
            worktree_id: worktree_id.to_owned(),
            path: "".to_owned(),
            branch: None,
            had_entry: false,
        };
        if ppt.len() == 0 {
            return (flow, Step::Done(Err(WtError::InvalidArgument(
                "projectPath is required".to_owned(),
            ))));
        }
        let looked = reg.get(worktree_id);
        match looked {
            Some(info) => {
                flow.path = info.path;
                flow.branch = Some(info.branch);
                flow.had_entry = true;
            },
            None => {
                flow.path = match explicit_path {
                    Some(p) => p,
                    None => "".to_owned(),
                };
                flow.branch = explicit_branch;
                flow.had_entry = false;
            },
        }
        proof {
            reveal_strlit("");
        }
        let pv = chars_of(flow.path.as_str());
        let pvt = trim_edges(&pv, TrimClass::Space);
        if pvt.len() == 0 {
            return (flow, Step::Done(Err(WtError::InvalidArgument(
                "Worktree path not provided".to_owned(),
            ))));
        }
        let mut args: Vec<String> = Vec::new();
        crate::effects::push_arg(&mut args, "worktree");
        crate::effects::push_arg(&mut args, "remove");
        crate::effects::push_arg(&mut args, "--force");
        args.push(flow.path.clone());
        proof {
            assert(args@.map_values(|x: String| x@) =~= seq![
                "worktree"@,
                "remove"@,
                "--force"@,
                flow.path@,
            ]);
        }
        flow.st = RemoveSt::AwaitWtRemove;
        let cwd = flow.project_path.clone();
        (flow, Step::Run(Action::RunGit { args, cwd }))
    }

    fn prune_action(&self) -> (a: Action)
        ensures
            git_args(&a) == seq!["worktree"@, "prune"@, "--verbose"@],
            git_cwd(&a) == self.project_path@,
    {
        let mut args: Vec<String> = Vec::new();
        crate::effects::push_arg(&mut args, "worktree");
        crate::effects::push_arg(&mut args, "prune");
        crate::effects::push_arg(&mut args, "--verbose");
        proof {
            assert(args@.map_values(|x: String| x@) =~= seq![
                "worktree"@,
                "prune"@,
                "--verbose"@,
            ]);
        }
        Action::RunGit { args, cwd: self.project_path.clone() }
    }

    fn branch_del_action(&self) -> (a: Action)
        requires
            self.branch is Some,
        ensures
            (match self.branch {
                Option::Some(b) => git_args(&a) == seq!["branch"@, "-D"@, b@],
                Option::None => false,
            }),
            git_cwd(&a) == self.project_path@,
    {
        let b: String = match &self.branch {
            Some(b) => b.clone(),
            None => vstd::pervasive::unreached(),
        };
        let mut args: Vec<String> = Vec::new();
        crate::effects::push_arg(&mut args, "branch");
        crate::effects::push_arg(&mut args, "-D");
        let ghost bv = b@;
        args.push(b);
        proof {
            assert(args@.map_values(|x: String| x@) =~= seq!["branch"@, "-D"@, bv]);
        }
        Action::RunGit { args, cwd: self.project_path.clone() }
    }

    /// After the directory phase: delete the branch if one is known, else
    /// drop the registry entry and finish.
    fn after_dir(&mut self, reg: &mut WorktreeState) -> (step: Step<()>)
        requires
            old(reg).wf(),
        ensures
            final(self).wf(),
            final(self).project_path@ == old(self).project_path@,
            final(self).worktree_id@ == old(self).worktree_id@,
            final(self).path@ == old(self).path@,
            final(self).branch_view() == old(self).branch_view(),
            final(self).had_entry == old(self).had_entry,
            final(reg).wf(),
            final(self).emits(
                &step,
                old(reg).rows(),
                final(reg).rows(),
                remove_after_dir(old(self).branch_view()),
            ),
    {
        if self.branch.is_some() {
            let a = self.branch_del_action();
            self.st = RemoveSt::AwaitBranchDel;
            Step::Run(a)
        } else {
            self.finish(reg)
        }
    }

    /// Drop the registry entry, when one was found at the start, and finish.
    fn finish(&mut self, reg: &mut WorktreeState) -> (step: Step<()>)
        requires
            old(reg).wf(),
        ensures
            final(self).wf(),
            final(self).project_path@ == old(self).project_path@,
            final(self).worktree_id@ == old(self).worktree_id@,
            final(self).path@ == old(self).path@,
            final(self).branch_view() == old(self).branch_view(),
            final(self).had_entry == old(self).had_entry,
            final(reg).wf(),
            final(self).emits(&step, old(reg).rows(), final(reg).rows(), RemoveNext::Finish),
    {
        if self.had_entry {
            let _ = reg.remove_id(self.worktree_id.as_str());
        }
        self.st = RemoveSt::Finished;
        Step::Done(Ok(()))
    }

    /// Feed back the outcome of the action the flow last asked for.
    pub fn on_event(&mut self, reg: &mut WorktreeState, ev: &Event) -> (step: Step<()>)
        requires
            old(reg).wf(),
            old(self).wf(),
            old(self).expects(ev),
        ensures
            final(self).wf(),
            final(self).project_path@ == old(self).project_path@,
            final(self).worktree_id@ == old(self).worktree_id@,
            final(self).path@ == old(self).path@,
            final(self).branch_view() == old(self).branch_view(),
            final(self).had_entry == old(self).had_entry,
            final(reg).wf(),
            final(self).emits(
                &step,
                old(reg).rows(),
                final(reg).rows(),
                remove_on_next(old(self).st, old(self).branch_view(), ev),
            ),
    {
        let mut st = RemoveSt::Finished;
        core::mem::swap(&mut st, &mut self.st);
        match st {
            RemoveSt::AwaitWtRemove => {
                let a = self.prune_action();
                self.st = RemoveSt::AwaitPrune1;
                Step::Run(a)
            },
            RemoveSt::AwaitPrune1 => {
                self.st = RemoveSt::AwaitPathCheck;
                Step::Run(Action::CheckPath { path: self.path.clone() })
            },
            RemoveSt::AwaitPathCheck => {
                let exists: bool = match ev {
                    Event::PathInfo { exists, .. } => *exists,
                    _ => vstd::pervasive::unreached(),
                };
                if exists {
                    self.st = RemoveSt::AwaitRm1;
                    Step::Run(Action::RemoveDirAll { path: self.path.clone() })
                } else {
                    self.after_dir(reg)
                }
            },
            RemoveSt::AwaitRm1 => {
                let (ok, error): (bool, &String) = match ev {
                    Event::FsDone { ok, error } => (*ok, error),
                    _ => vstd::pervasive::unreached(),
                };
                if ok {
                    self.after_dir(reg)
                } else {
                    self.st = RemoveSt::AwaitChmod { err: error.clone() };
                    Step::Run(Action::GrantWrite { path: self.path.clone() })
                }
            },
            RemoveSt::AwaitChmod { err } => {
                self.st = RemoveSt::AwaitRm2 { err };
                Step::Run(Action::RemoveDirAll { path: self.path.clone() })
            },
            RemoveSt::AwaitRm2 { err } => {
                let ok: bool = match ev {
                    Event::FsDone { ok, .. } => *ok,
                    _ => vstd::pervasive::unreached(),
                };
                if ok {
                    self.after_dir(reg)
                } else {
                    self.st = RemoveSt::Finished;
                    Step::Done(Err(WtError::RemovalFailed(err)))
                }
            },
            RemoveSt::AwaitBranchDel => {
                let (ok, error): (bool, &String) = match ev {
                    Event::Ran { ok, error, .. } => (*ok, error),
                    _ => vstd::pervasive::unreached(),
                };
                let ev_chars = chars_of(error.as_str());
                let mark = chars_of("checked out at");
                if !ok && has_sub(&ev_chars, &mark) {
                    let a = self.prune_action();
                    self.st = RemoveSt::AwaitPrune2;
                    Step::Run(a)
                } else {
                    self.remote_del_step()
                }
            },
            RemoveSt::AwaitPrune2 => {
                let a = self.branch_del_action();
                self.st = RemoveSt::AwaitBranchDel2;
                Step::Run(a)
            },
            RemoveSt::AwaitBranchDel2 => self.remote_del_step(),
            RemoveSt::AwaitRemoteDel => self.finish(reg),
            RemoveSt::Finished => vstd::pervasive::unreached(),
        }
    }

    fn remote_del_step(&mut self) -> (step: Step<()>)
        requires
            old(self).branch is Some,
        ensures
            final(self).wf(),
            final(self).project_path@ == old(self).project_path@,
            final(self).worktree_id@ == old(self).worktree_id@,
            final(self).path@ == old(self).path@,
            final(self).branch_view() == old(self).branch_view(),
            final(self).had_entry == old(self).had_entry,
            final(self).st is AwaitRemoteDel,
            (match step {
                Step::Run(a) => (match final(self).branch {
                    Option::Some(b) => git_args(&a) == seq![
                        "push"@,
                        "origin"@,
                        "--delete"@,
                        remote_branch_of(b@),
                    ],
                    Option::None => false,
                }) && git_cwd(&a) == final(self).project_path@,
                _ => false,
            }),
    {
        let b: String = match &self.branch {
            Some(b) => b.clone(),
            None => vstd::pervasive::unreached(),
        };
        let bv = chars_of(b.as_str());
        let pref = chars_of("origin/");
        let remote_branch: String = if matches_at(&bv, &pref, 0) {
            proof {
                reveal_strlit("origin/");
                assert(pref@.len() == 7);
            }
            let rest = sub_chars(&bv, 7, bv.len());
            proof {
                assert(rest@ =~= bv@.skip(7));
            }
            crate::chars::string_from_chars(&rest)
        } else {
            b
        };
        let mut args: Vec<String> = Vec::new();
        crate::effects::push_arg(&mut args, "push");
        crate::effects::push_arg(&mut args, "origin");
        crate::effects::push_arg(&mut args, "--delete");
        let ghost rbv = remote_branch@;
        args.push(remote_branch);
        proof {
            assert(args@.map_values(|x: String| x@) =~= seq![
                "push"@,
                "origin"@,
                "--delete"@,
                rbv,
            ]);
        }
        self.st = RemoveSt::AwaitRemoteDel;
        Step::Run(Action::RunGit { args, cwd: self.project_path.clone() })
    }
}

/// Law: once the directory probe finds nothing on disk, a removal issues only
/// version-control tool invocations from there on — never a directory
/// deletion, a permission grant or a file write — and it cannot fail: every
/// later state steps to another tool invocation or to success. A second
/// removal of an already-removed workspace therefore succeeds with no
/// further filesystem mutation.
pub proof fn lemma_remove_idempotent(branch: Option<Seq<char>>, ev: &Event, ev2: &Event)
    requires
        !path_exists(ev),
    ensures
        remove_on_next(RemoveSt::AwaitPathCheck, branch, ev) == remove_after_dir(branch),
        forall|st: RemoveSt, e: &Event|
            #[trigger] remove_on_next(st, branch, e) == RemoveNext::ToRm1 ==> (
            st is AwaitPathCheck && path_exists(e)),
        forall|st: RemoveSt, e: &Event|
            (#[trigger] remove_on_next(st, branch, e)) is ToChmod ==> st is AwaitRm1,
        forall|st: RemoveSt, e: &Event|
            (#[trigger] remove_on_next(st, branch, e)) is FailRemoval ==> st is AwaitRm2,
        (match remove_after_dir(branch) {
            RemoveNext::ToBranchDel => branch is Some,
            RemoveNext::Finish => branch is None,
            _ => false,
        }),
{
}

} // verus!
