//! Creating a workspace: validate the inputs, render a branch name, pick a
//! target directory, resolve and fetch the base ref, add the worktree, run
//! the hygiene pass, register the record and optionally push the branch
//! upstream. Any failure before registration aborts with no partial
//! workspace and the registry untouched.

use vstd::prelude::*;

use crate::baseref::{
    default_remote_of, fetch_action_matches, fetch_on_next, ran_err, ran_ok,
    resolve_action_matches, resolve_on_next, resolve_start_next, BaseRefInfo, FetchFlow,
    FetchNext, ResolveFlow, ResolveNext,
};
use crate::chars::{chars_of, string_from_chars, trim_edges, trimmed_edges, TrimClass};
use crate::clock::{now_rfc3339, now_timestamp_millis};
use crate::effects::{git_args, git_cwd, Action, Event, RowView, Step, WtError};
use crate::hygiene::{exclude_action_matches, exclude_on_next, path_exists, ExcludeFlow, ExcludeNext};
use crate::identity::{id_prefix, stable_id_from_path};
use crate::naming::{render_branch_template, rendered_branch, slugified, slugify};
use crate::numbers::i64_dec_string;
use crate::registry::{dup_info, lookup, InfoView, WorktreeInfo, WorktreeState};
use crate::remove::{fs_err, fs_ok};

verus! {

pub open spec fn path_conflict_text(p: Seq<char>) -> Seq<char> {
    "Worktree directory already exists: "@ + p
}

pub open spec fn dir_not_created_text(p: Seq<char>) -> Seq<char> {
    "Worktree directory was not created: "@ + p
}

fn path_conflict_msg(p: &str) -> (r: String)
    ensures
        r@ == path_conflict_text(p@),
{
    let mut m: String = "Worktree directory already exists: ".to_owned();
    m.append(p);
    m
}

fn dir_not_created_msg(p: &str) -> (r: String)
    ensures
        r@ == dir_not_created_text(p@),
{
    let mut m: String = "Worktree directory was not created: ".to_owned();
    m.append(p);
    m
}

pub open spec fn row_of_event(ev: &Event) -> RowView {
    match ev {
        Event::SettingsRow { row, .. } => row@,
        _ => RowView { git_remote: Option::None, git_branch: Option::None, base_ref: Option::None },
    }
}

pub open spec fn row_ok(ev: &Event) -> bool {
    match ev {
        Event::SettingsRow { ok, .. } => *ok,
        _ => false,
    }
}

pub open spec fn row_err(ev: &Event) -> Seq<char> {
    match ev {
        Event::SettingsRow { error, .. } => error@,
        _ => Seq::empty(),
    }
}

/// Where a creation stands.
pub enum CreateSt {
    /// The target directory is being probed for a conflict.
    AwaitTargetCheck,
    /// The `worktrees` parent directory is being created.
    AwaitParent,
    /// The project's settings row is being fetched.
    AwaitRow,
    /// The base ref is being resolved.
    Resolving(ResolveFlow),
    /// The base ref is being fetched, with fallback.
    Fetching(FetchFlow),
    /// `git worktree add` is running.
    AwaitAdd,
    /// The new directory is being probed after the add.
    AwaitVerify,
    /// The exclude-file hygiene pass is running.
    Excluding(ExcludeFlow),
    /// The agent-settings file is being merged; the outcome is ignored.
    AwaitApprove,
    /// The best-effort upstream push is running; the outcome is ignored.
    AwaitPush { info: WorktreeInfo },
    Finished,
}

/// Creates one workspace.
pub struct CreateFlow {
    pub st: CreateSt,
    pub project_path: String,
    pub task_name: String,
    pub project_id: String,
    pub auto_approve: bool,
    pub push_on_create: bool,
    pub slug: String,
    pub timestamp: String,
    pub branch: String,
    pub wt_path: String,
    pub parent_dir: String,
}

impl CreateFlow {
    /// Inner flows are live and bound to this creation's paths.
    pub open spec fn wf(&self) -> bool {
        match self.st {
            CreateSt::Resolving(rf) => !(rf.st is Finished) && rf.project_path@
                == self.project_path@,
            CreateSt::Fetching(ff) => !(ff.st is Finished) && ff.project_path@
                == self.project_path@ && ff.project_id@ == self.project_id@,
            CreateSt::Excluding(xf) => !(xf.st is Finished) && xf.wt_path@ == self.wt_path@,
            _ => true,
        }
    }

    /// Which event the flow's pending action is answered with.
    pub open spec fn expects(&self, ev: &Event) -> bool {
        match self.st {
            CreateSt::AwaitTargetCheck => ev is PathInfo,
            CreateSt::AwaitParent => ev is FsDone,
            CreateSt::AwaitRow => ev is SettingsRow,
            CreateSt::Resolving(_) => ev is Ran,
            CreateSt::Fetching(ff) => if ff.st is AwaitPersist {
                true
            } else {
                ev is Ran
            },
            CreateSt::AwaitAdd => ev is Ran,
            CreateSt::AwaitVerify => ev is PathInfo,
            CreateSt::Excluding(xf) => xf.expects(ev),
            CreateSt::AwaitApprove => ev is FsDone,
            CreateSt::AwaitPush { .. } => ev is Ran,
            CreateSt::Finished => false,
        }
    }

    /// What a freshly registered record promises, beside being registered.
    pub open spec fn fresh_record(&self, v: InfoView) -> bool {
        v.path == self.wt_path@ && v.branch == self.branch@ && v.name == self.task_name@
            && v.project_id == self.project_id@ && v.status == "active"@ && v.last_activity is None
            && v.id.len() == 15 && v.id.take(3) == id_prefix()
    }

    /// The registry gained exactly this record.
    pub open spec fn registered(
        &self,
        rows0: Seq<WorktreeInfo>,
        rows1: Seq<WorktreeInfo>,
        v: InfoView,
    ) -> bool {
        lookup(rows1, v.id) == Option::Some(v) && (forall|id2: Seq<char>|
            id2 != v.id ==> lookup(rows1, id2) == lookup(rows0, id2))
    }

    /// The flow just entered resolver step `nx`, or — when the resolver
    /// answered at once — moved straight to fetching its answer.
    pub open spec fn resolve_progress(
        &self,
        nx: ResolveNext,
        step: &Step<WorktreeInfo>,
        dr: Seq<char>,
        base_ref: Option<Seq<char>>,
        git_branch: Option<Seq<char>>,
    ) -> bool {
        match nx {
            ResolveNext::Finish(v) => (match self.st {
                CreateSt::Fetching(ff) => (ff.st is AwaitFetch) && ff.base@ == v
                    && ff.project_path@ == self.project_path@ && ff.project_id@
                    == self.project_id@,
                _ => false,
            }) && (match step {
                Step::Run(a) => git_args(a) == seq!["fetch"@, v.remote, v.branch] && git_cwd(a)
                    == self.project_path@,
                _ => false,
            }),
            _ => (match self.st {
                CreateSt::Resolving(rf) => rf.at(nx) && rf.project_path@ == self.project_path@
                    && rf.default_remote@ == dr && rf.base_ref_view() == base_ref
                    && rf.git_branch_view() == git_branch,
                _ => false,
            }) && (match step {
                Step::Run(a) => resolve_action_matches(a, nx, self.project_path@),
                _ => false,
            }),
        }
    }

    /// The flow just entered fetch step `nx`, or — when the fetch concluded
    /// — moved on to the worktree add, or failed with the fetch's error.
    pub open spec fn fetch_progress(
        &self,
        nx: FetchNext,
        step: &Step<WorktreeInfo>,
        base: crate::baseref::RefView,
    ) -> bool {
        match nx {
            FetchNext::Granted(v) => (self.st is AwaitAdd) && (match step {
                Step::Run(a) => git_args(a) == seq![
                    "worktree"@,
                    "add"@,
                    "-b"@,
                    self.branch@,
                    self.wt_path@,
                    v.full_ref,
                ] && git_cwd(a) == self.project_path@,
                _ => false,
            }),
            FetchNext::Failed(t) => (self.st is Finished) && (match step {
                Step::Done(res) => match res {
                    Result::Ok(_) => false,
                    Result::Err(we) => (we is FetchFailed) && we.text() == t,
                },
                _ => false,
            }),
            _ => (match self.st {
                CreateSt::Fetching(ff) => ff.at(nx) && ff.base@ == base && ff.project_path@
                    == self.project_path@ && ff.project_id@ == self.project_id@,
                _ => false,
            }) && (match step {
                Step::Run(a) => fetch_action_matches(a, nx, self.project_path@, self.project_id@),
                _ => false,
            }),
        }
    }

    /// The workspace was registered; the flow is pushing upstream or done.
    pub open spec fn register_outcome(
        &self,
        rows0: Seq<WorktreeInfo>,
        rows1: Seq<WorktreeInfo>,
        step: &Step<WorktreeInfo>,
    ) -> bool {
        if self.push_on_create {
            match self.st {
                CreateSt::AwaitPush { info } => self.fresh_record(info@) && self.registered(
                    rows0,
                    rows1,
                    info@,
                ) && (match step {
                    Step::Run(a) => git_args(a) == seq![
                        "push"@,
                        "--set-upstream"@,
                        "origin"@,
                        self.branch@,
                    ] && git_cwd(a) == self.wt_path@,
                    _ => false,
                }),
                _ => false,
            }
        } else {
            (self.st is Finished) && (match step {
                Step::Done(res) => match res {
                    Result::Ok(info) => self.fresh_record(info@) && self.registered(
                        rows0,
                        rows1,
                        info@,
                    ),
                    Result::Err(_) => false,
                },
                _ => false,
            })
        }
    }

    /// The flow just entered hygiene step `nx`, or — when the pass is done —
    /// wrote the agent settings or registered the workspace.
    pub open spec fn exclude_progress(
        &self,
        nx: ExcludeNext,
        step: &Step<WorktreeInfo>,
        rows0: Seq<WorktreeInfo>,
        rows1: Seq<WorktreeInfo>,
    ) -> bool {
        match nx {
            ExcludeNext::Finish => if self.auto_approve {
                rows1 == rows0 && (self.st is AwaitApprove) && (match step {
                    Step::Run(a) => match a {
                        Action::WriteAgentSettings { dir } => dir@ == self.wt_path@,
                        _ => false,
                    },
                    _ => false,
                })
            } else {
                self.register_outcome(rows0, rows1, step)
            },
            _ => rows1 == rows0 && (match self.st {
                CreateSt::Excluding(xf) => xf.at(nx) && xf.wt_path@ == self.wt_path@,
                _ => false,
            }) && (match step {
                Step::Run(a) => exclude_action_matches(a, nx, self.wt_path@),
                _ => false,
            }),
        }
    }

    /// Begin a creation: validate the inputs and derive the branch name and
    /// target path, then probe the target for a conflict.
    pub fn start(
        project_path: &str,
        task_name: &str,
        project_id: &str,
        auto_approve: bool,
        template: &str,
        push_on_create: bool,
    ) -> (r: (CreateFlow, Step<WorktreeInfo>))
        ensures
            r.0.wf(),
            ({
                let pt = trimmed_edges(project_path@, TrimClass::Space);
                let tt = trimmed_edges(task_name@, TrimClass::Space);
                let it = trimmed_edges(project_id@, TrimClass::Space);
                if pt.len() == 0 || tt.len() == 0 || it.len() == 0 {
                    (match r.1 {
                        Step::Done(res) => match res {
                            Result::Ok(_) => false,
                            Result::Err(we) => (we is InvalidArgument) && we.text()
                                == "Missing required parameters"@,
                        },
                        _ => false,
                    })
                } else {
                    r.0.project_path@ == pt && r.0.task_name@ == tt && r.0.project_id@ == it
                        && r.0.auto_approve == auto_approve && r.0.push_on_create == push_on_create
                        && r.0.slug@ == slugified(tt) && r.0.branch@ == rendered_branch(
                        template@,
                        r.0.slug@,
                        r.0.timestamp@,
                    ) && r.0.parent_dir@ == pt + "/../worktrees"@ && r.0.wt_path@ == pt
                        + "/../worktrees/"@ + r.0.slug@ + "-"@ + r.0.timestamp@ && (r.0.st
                        is AwaitTargetCheck) && (match r.1 {
                        Step::Run(a) => match a {
                            Action::CheckPath { path } => path@ == r.0.wt_path@,
                            _ => false,
                        },
                        _ => false,
                    })
                }
            }),
    {
        let ppv = chars_of(project_path);
        let ppt = trim_edges(&ppv, TrimClass::Space);
        let tnv = chars_of(task_name);
        let tnt = trim_edges(&tnv, TrimClass::Space);
        let piv = chars_of(project_id);
        let pit = trim_edges(&piv, TrimClass::Space);
        if ppt.len() == 0 || tnt.len() == 0 || pit.len() == 0 {
            let flow = CreateFlow {
                st: CreateSt::Finished,
                project_path: project_path.to_owned(),
                task_name: task_name.to_owned(),
                project_id: project_id.to_owned(),
                auto_approve,
                push_on_create,
                slug: "".to_owned(),
                timestamp: "".to_owned(),
                branch: "".to_owned(),
                wt_path: "".to_owned(),
                parent_dir: "".to_owned(),
            };
            return (flow, Step::Done(Err(WtError::InvalidArgument(
                "Missing required parameters".to_owned(),
            ))));
        }
        let pp = string_from_chars(&ppt);
        let tn = string_from_chars(&tnt);
        let pid = string_from_chars(&pit);
        let slug = slugify(tn.as_str());
        let ts = i64_dec_string(now_timestamp_millis());
        let branch = render_branch_template(template, slug.as_str(), ts.as_str());
        let mut parent: String = pp.clone();
        parent.append("/../worktrees");
        let mut wt_path: String = pp.clone();
        wt_path.append("/../worktrees/");
        wt_path.append(slug.as_str());
        wt_path.append("-");
        wt_path.append(ts.as_str());
        let probe = wt_path.clone();
        let flow = CreateFlow {
            st: CreateSt::AwaitTargetCheck,
            project_path: pp,
            task_name: tn,
            project_id: pid,
            auto_approve,
            push_on_create,
            slug,
            timestamp: ts,
            branch,
            wt_path,
            parent_dir: parent,
        };
        (flow, Step::Run(Action::CheckPath { path: probe }))
    }

    /// All the creation's own fields but the state, preserved by every step.
    pub open spec fn same_frame(&self, other: &CreateFlow) -> bool {
        self.project_path@ == other.project_path@ && self.task_name@ == other.task_name@
            && self.project_id@ == other.project_id@ && self.auto_approve == other.auto_approve
            && self.push_on_create == other.push_on_create && self.slug@ == other.slug@
            && self.timestamp@ == other.timestamp@ && self.branch@ == other.branch@
            && self.wt_path@ == other.wt_path@ && self.parent_dir@ == other.parent_dir@
    }

    /// Register the fresh workspace and either push its branch upstream or
    /// finish at once.
    fn register(&mut self, reg: &mut WorktreeState) -> (step: Step<WorktreeInfo>)
        requires
            old(reg).wf(),
        ensures
            final(self).wf(),
            final(reg).wf(),
            final(self).same_frame(old(self)),
            final(self).register_outcome(old(reg).rows(), final(reg).rows(), &step),
    {
        let id = stable_id_from_path(self.wt_path.as_str());
        let info = WorktreeInfo {
            id,
            name: self.task_name.clone(),
            branch: self.branch.clone(),
            path: self.wt_path.clone(),
            project_id: self.project_id.clone(),
            status: "active".to_owned(),
            created_at: now_rfc3339(),
            last_activity: None,
        };
        let kept = dup_info(&info);
        reg.insert(kept);
        if self.push_on_create {
            let mut args: Vec<String> = Vec::new();
            crate::effects::push_arg(&mut args, "push");
            crate::effects::push_arg(&mut args, "--set-upstream");
            crate::effects::push_arg(&mut args, "origin");
            args.push(self.branch.clone());
            proof {
                assert(args@.map_values(|x: String| x@) =~= seq![
                    "push"@,
                    "--set-upstream"@,
                    "origin"@,
                    self.branch@,
                ]);
            }
            let cwd = self.wt_path.clone();
            self.st = CreateSt::AwaitPush { info };
            Step::Run(Action::RunGit { args, cwd })
        } else {
            self.st = CreateSt::Finished;
            Step::Done(Ok(info))
        }
    }

    /// Begin fetching a resolved base ref.
    fn begin_fetch(&mut self, base: BaseRefInfo) -> (step: Step<WorktreeInfo>)
        ensures
            final(self).wf(),
            final(self).same_frame(old(self)),
            final(self).resolve_progress(
                ResolveNext::Finish(base@),
                &step,
                Seq::empty(),
                Option::None,
                Option::None,
            ),
    {
        let (ff, fstep) = FetchFlow::start(
            self.project_path.as_str(),
            self.project_id.as_str(),
            base,
        );
        self.st = CreateSt::Fetching(ff);
        match fstep {
            Step::Run(a) => Step::Run(a),
            Step::Done(_) => vstd::pervasive::unreached(),
        }
    }

    /// After the hygiene pass: merge the agent settings when asked to, else
    /// register at once.
    fn approve_or_register(&mut self, reg: &mut WorktreeState) -> (step: Step<WorktreeInfo>)
        requires
            old(reg).wf(),
        ensures
            final(self).wf(),
            final(reg).wf(),
            final(self).same_frame(old(self)),
            final(self).exclude_progress(
                ExcludeNext::Finish,
                &step,
                old(reg).rows(),
                final(reg).rows(),
            ),
    {
        if self.auto_approve {
            let dir: String = self.wt_path.clone();
            self.st = CreateSt::AwaitApprove;
            Step::Run(Action::WriteAgentSettings { dir })
        } else {
            self.register(reg)
        }
    }

    /// Feed back the outcome of the action the flow last asked for. The
    /// registry is written exactly once, at registration; every failure
    /// before that leaves it untouched.
    pub fn on_event(&mut self, reg: &mut WorktreeState, ev: &Event) -> (step: Step<WorktreeInfo>)
        requires
            old(reg).wf(),
            old(self).wf(),
            old(self).expects(ev),
        ensures
            final(self).wf(),
            final(reg).wf(),
            final(self).same_frame(old(self)),
            (match old(self).st {
                CreateSt::AwaitTargetCheck => final(reg).rows() == old(reg).rows() && (
                if path_exists(ev) {
                    (final(self).st is Finished) && (match step {
                        Step::Done(res) => match res {
                            Result::Ok(_) => false,
                            Result::Err(we) => (we is PathConflict) && we.text()
                                == path_conflict_text(old(self).wt_path@),
                        },
                        _ => false,
                    })
                } else {
                    (final(self).st is AwaitParent) && (match step {
                        Step::Run(a) => match a {
                            Action::CreateDirAll { path } => path@ == old(self).parent_dir@,
                            _ => false,
                        },
                        _ => false,
                    })
                }),
                CreateSt::AwaitParent => final(reg).rows() == old(reg).rows() && (if fs_ok(ev) {
                    (final(self).st is AwaitRow) && (match step {
                        Step::Run(a) => match a {
                            Action::FetchSettingsRow { project_id } => project_id@ == old(
                                self,
                            ).project_id@,
                            _ => false,
                        },
                        _ => false,
                    })
                } else {
                    (final(self).st is Finished) && (match step {
                        Step::Done(res) => match res {
                            Result::Ok(_) => false,
                            Result::Err(we) => (we is CommandFailed) && we.text() == fs_err(ev),
                        },
                        _ => false,
                    })
                }),
                CreateSt::AwaitRow => final(reg).rows() == old(reg).rows() && (if row_ok(ev) {
                    final(self).resolve_progress(
                        resolve_start_next(
                            default_remote_of(row_of_event(ev)),
                            row_of_event(ev).base_ref,
                            row_of_event(ev).git_branch,
                        ),
                        &step,
                        default_remote_of(row_of_event(ev)),
                        row_of_event(ev).base_ref,
                        row_of_event(ev).git_branch,
                    )
                } else {
                    (final(self).st is Finished) && (match step {
                        Step::Done(res) => match res {
                            Result::Ok(_) => false,
                            Result::Err(we) => (we is CommandFailed) && we.text() == row_err(ev),
                        },
                        _ => false,
                    })
                }),
                CreateSt::Resolving(rf) => final(reg).rows() == old(reg).rows()
                    && final(self).resolve_progress(
                    resolve_on_next(
                        rf.st,
                        rf.default_remote@,
                        rf.base_ref_view(),
                        rf.git_branch_view(),
                        ev,
                    ),
                    &step,
                    rf.default_remote@,
                    rf.base_ref_view(),
                    rf.git_branch_view(),
                ),
                CreateSt::Fetching(ff) => final(reg).rows() == old(reg).rows()
                    && final(self).fetch_progress(fetch_on_next(ff.st, ff.base@, ev), &step, ff.base@),
                CreateSt::AwaitAdd => final(reg).rows() == old(reg).rows() && (if ran_ok(ev) {
                    (final(self).st is AwaitVerify) && (match step {
                        Step::Run(a) => match a {
                            Action::CheckPath { path } => path@ == old(self).wt_path@,
                            _ => false,
                        },
                        _ => false,
                    })
                } else {
                    (final(self).st is Finished) && (match step {
                        Step::Done(res) => match res {
                            Result::Ok(_) => false,
                            Result::Err(we) => (we is CommandFailed) && we.text() == ran_err(ev),
                        },
                        _ => false,
                    })
                }),
                CreateSt::AwaitVerify => final(reg).rows() == old(reg).rows() && (if path_exists(
                    ev,
                ) {
                    (match final(self).st {
                        CreateSt::Excluding(xf) => (xf.st is AwaitGitProbe) && xf.wt_path@ == old(
                            self,
                        ).wt_path@,
                        _ => false,
                    }) && (match step {
                        Step::Run(a) => match a {
                            Action::CheckPath { path } => path@ == old(self).wt_path@ + "/.git"@,
                            _ => false,
                        },
                        _ => false,
                    })
                } else {
                    (final(self).st is Finished) && (match step {
                        Step::Done(res) => match res {
                            Result::Ok(_) => false,
                            Result::Err(we) => (we is DirectoryNotCreated) && we.text()
                                == dir_not_created_text(old(self).wt_path@),
                        },
                        _ => false,
                    })
                }),
                CreateSt::Excluding(xf) => final(self).exclude_progress(
                    exclude_on_next(xf.st, xf.wt_path@, ev),
                    &step,
                    old(reg).rows(),
                    final(reg).rows(),
                ),
                CreateSt::AwaitApprove => final(self).register_outcome(
                    old(reg).rows(),
                    final(reg).rows(),
                    &step,
                ),
                CreateSt::AwaitPush { info } => final(reg).rows() == old(reg).rows()
                    && (final(self).st is Finished) && (match step {
                    Step::Done(res) => match res {
                        Result::Ok(out) => out@ == info@,
                        Result::Err(_) => false,
                    },
                    _ => false,
                }),
                CreateSt::Finished => false,
            }),
    {
        let mut st = CreateSt::Finished;
        core::mem::swap(&mut st, &mut self.st);
        match st {
            CreateSt::AwaitTargetCheck => {
                let exists: bool = match ev {
                    Event::PathInfo { exists, .. } => *exists,
                    _ => vstd::pervasive::unreached(),
                };
                if exists {
                    self.st = CreateSt::Finished;
                    let m = path_conflict_msg(self.wt_path.as_str());
                    Step::Done(Err(WtError::PathConflict(m)))
                } else {
                    self.st = CreateSt::AwaitParent;
                    Step::Run(Action::CreateDirAll { path: self.parent_dir.clone() })
                }
            },
            CreateSt::AwaitParent => {
                let (ok, error): (bool, &String) = match ev {
                    Event::FsDone { ok, error } => (*ok, error),
                    _ => vstd::pervasive::unreached(),
                };
                if ok {
                    self.st = CreateSt::AwaitRow;
                    Step::Run(Action::FetchSettingsRow { project_id: self.project_id.clone() })
                } else {
                    self.st = CreateSt::Finished;
                    Step::Done(Err(WtError::CommandFailed(error.clone())))
                }
            },
            CreateSt::AwaitRow => {
                let (ok, row, error): (bool, &crate::effects::ProjectSettingsRow, &String) =
                    match ev {
                    Event::SettingsRow { ok, row, error } => (*ok, row, error),
                    _ => vstd::pervasive::unreached(),
                };
                if ok {
                    let (rf, rstep) = ResolveFlow::start(self.project_path.as_str(), row);
                    match rstep {
                        Step::Run(a) => {
                            self.st = CreateSt::Resolving(rf);
                            Step::Run(a)
                        },
                        Step::Done(res) => match res {
                            Ok(base) => self.begin_fetch(base),
                            Err(_) => vstd::pervasive::unreached(),
                        },
                    }
                } else {
                    self.st = CreateSt::Finished;
                    Step::Done(Err(WtError::CommandFailed(error.clone())))
                }
            },
            CreateSt::Resolving(mut rf) => {
                let rstep = rf.on_event(ev);
                match rstep {
                    Step::Run(a) => {
                        self.st = CreateSt::Resolving(rf);
                        Step::Run(a)
                    },
                    Step::Done(res) => match res {
                        Ok(base) => self.begin_fetch(base),
                        Err(_) => vstd::pervasive::unreached(),
                    },
                }
            },
            CreateSt::Fetching(mut ff) => {
                let fstep = ff.on_event(ev);
                match fstep {
                    Step::Run(a) => {
                        self.st = CreateSt::Fetching(ff);
                        Step::Run(a)
                    },
                    Step::Done(res) => match res {
                        Ok(base) => {
                            let mut args: Vec<String> = Vec::new();
                            crate::effects::push_arg(&mut args, "worktree");
                            crate::effects::push_arg(&mut args, "add");
                            crate::effects::push_arg(&mut args, "-b");
                            args.push(self.branch.clone());
                            args.push(self.wt_path.clone());
                            args.push(base.full_ref.clone());
                            proof {
                                assert(args@.map_values(|x: String| x@) =~= seq![
                                    "worktree"@,
                                    "add"@,
                                    "-b"@,
                                    self.branch@,
                                    self.wt_path@,
                                    base@.full_ref,
                                ]);
                            }
                            self.st = CreateSt::AwaitAdd;
                            let cwd = self.project_path.clone();
                            Step::Run(Action::RunGit { args, cwd })
                        },
                        Err(e) => {
                            self.st = CreateSt::Finished;
                            Step::Done(Err(e))
                        },
                    },
                }
            },
            CreateSt::AwaitAdd => {
                let (ok, error): (bool, &String) = match ev {
                    Event::Ran { ok, error, .. } => (*ok, error),
                    _ => vstd::pervasive::unreached(),
                };
                if ok {
                    self.st = CreateSt::AwaitVerify;
                    Step::Run(Action::CheckPath { path: self.wt_path.clone() })
                } else {
                    self.st = CreateSt::Finished;
                    Step::Done(Err(WtError::CommandFailed(error.clone())))
                }
            },
            CreateSt::AwaitVerify => {
                let exists: bool = match ev {
                    Event::PathInfo { exists, .. } => *exists,
                    _ => vstd::pervasive::unreached(),
                };
                if exists {
                    let (xf, xstep) = ExcludeFlow::start(self.wt_path.as_str());
                    self.st = CreateSt::Excluding(xf);
                    match xstep {
                        Step::Run(a) => Step::Run(a),
                        Step::Done(_) => vstd::pervasive::unreached(),
                    }
                } else {
                    self.st = CreateSt::Finished;
                    let m = dir_not_created_msg(self.wt_path.as_str());
                    Step::Done(Err(WtError::DirectoryNotCreated(m)))
                }
            },
            CreateSt::Excluding(mut xf) => {
                let xstep = xf.on_event(ev);
                match xstep {
                    Step::Run(a) => {
                        self.st = CreateSt::Excluding(xf);
                        Step::Run(a)
                    },
                    Step::Done(_) => self.approve_or_register(reg),
                }
            },
            CreateSt::AwaitApprove => {
                // the merge's outcome is ignored
                self.register(reg)
            },
            CreateSt::AwaitPush { info } => {
                // the push's outcome is ignored: the workspace is valid
                self.st = CreateSt::Finished;
                Step::Done(Ok(info))
            },
            CreateSt::Finished => vstd::pervasive::unreached(),
        }
    }
}

} // verus!

verus! {

/// `s` with every `/` replaced by `-`, the name a branch lends a task.
pub open spec fn dashed(s: Seq<char>) -> Seq<char> {
    s.map_values(|c: char| if c == '/' { '-' } else { c })
}

fn dash_slashes(h: &Vec<char>) -> (v: Vec<char>)
    ensures
        v@ == dashed(h@),
{
    let mut v: Vec<char> = Vec::new();
    let mut i: usize = 0;
    while i < h.len()
        invariant
            i <= h@.len(),
            v@ == dashed(h@.take(i as int)),
        decreases h@.len() - i,
    {
        let c = h[i];
        v.push(if c == '/' { '-' } else { c });
        proof {
            assert(v@ =~= dashed(h@.take(i + 1 as int)));
        }
        i = i + 1;
    }
    assert(h@.take(h@.len() as int) =~= h@);
    v
}

pub open spec fn add_branch_fail_text(branch: Seq<char>, err: Seq<char>) -> Seq<char> {
    "Failed to create worktree for branch "@ + branch + ": "@ + err
}

fn add_branch_fail_msg(branch: &str, err: &str) -> (r: String)
    ensures
        r@ == add_branch_fail_text(branch@, err@),
{
    let mut m: String = "Failed to create worktree for branch ".to_owned();
    m.append(branch);
    m.append(": ");
    m.append(err);
    m
}

/// The directory a path stands in: the text before the last `/`, empty when
/// there is none.
pub open spec fn parent_dir_of(p: Seq<char>) -> Seq<char> {
    if crate::listing::last_slash(p) >= 0 {
        p.take(crate::listing::last_slash(p))
    } else {
        Seq::empty()
    }
}

/// Where an adoption of an existing branch stands.
pub enum AdoptSt {
    /// The target directory is being probed for a conflict.
    AwaitTargetCheck,
    /// The parent directory is being created; the outcome is ignored.
    AwaitParent,
    /// `git worktree add` is running.
    AwaitAdd,
    /// The new directory is being probed after the add.
    AwaitVerify,
    /// The exclude-file hygiene pass is running.
    Excluding(ExcludeFlow),
    Finished,
}

/// Creates a workspace for an already existing branch.
pub struct CreateFromBranchFlow {
    pub st: AdoptSt,
    pub project_path: String,
    pub branch_name: String,
    pub project_id: String,
    pub name: String,
    pub wt_path: String,
}

impl CreateFromBranchFlow {
    pub open spec fn wf(&self) -> bool {
        match self.st {
            AdoptSt::Excluding(xf) => !(xf.st is Finished) && xf.wt_path@ == self.wt_path@,
            _ => true,
        }
    }

    /// Which event the flow's pending action is answered with.
    pub open spec fn expects(&self, ev: &Event) -> bool {
        match self.st {
            AdoptSt::AwaitTargetCheck => ev is PathInfo,
            AdoptSt::AwaitParent => ev is FsDone,
            AdoptSt::AwaitAdd => ev is Ran,
            AdoptSt::AwaitVerify => ev is PathInfo,
            AdoptSt::Excluding(xf) => xf.expects(ev),
            AdoptSt::Finished => false,
        }
    }

    /// What the adopted workspace's record promises, beside being registered.
    pub open spec fn fresh_record(&self, v: InfoView) -> bool {
        v.path == self.wt_path@ && v.branch == self.branch_name@ && v.name == self.name@
            && v.project_id == self.project_id@ && v.status == "active"@ && v.last_activity is None
            && v.id.len() == 15 && v.id.take(3) == id_prefix()
    }

    pub open spec fn registered(
        &self,
        rows0: Seq<WorktreeInfo>,
        rows1: Seq<WorktreeInfo>,
        v: InfoView,
    ) -> bool {
        lookup(rows1, v.id) == Option::Some(v) && (forall|id2: Seq<char>|
            id2 != v.id ==> lookup(rows1, id2) == lookup(rows0, id2))
    }

    /// Begin adopting `branch_name`: validate, derive the task name and the
    /// target path, then probe the target.
    pub fn start(
        project_path: &str,
        task_name: &str,
        branch_name: &str,
        project_id: &str,
        explicit_path: Option<String>,
    ) -> (r: (CreateFromBranchFlow, Step<WorktreeInfo>))
        ensures
            r.0.wf(),
            ({
                let pt = trimmed_edges(project_path@, TrimClass::Space);
                let bt = trimmed_edges(branch_name@, TrimClass::Space);
                let it = trimmed_edges(project_id@, TrimClass::Space);
                let tt = trimmed_edges(task_name@, TrimClass::Space);
                if pt.len() == 0 || bt.len() == 0 || it.len() == 0 {
                    (match r.1 {
                        Step::Done(res) => match res {
                            Result::Ok(_) => false,
                            Result::Err(we) => (we is InvalidArgument) && we.text()
                                == "Missing required parameters"@,
                        },
                        _ => false,
                    })
                } else {
                    r.0.project_path@ == pt && r.0.branch_name@ == bt && r.0.project_id@ == it
                        && r.0.name@ == (if tt.len() == 0 {
                        dashed(bt)
                    } else {
                        tt
                    }) && (match explicit_path {
                        Option::Some(p) => r.0.wt_path@ == p@,
                        Option::None => true,
                    }) && (r.0.st is AwaitTargetCheck) && (match r.1 {
                        Step::Run(a) => match a {
                            Action::CheckPath { path } => path@ == r.0.wt_path@,
                            _ => false,
                        },
                        _ => false,
                    })
                }
            }),
    {
        let ppv = chars_of(project_path);
        let ppt = trim_edges(&ppv, TrimClass::Space);
        let bnv = chars_of(branch_name);
        let bnt = trim_edges(&bnv, TrimClass::Space);
        let piv = chars_of(project_id);
        let pit = trim_edges(&piv, TrimClass::Space);
        if ppt.len() == 0 || bnt.len() == 0 || pit.len() == 0 {
            let flow = CreateFromBranchFlow {
                st: AdoptSt::Finished,
                project_path: project_path.to_owned(),
                branch_name: branch_name.to_owned(),
                project_id: project_id.to_owned(),
                name: "".to_owned(),
                wt_path: "".to_owned(),
            };
            return (flow, Step::Done(Err(WtError::InvalidArgument(
                "Missing required parameters".to_owned(),
            ))));
        }
        let pp = string_from_chars(&ppt);
        let bn = string_from_chars(&bnt);
        let pid = string_from_chars(&pit);
        let tnv = chars_of(task_name);
        let tnt = trim_edges(&tnv, TrimClass::Space);
        let name: String = if tnt.len() == 0 {
            string_from_chars(&dash_slashes(&bnt))
        } else {
            string_from_chars(&tnt)
        };
        let wt_path: String = match explicit_path {
            Some(p) => p,
            None => {
                let slug = slugify(name.as_str());
                let ts = i64_dec_string(now_timestamp_millis());
                let mut w: String = pp.clone();
                w.append("/../worktrees/");
                w.append(slug.as_str());
                w.append("-");
                w.append(ts.as_str());
                w
            },
        };
        let probe = wt_path.clone();
        let flow = CreateFromBranchFlow {
            st: AdoptSt::AwaitTargetCheck,
            project_path: pp,
            branch_name: bn,
            project_id: pid,
            name,
            wt_path,
        };
        (flow, Step::Run(Action::CheckPath { path: probe }))
    }

    pub open spec fn same_frame(&self, other: &CreateFromBranchFlow) -> bool {
        self.project_path@ == other.project_path@ && self.branch_name@ == other.branch_name@
            && self.project_id@ == other.project_id@ && self.name@ == other.name@ && self.wt_path@
            == other.wt_path@
    }

    fn register(&mut self, reg: &mut WorktreeState) -> (step: Step<WorktreeInfo>)
        requires
            old(reg).wf(),
        ensures
            final(self).wf(),
            final(reg).wf(),
            final(self).same_frame(old(self)),
            final(self).st is Finished,
            (match step {
                Step::Done(res) => match res {
                    Result::Ok(info) => old(self).fresh_record(info@) && old(self).registered(
                        old(reg).rows(),
                        final(reg).rows(),
                        info@,
                    ),
                    Result::Err(_) => false,
                },
                _ => false,
            }),
    {
        let id = stable_id_from_path(self.wt_path.as_str());
        let info = WorktreeInfo {
            id,
            name: self.name.clone(),
            branch: self.branch_name.clone(),
            path: self.wt_path.clone(),
            project_id: self.project_id.clone(),
            status: "active".to_owned(),
            created_at: now_rfc3339(),
            last_activity: None,
        };
        let kept = dup_info(&info);
        reg.insert(kept);
        self.st = AdoptSt::Finished;
        Step::Done(Ok(info))
    }

    /// Feed back the outcome of the action the flow last asked for.
    pub fn on_event(&mut self, reg: &mut WorktreeState, ev: &Event) -> (step: Step<WorktreeInfo>)
        requires
            old(reg).wf(),
            old(self).wf(),
            old(self).expects(ev),
        ensures
            final(self).wf(),
            final(reg).wf(),
            final(self).same_frame(old(self)),
            (match old(self).st {
                AdoptSt::AwaitTargetCheck => final(reg).rows() == old(reg).rows() && (
                if path_exists(ev) {
                    (final(self).st is Finished) && (match step {
                        Step::Done(res) => match res {
                            Result::Ok(_) => false,
                            Result::Err(we) => (we is PathConflict) && we.text()
                                == path_conflict_text(old(self).wt_path@),
                        },
                        _ => false,
                    })
                } else {
                    (final(self).st is AwaitParent) && (match step {
                        Step::Run(a) => match a {
                            Action::CreateDirAll { path } => path@ == parent_dir_of(
                                old(self).wt_path@,
                            ),
                            _ => false,
                        },
                        _ => false,
                    })
                }),
                AdoptSt::AwaitParent => final(reg).rows() == old(reg).rows() && (final(self).st
                    is AwaitAdd) && (match step {
                    Step::Run(a) => git_args(&a) == seq![
                        "worktree"@,
                        "add"@,
                        old(self).wt_path@,
                        old(self).branch_name@,
                    ] && git_cwd(&a) == old(self).project_path@,
                    _ => false,
                }),
                AdoptSt::AwaitAdd => final(reg).rows() == old(reg).rows() && (if ran_ok(ev) {
                    (final(self).st is AwaitVerify) && (match step {
                        Step::Run(a) => match a {
                            Action::CheckPath { path } => path@ == old(self).wt_path@,
                            _ => false,
                        },
                        _ => false,
                    })
                } else {
                    (final(self).st is Finished) && (match step {
                        Step::Done(res) => match res {
                            Result::Ok(_) => false,
                            Result::Err(we) => (we is CommandFailed) && we.text()
                                == add_branch_fail_text(old(self).branch_name@, ran_err(ev)),
                        },
                        _ => false,
                    })
                }),
                AdoptSt::AwaitVerify => final(reg).rows() == old(reg).rows() && (if path_exists(
                    ev,
                ) {
                    (match final(self).st {
                        AdoptSt::Excluding(xf) => (xf.st is AwaitGitProbe) && xf.wt_path@ == old(
                            self,
                        ).wt_path@,
                        _ => false,
                    }) && (match step {
                        Step::Run(a) => match a {
                            Action::CheckPath { path } => path@ == old(self).wt_path@ + "/.git"@,
                            _ => false,
                        },
                        _ => false,
                    })
                } else {
                    (final(self).st is Finished) && (match step {
                        Step::Done(res) => match res {
                            Result::Ok(_) => false,
                            Result::Err(we) => (we is DirectoryNotCreated) && we.text()
                                == dir_not_created_text(old(self).wt_path@),
                        },
                        _ => false,
                    })
                }),
                AdoptSt::Excluding(xf) => (match exclude_on_next(xf.st, xf.wt_path@, ev) {
                    ExcludeNext::Finish => (final(self).st is Finished) && (match step {
                        Step::Done(res) => match res {
                            Result::Ok(info) => old(self).fresh_record(info@) && old(
                                self,
                            ).registered(old(reg).rows(), final(reg).rows(), info@),
                            Result::Err(_) => false,
                        },
                        _ => false,
                    }),
                    nx => final(reg).rows() == old(reg).rows() && (match final(self).st {
                        AdoptSt::Excluding(xf2) => xf2.at(nx) && xf2.wt_path@ == old(
                            self,
                        ).wt_path@,
                        _ => false,
                    }) && (match step {
                        Step::Run(a) => exclude_action_matches(&a, nx, old(self).wt_path@),
                        _ => false,
                    }),
                }),
                AdoptSt::Finished => false,
            }),
    {
        let mut st = AdoptSt::Finished;
        core::mem::swap(&mut st, &mut self.st);
        match st {
            AdoptSt::AwaitTargetCheck => {
                let exists: bool = match ev {
                    Event::PathInfo { exists, .. } => *exists,
                    _ => vstd::pervasive::unreached(),
                };
                if exists {
                    self.st = AdoptSt::Finished;
                    let m = path_conflict_msg(self.wt_path.as_str());
                    Step::Done(Err(WtError::PathConflict(m)))
                } else {
                    let wv = chars_of(self.wt_path.as_str());
                    let parent: String = match crate::chars::last_index_of_char(&wv, '/') {
                        Some(i) => {
                            proof {
                                crate::listing::lemma_last_slash_pub(wv@, i as int);
                            }
                            let v = crate::chars::sub_chars(&wv, 0, i);
                            proof {
                                assert(v@ =~= wv@.take(i as int));
                            }
                            string_from_chars(&v)
                        },
                        None => {
                            proof {
                                crate::listing::lemma_last_slash_pub(wv@, -1);
                            }
                            "".to_owned()
                        },
                    };
                    proof {
                        reveal_strlit("");
                    }
                    self.st = AdoptSt::AwaitParent;
                    Step::Run(Action::CreateDirAll { path: parent })
                }
            },
            AdoptSt::AwaitParent => {
                // the parent creation's outcome is ignored
                let mut args: Vec<String> = Vec::new();
                crate::effects::push_arg(&mut args, "worktree");
                crate::effects::push_arg(&mut args, "add");
                args.push(self.wt_path.clone());
                args.push(self.branch_name.clone());
                proof {
                    assert(args@.map_values(|x: String| x@) =~= seq![
                        "worktree"@,
                        "add"@,
                        self.wt_path@,
                        self.branch_name@,
                    ]);
                }
                self.st = AdoptSt::AwaitAdd;
                let cwd = self.project_path.clone();
                Step::Run(Action::RunGit { args, cwd })
            },
            AdoptSt::AwaitAdd => {
                let (ok, error): (bool, &String) = match ev {
                    Event::Ran { ok, error, .. } => (*ok, error),
                    _ => vstd::pervasive::unreached(),
                };
                if ok {
                    self.st = AdoptSt::AwaitVerify;
                    Step::Run(Action::CheckPath { path: self.wt_path.clone() })
                } else {
                    self.st = AdoptSt::Finished;
                    let m = add_branch_fail_msg(self.branch_name.as_str(), error.as_str());
                    Step::Done(Err(WtError::CommandFailed(m)))
                }
            },
            AdoptSt::AwaitVerify => {
                let exists: bool = match ev {
                    Event::PathInfo { exists, .. } => *exists,
                    _ => vstd::pervasive::unreached(),
                };
                if exists {
                    let (xf, xstep) = ExcludeFlow::start(self.wt_path.as_str());
                    self.st = AdoptSt::Excluding(xf);
                    match xstep {
                        Step::Run(a) => Step::Run(a),
                        Step::Done(_) => vstd::pervasive::unreached(),
                    }
                } else {
                    self.st = AdoptSt::Finished;
                    let m = dir_not_created_msg(self.wt_path.as_str());
                    Step::Done(Err(WtError::DirectoryNotCreated(m)))
                }
            },
            AdoptSt::Excluding(mut xf) => {
                let xstep = xf.on_event(ev);
                match xstep {
                    Step::Run(a) => {
                        self.st = AdoptSt::Excluding(xf);
                        Step::Run(a)
                    },
                    Step::Done(_) => self.register(reg),
                }
            },
            AdoptSt::Finished => vstd::pervasive::unreached(),
        }
    }
}

} // verus!
