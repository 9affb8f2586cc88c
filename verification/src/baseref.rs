//! Resolving the base ref a new workspace forks from, and fetching it with a
//! fallback to the remote's advertised default branch when the configured
//! ref no longer exists.

use vstd::prelude::*;

use crate::chars::{
    chars_of, contains_seq, eq_chars, has_char, has_sub, index_of_char, string_from_chars,
    sub_chars, trim_edges, trimmed_edges, TrimClass,
};
use crate::effects::{git_args, git_cwd, Action, Event, ProjectSettingsRow, RowView, Step, WtError};
use crate::naming::lower_char;
use crate::parse::{
    head_branch_spec, head_branch_of_output, lemma_idx_of, idx_of, remote_listed,
    output_lists_remote, strip_prefix_all, strip_prefix_repeated,
};

verus! {

/// A resolved fork point: a branch on a remote.
pub struct BaseRefInfo {
    pub remote: String,
    pub branch: String,
    pub full_ref: String,
}

/// The mathematical shadow of a `BaseRefInfo`.
pub struct RefView {
    pub remote: Seq<char>,
    pub branch: Seq<char>,
    pub full_ref: Seq<char>,
}

impl View for BaseRefInfo {
    type V = RefView;

    open spec fn view(&self) -> RefView {
        RefView { remote: self.remote@, branch: self.branch@, full_ref: self.full_ref@ }
    }
}

/// The fork point `remote/branch`.
pub open spec fn ref_of(remote: Seq<char>, branch: Seq<char>) -> RefView {
    RefView { remote, branch, full_ref: remote + "/"@ + branch }
}

/// Build the fork point `remote/branch`.
pub fn make_ref(remote: &str, branch: &str) -> (r: BaseRefInfo)
    ensures
        r@ == ref_of(remote@, branch@),
{
    let mut full: String = remote.to_owned();
    full.append("/");
    full.append(branch);
    BaseRefInfo { remote: remote.to_owned(), branch: branch.to_owned(), full_ref: full }
}

/// An owned copy of `r`, equal in view.
pub fn dup_ref(r: &BaseRefInfo) -> (d: BaseRefInfo)
    ensures
        d@ == r@,
{
    BaseRefInfo {
        remote: r.remote.clone(),
        branch: r.branch.clone(),
        full_ref: r.full_ref.clone(),
    }
}

/// The remote used when the settings name none: a non-blank `gitRemote`
/// wins, else `origin`.
pub open spec fn default_remote_of(row: RowView) -> Seq<char> {
    match row.git_remote {
        Option::Some(r) => {
            let t = trimmed_edges(r, TrimClass::Space);
            if t.len() > 0 {
                t
            } else {
                "origin"@
            }
        },
        Option::None => "origin"@,
    }
}

/// The `remote/branch` split of a stored base ref: strip `refs/remotes/` and
/// `remotes/` prefixes, split at the first `/`, and demand a non-blank
/// remote and branch.
pub open spec fn parse_ref_spec(raw: Seq<char>) -> Option<(Seq<char>, Seq<char>)> {
    let cleaned = trimmed_edges(
        strip_prefix_all(
            strip_prefix_all(trimmed_edges(raw, TrimClass::Space), "refs/remotes/"@),
            "remotes/"@,
        ),
        TrimClass::Space,
    );
    if cleaned.len() == 0 || !cleaned.contains('/') {
        Option::None
    } else {
        let i = idx_of(cleaned, '/');
        let remote = trimmed_edges(cleaned.take(i), TrimClass::Space);
        let branch = trimmed_edges(cleaned.skip(i + 1), TrimClass::Space);
        if remote.len() == 0 || branch.len() == 0 {
            Option::None
        } else {
            Option::Some((remote, branch))
        }
    }
}

/// Split a stored base ref into its remote and branch, when it has both.
pub fn parse_base_ref_parts(raw: &str) -> (r: Option<(String, String)>)
    ensures
        match r {
            Some(p) => parse_ref_spec(raw@) == Option::Some((p.0@, p.1@)),
            None => parse_ref_spec(raw@) is None,
        },
{
    let rv = chars_of(raw);
    let t0 = trim_edges(&rv, TrimClass::Space);
    let pat1 = chars_of("refs/remotes/");
    let s1 = strip_prefix_repeated(&t0, &pat1);
    let pat2 = chars_of("remotes/");
    let s2 = strip_prefix_repeated(&s1, &pat2);
    let cleaned = trim_edges(&s2, TrimClass::Space);
    if cleaned.len() == 0 {
        return None;
    }
    if !has_char(&cleaned, '/') {
        return None;
    }
    let i = match index_of_char(&cleaned, '/', 0) {
        Some(i) => i,
        None => {
            proof {
                let w = choose|w: int| 0 <= w < cleaned@.len() && cleaned@[w] == '/';
                assert(cleaned@[w] != '/');
            }
            0
        },
    };
    proof {
        lemma_idx_of(cleaned@, '/', i as int);
    }
    let head = sub_chars(&cleaned, 0, i);
    let tail = sub_chars(&cleaned, i + 1, cleaned.len());
    proof {
        assert(head@ =~= cleaned@.take(i as int));
        assert(tail@ =~= cleaned@.skip(i + 1));
    }
    let remote = trim_edges(&head, TrimClass::Space);
    let branch = trim_edges(&tail, TrimClass::Space);
    if remote.len() == 0 || branch.len() == 0 {
        return None;
    }
    Some((string_from_chars(&remote), string_from_chars(&branch)))
}

/// The case-insensitive signatures by which a fetch failure names a missing
/// remote ref.
pub open spec fn missing_ref_signature(msg: Seq<char>) -> bool {
    let low = msg.map_values(|c: char| lower_char(c));
    contains_seq(low, "couldn't find remote ref"@) || contains_seq(
        low,
        "could not find remote ref"@,
    ) || contains_seq(low, "remote ref does not exist"@) || contains_seq(
        low,
        "remote end hung up unexpectedly"@,
    ) || contains_seq(low, "no such ref was fetched"@)
}

/// ASCII-lowercase every character of `h`.
fn lower_chars(h: &Vec<char>) -> (v: Vec<char>)
    ensures
        v@ == h@.map_values(|c: char| lower_char(c)),
{
    let mut v: Vec<char> = Vec::new();
    let mut i: usize = 0;
    while i < h.len()
        invariant
            i <= h@.len(),
            v@ == h@.take(i as int).map_values(|c: char| lower_char(c)),
        decreases h@.len() - i,
    {
        let c = h[i];
        let low: char = if 'A' <= c && c <= 'Z' {
            (((c as u8) + 32) as char)
        } else {
            c
        };
        v.push(low);
        proof {
            assert(v@ =~= h@.take(i + 1 as int).map_values(|c: char| lower_char(c)));
        }
        i = i + 1;
    }
    assert(h@.take(h@.len() as int) =~= h@);
    v
}

/// Whether a fetch failure's message says the remote ref is missing.
pub fn is_missing_remote_ref_error(message: &str) -> (r: bool)
    ensures
        r == missing_ref_signature(message@),
{
    let mv = chars_of(message);
    let low = lower_chars(&mv);
    let s1 = chars_of("couldn't find remote ref");
    let s2 = chars_of("could not find remote ref");
    let s3 = chars_of("remote ref does not exist");
    let s4 = chars_of("remote end hung up unexpectedly");
    let s5 = chars_of("no such ref was fetched");
    has_sub(&low, &s1) || has_sub(&low, &s2) || has_sub(&low, &s3) || has_sub(&low, &s4)
        || has_sub(&low, &s5)
}

/// The branch the remote-info query yields: the advertised HEAD branch when
/// the command succeeded and named one, else `main`.
pub open spec fn default_branch_of(ok: bool, stdout: Seq<char>) -> Seq<char> {
    if ok {
        match head_branch_spec(stdout) {
            Option::Some(b) => b,
            Option::None => "main"@,
        }
    } else {
        "main"@
    }
}

/// Read the default branch out of a `git remote show origin` outcome.
pub fn get_default_branch(ok: bool, stdout: &str) -> (r: String)
    ensures
        r@ == default_branch_of(ok, stdout@),
{
    if ok {
        match head_branch_of_output(stdout) {
            Some(b) => b,
            None => "main".to_owned(),
        }
    } else {
        "main".to_owned()
    }
}

pub open spec fn ran_ok(ev: &Event) -> bool {
    match ev {
        Event::Ran { ok, .. } => *ok,
        _ => false,
    }
}

pub open spec fn ran_stdout(ev: &Event) -> Seq<char> {
    match ev {
        Event::Ran { stdout, .. } => stdout@,
        _ => Seq::empty(),
    }
}

pub open spec fn ran_err(ev: &Event) -> Seq<char> {
    match ev {
        Event::Ran { error, .. } => error@,
        _ => Seq::empty(),
    }
}

/// Where the resolver stands: what it awaits, or the answer.
pub enum ResolveSt {
    /// `git remote` is running to check the parsed remote exists.
    AwaitRemotes { remote: String, branch: String },
    /// `git rev-parse --verify` is running to check for a local branch.
    AwaitLocal { branch: String },
    /// `git remote show origin` is running for the advertised HEAD.
    AwaitHead,
    Finished,
}

/// What the resolver does next, mathematically.
pub enum ResolveNext {
    QueryRemotes(Seq<char>, Seq<char>),
    QueryLocal(Seq<char>),
    QueryHead,
    Finish(RefView),
}

/// The step after the settings row is read, before any command has answered.
pub open spec fn resolve_start_next(
    dr: Seq<char>,
    base_ref: Option<Seq<char>>,
    git_branch: Option<Seq<char>>,
) -> ResolveNext {
    match base_ref {
        Option::Some(br) => match parse_ref_spec(br) {
            Option::Some(p) => ResolveNext::QueryRemotes(p.0, p.1),
            Option::None => resolve_local_next(dr, base_ref, git_branch),
        },
        Option::None => resolve_fallback_next(dr, git_branch),
    }
}

/// The step once the stored base ref failed to parse or its remote is not
/// configured: try it as a local branch name if it is non-blank.
pub open spec fn resolve_local_next(
    dr: Seq<char>,
    base_ref: Option<Seq<char>>,
    git_branch: Option<Seq<char>>,
) -> ResolveNext {
    let brt = match base_ref {
        Option::Some(br) => trimmed_edges(br, TrimClass::Space),
        Option::None => Seq::empty(),
    };
    if brt.len() > 0 {
        ResolveNext::QueryLocal(brt)
    } else {
        resolve_fallback_next(dr, git_branch)
    }
}

/// The step once the stored base ref is spent: a clean `gitBranch` hint
/// answers at once, else the remote's advertised HEAD is queried.
pub open spec fn resolve_fallback_next(dr: Seq<char>, git_branch: Option<Seq<char>>) -> ResolveNext {
    match git_branch {
        Option::Some(g) => {
            let gt = trimmed_edges(g, TrimClass::Space);
            if gt.len() > 0 && !gt.contains(' ') {
                ResolveNext::Finish(ref_of(dr, gt))
            } else {
                ResolveNext::QueryHead
            }
        },
        Option::None => ResolveNext::QueryHead,
    }
}

/// The step an answered command leads to.
pub open spec fn resolve_on_next(
    st: ResolveSt,
    dr: Seq<char>,
    base_ref: Option<Seq<char>>,
    git_branch: Option<Seq<char>>,
    ev: &Event,
) -> ResolveNext {
    match st {
        ResolveSt::AwaitRemotes { remote, branch } => {
            if !ran_ok(ev) || remote_listed(ran_stdout(ev), remote@) {
                ResolveNext::Finish(ref_of(remote@, branch@))
            } else {
                resolve_local_next(dr, base_ref, git_branch)
            }
        },
        ResolveSt::AwaitLocal { branch } => {
            if ran_ok(ev) {
                ResolveNext::Finish(ref_of(dr, branch@))
            } else {
                resolve_fallback_next(dr, git_branch)
            }
        },
        ResolveSt::AwaitHead => ResolveNext::Finish(
            ref_of(dr, default_branch_of(ran_ok(ev), ran_stdout(ev))),
        ),
        ResolveSt::Finished => ResolveNext::QueryHead,
    }
}

/// The command that a resolver step `nx` runs, in the project directory.
pub open spec fn resolve_action_matches(a: &Action, nx: ResolveNext, pp: Seq<char>) -> bool {
    match nx {
        ResolveNext::QueryRemotes(_, _) => git_args(a) == seq!["remote"@] && git_cwd(a) == pp,
        ResolveNext::QueryLocal(brt) => git_args(a) == seq![
            "rev-parse"@,
            "--verify"@,
            ("refs/heads/"@ + brt),
        ] && git_cwd(a) == pp,
        ResolveNext::QueryHead => git_args(a) == seq!["remote"@, "show"@, "origin"@] && git_cwd(a)
            == pp,
        ResolveNext::Finish(_) => false,
    }
}

/// Resolves which `remote/branch` a new workspace forks from, from the
/// project's stored hints, consulting the tool where needed. The resolver
/// itself never fails: every path ends in a fork point.
pub struct ResolveFlow {
    pub st: ResolveSt,
    pub project_path: String,
    pub default_remote: String,
    pub base_ref: Option<String>,
    pub git_branch: Option<String>,
}

impl ResolveFlow {
    pub open spec fn base_ref_view(&self) -> Option<Seq<char>> {
        match self.base_ref {
            Option::Some(b) => Option::Some(b@),
            Option::None => Option::None,
        }
    }

    pub open spec fn git_branch_view(&self) -> Option<Seq<char>> {
        match self.git_branch {
            Option::Some(b) => Option::Some(b@),
            Option::None => Option::None,
        }
    }

    /// Whether the flow's state is the one `nx` enters.
    pub open spec fn at(&self, nx: ResolveNext) -> bool {
        match nx {
            ResolveNext::QueryRemotes(rm, bb) => (match self.st {
                ResolveSt::AwaitRemotes { remote, branch } => remote@ == rm && branch@ == bb,
                _ => false,
            }),
            ResolveNext::QueryLocal(brt) => (match self.st {
                ResolveSt::AwaitLocal { branch } => branch@ == brt,
                _ => false,
            }),
            ResolveNext::QueryHead => self.st is AwaitHead,
            ResolveNext::Finish(_) => self.st is Finished,
        }
    }

    /// Whether this flow stands where `nx` says, with `step` as its answer.
    pub open spec fn emits(&self, step: &Step<BaseRefInfo>, nx: ResolveNext) -> bool {
        self.at(nx) && match nx {
            ResolveNext::QueryRemotes(rm, bb) => (match step {
                Step::Run(a) => resolve_action_matches(a, nx, self.project_path@),
                _ => false,
            }),
            ResolveNext::QueryLocal(brt) => (match step {
                Step::Run(a) => resolve_action_matches(a, nx, self.project_path@),
                _ => false,
            }),
            ResolveNext::QueryHead => (match step {
                Step::Run(a) => resolve_action_matches(a, nx, self.project_path@),
                _ => false,
            }),
            ResolveNext::Finish(v) => (match step {
                Step::Done(res) => match res {
                    Result::Ok(info) => info@ == v,
                    Result::Err(_) => false,
                },
                _ => false,
            }),
        }
    }

    /// Begin resolving against a settings row.
    pub fn start(project_path: &str, row: &ProjectSettingsRow) -> (r: (ResolveFlow, Step<
        BaseRefInfo,
    >))
        ensures
            r.0.project_path@ == project_path@,
            r.0.default_remote@ == default_remote_of(row@),
            r.0.base_ref_view() == row@.base_ref,
            r.0.git_branch_view() == row@.git_branch,
            r.0.emits(
                &r.1,
                resolve_start_next(default_remote_of(row@), row@.base_ref, row@.git_branch),
            ),
    {
        let default_remote: String = match &row.git_remote {
            Some(g) => {
                let gv = chars_of(g.as_str());
                let gt = trim_edges(&gv, TrimClass::Space);
                if gt.len() > 0 {
                    string_from_chars(&gt)
                } else {
                    "origin".to_owned()
                }
            },
            None => "origin".to_owned(),
        };
        let base_ref: Option<String> = match &row.base_ref {
            Some(b) => Some(b.clone()),
            None => None,
        };
        let git_branch: Option<String> = match &row.git_branch {
            Some(b) => Some(b.clone()),
            None => None,
        };
        let mut flow = ResolveFlow {
            st: ResolveSt::Finished,
            project_path: project_path.to_owned(),
            default_remote,
            base_ref,
            git_branch,
        };
        match &flow.base_ref {
            Some(br) => {
                let parsed = parse_base_ref_parts(br.as_str());
                match parsed {
                    Some(p) => {
                        flow.st = ResolveSt::AwaitRemotes { remote: p.0, branch: p.1 };
                        let mut args: Vec<String> = Vec::new();
                        crate::effects::push_arg(&mut args, "remote");
                        proof {
                            assert(args@.map_values(|x: String| x@) =~= seq!["remote"@]);
                        }
                        let a = Action::RunGit { args, cwd: project_path.to_owned() };
                        (flow, Step::Run(a))
                    },
                    None => Self::local_step(flow),
                }
            },
            None => Self::fallback_step(flow),
        }
    }

    fn local_step(flow: ResolveFlow) -> (r: (ResolveFlow, Step<BaseRefInfo>))
        ensures
            r.0.project_path@ == flow.project_path@,
            r.0.default_remote@ == flow.default_remote@,
            r.0.base_ref_view() == flow.base_ref_view(),
            r.0.git_branch_view() == flow.git_branch_view(),
            r.0.emits(
                &r.1,
                resolve_local_next(
                    flow.default_remote@,
                    flow.base_ref_view(),
                    flow.git_branch_view(),
                ),
            ),
    {
        let brt: Vec<char> = match &flow.base_ref {
            Some(br) => {
                let bv = chars_of(br.as_str());
                trim_edges(&bv, TrimClass::Space)
            },
            None => Vec::new(),
        };
        if brt.len() > 0 {
            let branch = string_from_chars(&brt);
            let mut refhead: String = "refs/heads/".to_owned();
            refhead.append(branch.as_str());
            let mut args: Vec<String> = Vec::new();
            crate::effects::push_arg(&mut args, "rev-parse");
            crate::effects::push_arg(&mut args, "--verify");
            let ghost before = args@;
            args.push(refhead);
            proof {
                let m = args@.map_values(|x: String| x@);
                assert(args@ == before.push(args@[2]));
                assert(m.len() == 3);
                assert(m[0] == before.map_values(|x: String| x@)[0]);
                assert(m[1] == before.map_values(|x: String| x@)[1]);
                assert(m[2] == "refs/heads/"@ + brt@);
                assert(m =~= seq!["rev-parse"@, "--verify"@, ("refs/heads/"@ + brt@)]);
            }
            let cwd = flow.project_path.clone();
            let mut f2 = flow;
            f2.st = ResolveSt::AwaitLocal { branch };
            (f2, Step::Run(Action::RunGit { args, cwd }))
        } else {
            Self::fallback_step(flow)
        }
    }

    fn fallback_step(flow: ResolveFlow) -> (r: (ResolveFlow, Step<BaseRefInfo>))
        ensures
            r.0.project_path@ == flow.project_path@,
            r.0.default_remote@ == flow.default_remote@,
            r.0.base_ref_view() == flow.base_ref_view(),
            r.0.git_branch_view() == flow.git_branch_view(),
            r.0.emits(
                &r.1,
                resolve_fallback_next(flow.default_remote@, flow.git_branch_view()),
            ),
    {
        match &flow.git_branch {
            Some(g) => {
                let gv = chars_of(g.as_str());
                let gt = trim_edges(&gv, TrimClass::Space);
                if gt.len() > 0 && !has_char(&gt, ' ') {
                    let branch = string_from_chars(&gt);
                    let info = make_ref(flow.default_remote.as_str(), branch.as_str());
                    let mut f2 = flow;
                    f2.st = ResolveSt::Finished;
                    (f2, Step::Done(Ok(info)))
                } else {
                    Self::head_step(flow)
                }
            },
            None => Self::head_step(flow),
        }
    }

    fn head_step(flow: ResolveFlow) -> (r: (ResolveFlow, Step<BaseRefInfo>))
        ensures
            r.0.project_path@ == flow.project_path@,
            r.0.default_remote@ == flow.default_remote@,
            r.0.base_ref_view() == flow.base_ref_view(),
            r.0.git_branch_view() == flow.git_branch_view(),
            r.0.st is AwaitHead,
            (match r.1 {
                Step::Run(a) => git_args(&a) == seq!["remote"@, "show"@, "origin"@] && git_cwd(&a)
                    == flow.project_path@,
                _ => false,
            }),
    {
        let mut args: Vec<String> = Vec::new();
        crate::effects::push_arg(&mut args, "remote");
        crate::effects::push_arg(&mut args, "show");
        crate::effects::push_arg(&mut args, "origin");
        proof {
            assert(args@.map_values(|x: String| x@) =~= seq!["remote"@, "show"@, "origin"@]);
        }
        let cwd = flow.project_path.clone();
        let mut f2 = flow;
        f2.st = ResolveSt::AwaitHead;
        (f2, Step::Run(Action::RunGit { args, cwd }))
    }

    /// Feed back the outcome of the action the flow last asked for.
    pub fn on_event(&mut self, ev: &Event) -> (step: Step<BaseRefInfo>)
        requires
            !(old(self).st is Finished),
            ev matches Event::Ran { .. },
        ensures
            final(self).project_path@ == old(self).project_path@,
            final(self).default_remote@ == old(self).default_remote@,
            final(self).base_ref_view() == old(self).base_ref_view(),
            final(self).git_branch_view() == old(self).git_branch_view(),
            final(self).emits(
                &step,
                resolve_on_next(
                    old(self).st,
                    old(self).default_remote@,
                    old(self).base_ref_view(),
                    old(self).git_branch_view(),
                    ev,
                ),
            ),
    {
        let (ok, stdout): (bool, &String) = match ev {
            Event::Ran { ok, stdout, .. } => (*ok, stdout),
            _ => vstd::pervasive::unreached(),
        };
        let mut st = ResolveSt::Finished;
        core::mem::swap(&mut st, &mut self.st);
        match st {
            ResolveSt::AwaitRemotes { remote, branch } => {
                if !ok || output_lists_remote(stdout.as_str(), remote.as_str()) {
                    let info = make_ref(remote.as_str(), branch.as_str());
                    self.st = ResolveSt::Finished;
                    Step::Done(Ok(info))
                } else {
                    let f2 = ResolveFlow {
                        st: ResolveSt::Finished,
                        project_path: self.project_path.clone(),
                        default_remote: self.default_remote.clone(),
                        base_ref: match &self.base_ref {
                            Some(b) => Some(b.clone()),
                            None => None,
                        },
                        git_branch: match &self.git_branch {
                            Some(b) => Some(b.clone()),
                            None => None,
                        },
                    };
                    let (f3, step) = Self::local_step(f2);
                    self.st = f3.st;
                    step
                }
            },
            ResolveSt::AwaitLocal { branch } => {
                if ok {
                    let info = make_ref(self.default_remote.as_str(), branch.as_str());
                    self.st = ResolveSt::Finished;
                    Step::Done(Ok(info))
                } else {
                    let f2 = ResolveFlow {
                        st: ResolveSt::Finished,
                        project_path: self.project_path.clone(),
                        default_remote: self.default_remote.clone(),
                        base_ref: match &self.base_ref {
                            Some(b) => Some(b.clone()),
                            None => None,
                        },
                        git_branch: match &self.git_branch {
                            Some(b) => Some(b.clone()),
                            None => None,
                        },
                    };
                    let (f3, step) = Self::fallback_step(f2);
                    self.st = f3.st;
                    step
                }
            },
            ResolveSt::AwaitHead => {
                let b = get_default_branch(ok, stdout.as_str());
                let info = make_ref(self.default_remote.as_str(), b.as_str());
                self.st = ResolveSt::Finished;
                Step::Done(Ok(info))
            },
            ResolveSt::Finished => vstd::pervasive::unreached(),
        }
    }
}

} // verus!

verus! {

/// The message for a fetch that failed outright.
pub open spec fn fetch_fail_text(full_ref: Seq<char>, err: Seq<char>) -> Seq<char> {
    "Failed to fetch "@ + full_ref + ": "@ + err
}

fn fetch_fail_msg(full_ref: &str, err: &str) -> (r: String)
    ensures
        r@ == fetch_fail_text(full_ref@, err@),
{
    let mut m: String = "Failed to fetch ".to_owned();
    m.append(full_ref);
    m.append(": ");
    m.append(err);
    m
}

/// The message for a fetch whose fallback also failed.
pub open spec fn fallback_fail_text(
    tried: Seq<char>,
    fallback: Seq<char>,
    err: Seq<char>,
) -> Seq<char> {
    "Failed to fetch base branch. Tried "@ + tried + " and "@ + fallback + ". "@ + err
        + " Please verify the branch exists on the remote."@
}

fn fallback_fail_msg(tried: &str, fallback: &str, err: &str) -> (r: String)
    ensures
        r@ == fallback_fail_text(tried@, fallback@, err@),
{
    let mut m: String = "Failed to fetch base branch. Tried ".to_owned();
    m.append(tried);
    m.append(" and ");
    m.append(fallback);
    m.append(". ");
    m.append(err);
    m.append(" Please verify the branch exists on the remote.");
    m
}

/// Where the fallback fetch stands: what it awaits, or the answer.
pub enum FetchSt {
    /// The configured ref's own fetch is running.
    AwaitFetch,
    /// The fetch failed with a missing-ref signature; `git remote show
    /// origin` is running for the default branch.
    AwaitHead { err: String },
    /// The fallback's fetch is running.
    AwaitFallback { fallback: BaseRefInfo, err: String },
    /// The corrected ref is being persisted to the project database.
    AwaitPersist { fallback: BaseRefInfo },
    Finished,
}

/// What the fallback fetch does next, mathematically.
pub enum FetchNext {
    Failed(Seq<char>),
    Granted(RefView),
    QueryHead(Seq<char>),
    TryFallback(RefView, Seq<char>),
    Persist(RefView),
}

/// The step an answered action leads to.
pub open spec fn fetch_on_next(st: FetchSt, base: RefView, ev: &Event) -> FetchNext {
    match st {
        FetchSt::AwaitFetch => {
            if ran_ok(ev) {
                FetchNext::Granted(base)
            } else if !missing_ref_signature(ran_err(ev)) {
                FetchNext::Failed(fetch_fail_text(base.full_ref, ran_err(ev)))
            } else {
                FetchNext::QueryHead(ran_err(ev))
            }
        },
        FetchSt::AwaitHead { err } => {
            let fb = ref_of("origin"@, default_branch_of(ran_ok(ev), ran_stdout(ev)));
            if fb.full_ref == base.full_ref {
                FetchNext::Failed(fetch_fail_text(base.full_ref, err@))
            } else {
                FetchNext::TryFallback(fb, err@)
            }
        },
        FetchSt::AwaitFallback { fallback, err } => {
            if ran_ok(ev) {
                FetchNext::Persist(fallback@)
            } else {
                FetchNext::Failed(
                    fallback_fail_text(base.full_ref, fallback@.full_ref, ran_err(ev)),
                )
            }
        },
        FetchSt::AwaitPersist { fallback } => FetchNext::Granted(fallback@),
        FetchSt::Finished => FetchNext::Granted(base),
    }
}

/// Fetches the resolved base ref, falling back to the remote's advertised
/// default branch when the configured ref is gone, and persisting the
/// corrected ref on success.
pub struct FetchFlow {
    pub st: FetchSt,
    pub project_path: String,
    pub project_id: String,
    pub base: BaseRefInfo,
}

/// The action that a fetch step `nx` runs.
pub open spec fn fetch_action_matches(
    a: &Action,
    nx: FetchNext,
    pp: Seq<char>,
    pid: Seq<char>,
) -> bool {
    match nx {
        FetchNext::QueryHead(_) => git_args(a) == seq!["remote"@, "show"@, "origin"@] && git_cwd(a)
            == pp,
        FetchNext::TryFallback(v, _) => git_args(a) == seq!["fetch"@, v.remote, v.branch]
            && git_cwd(a) == pp,
        FetchNext::Persist(v) => (match a {
            Action::PersistBaseRef { project_id, full_ref } => project_id@ == pid && full_ref@
                == v.full_ref,
            _ => false,
        }),
        FetchNext::Failed(_) => false,
        FetchNext::Granted(_) => false,
    }
}

impl FetchFlow {
    /// Whether the flow's state is the one `nx` enters.
    pub open spec fn at(&self, nx: FetchNext) -> bool {
        match nx {
            FetchNext::Failed(_) => self.st is Finished,
            FetchNext::Granted(_) => self.st is Finished,
            FetchNext::QueryHead(e) => (match self.st {
                FetchSt::AwaitHead { err } => err@ == e,
                _ => false,
            }),
            FetchNext::TryFallback(v, e) => (match self.st {
                FetchSt::AwaitFallback { fallback, err } => fallback@ == v && err@ == e,
                _ => false,
            }),
            FetchNext::Persist(v) => (match self.st {
                FetchSt::AwaitPersist { fallback } => fallback@ == v,
                _ => false,
            }),
        }
    }

    /// Whether this flow stands where `nx` says, with `step` as its answer.
    pub open spec fn emits(&self, step: &Step<BaseRefInfo>, nx: FetchNext) -> bool {
        self.at(nx) && match nx {
            FetchNext::Failed(t) => (match step {
                Step::Done(res) => match res {
                    Result::Ok(_) => false,
                    Result::Err(e) => (e is FetchFailed) && e.text() == t,
                },
                _ => false,
            }),
            FetchNext::Granted(v) => (match step {
                Step::Done(res) => match res {
                    Result::Ok(info) => info@ == v,
                    Result::Err(_) => false,
                },
                _ => false,
            }),
            _ => (match step {
                Step::Run(a) => fetch_action_matches(a, nx, self.project_path@, self.project_id@),
                _ => false,
            }),
        }
    }

    /// Begin fetching `base`: the first action fetches the configured ref
    /// itself.
    pub fn start(project_path: &str, project_id: &str, base: BaseRefInfo) -> (r: (FetchFlow, Step<
        BaseRefInfo,
    >))
        ensures
            r.0.st is AwaitFetch,
            r.0.project_path@ == project_path@,
            r.0.project_id@ == project_id@,
            r.0.base@ == base@,
            (match r.1 {
                Step::Run(a) => git_args(&a) == seq!["fetch"@, base@.remote, base@.branch]
                    && git_cwd(&a) == project_path@,
                _ => false,
            }),
    {
        let mut args: Vec<String> = Vec::new();
        crate::effects::push_arg(&mut args, "fetch");
        args.push(base.remote.clone());
        args.push(base.branch.clone());
        proof {
            assert(args@.map_values(|x: String| x@) =~= seq![
                "fetch"@,
                base@.remote,
                base@.branch,
            ]);
        }
        let flow = FetchFlow {
            st: FetchSt::AwaitFetch,
            project_path: project_path.to_owned(),
            project_id: project_id.to_owned(),
            base,
        };
        let cwd = flow.project_path.clone();
        (flow, Step::Run(Action::RunGit { args, cwd }))
    }

    /// Feed back the outcome of the action the flow last asked for.
    pub fn on_event(&mut self, ev: &Event) -> (step: Step<BaseRefInfo>)
        requires
            !(old(self).st is Finished),
            !(old(self).st is AwaitPersist) ==> ev matches Event::Ran { .. },
        ensures
            final(self).project_path@ == old(self).project_path@,
            final(self).project_id@ == old(self).project_id@,
            final(self).base@ == old(self).base@,
            final(self).emits(&step, fetch_on_next(old(self).st, old(self).base@, ev)),
    {
        let mut st = FetchSt::Finished;
        core::mem::swap(&mut st, &mut self.st);
        match st {
            FetchSt::AwaitFetch => {
                let (ok, error): (bool, &String) = match ev {
                    Event::Ran { ok, error, .. } => (*ok, error),
                    _ => vstd::pervasive::unreached(),
                };
                if ok {
                    let info = dup_ref(&self.base);
                    Step::Done(Ok(info))
                } else if !is_missing_remote_ref_error(error.as_str()) {
                    let m = fetch_fail_msg(self.base.full_ref.as_str(), error.as_str());
                    Step::Done(Err(WtError::FetchFailed(m)))
                } else {
                    self.st = FetchSt::AwaitHead { err: error.clone() };
                    let mut args: Vec<String> = Vec::new();
                    crate::effects::push_arg(&mut args, "remote");
                    crate::effects::push_arg(&mut args, "show");
                    crate::effects::push_arg(&mut args, "origin");
                    proof {
                        assert(args@.map_values(|x: String| x@) =~= seq![
                            "remote"@,
                            "show"@,
                            "origin"@,
                        ]);
                    }
                    let cwd = self.project_path.clone();
                    Step::Run(Action::RunGit { args, cwd })
                }
            },
            FetchSt::AwaitHead { err } => {
                let (ok, stdout): (bool, &String) = match ev {
                    Event::Ran { ok, stdout, .. } => (*ok, stdout),
                    _ => vstd::pervasive::unreached(),
                };
                let fb_branch = get_default_branch(ok, stdout.as_str());
                let fallback = make_ref("origin", fb_branch.as_str());
                if eq_chars(
                    &chars_of(fallback.full_ref.as_str()),
                    &chars_of(self.base.full_ref.as_str()),
                ) {
                    let m = fetch_fail_msg(self.base.full_ref.as_str(), err.as_str());
                    Step::Done(Err(WtError::FetchFailed(m)))
                } else {
                    let mut args: Vec<String> = Vec::new();
                    crate::effects::push_arg(&mut args, "fetch");
                    args.push(fallback.remote.clone());
                    args.push(fallback.branch.clone());
                    proof {
                        assert(args@.map_values(|x: String| x@) =~= seq![
                            "fetch"@,
                            fallback@.remote,
                            fallback@.branch,
                        ]);
                    }
                    let cwd = self.project_path.clone();
                    self.st = FetchSt::AwaitFallback { fallback, err };
                    Step::Run(Action::RunGit { args, cwd })
                }
            },
            FetchSt::AwaitFallback { fallback, err } => {
                let (ok, error): (bool, &String) = match ev {
                    Event::Ran { ok, error, .. } => (*ok, error),
                    _ => vstd::pervasive::unreached(),
                };
                if ok {
                    let full = fallback.full_ref.clone();
                    let pid = self.project_id.clone();
                    self.st = FetchSt::AwaitPersist { fallback };
                    Step::Run(Action::PersistBaseRef { project_id: pid, full_ref: full })
                } else {
                    let m = fallback_fail_msg(
                        self.base.full_ref.as_str(),
                        fallback.full_ref.as_str(),
                        error.as_str(),
                    );
                    Step::Done(Err(WtError::FetchFailed(m)))
                }
            },
            FetchSt::AwaitPersist { fallback } => {
                // the persist action's outcome is ignored
                Step::Done(Ok(fallback))
            },
            FetchSt::Finished => vstd::pervasive::unreached(),
        }
    }
}

/// Law: a fetch failure carrying a missing-remote-ref signature makes the
/// flow query the remote's default branch next, never fail at once; the
/// corrected ref is handed to the settings collaborator exactly when the
/// differing fallback was fetched successfully — from any other state no
/// persist is asked for — and after that single acknowledgement the flow
/// finishes with the fallback, so the ref is persisted exactly once on the
/// fallback path.
pub proof fn lemma_fetch_fallback_behaviour(st: FetchSt, base: RefView, ev: &Event)
    ensures
        (st is AwaitFetch && !ran_ok(ev) && missing_ref_signature(ran_err(ev))) ==> fetch_on_next(
            st,
            base,
            ev,
        ) == FetchNext::QueryHead(ran_err(ev)),
        (fetch_on_next(st, base, ev) is Persist) ==> (st is AwaitFallback && ran_ok(ev)),
        (match st {
            FetchSt::AwaitPersist { fallback } => fetch_on_next(st, base, ev)
                == FetchNext::Granted(fallback@),
            _ => true,
        }),
{
}

} // verus!
