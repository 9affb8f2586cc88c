//! The boundary between the verified lifecycle logic and the outside world.
//! Each operation is a small machine: it hands the caller an [`Action`] to
//! perform, and the caller feeds the outcome back as an [`Event`]. The
//! machines decide; the caller only executes.

use vstd::prelude::*;

verus! {

/// What the unverified shell is asked to do next.
pub enum Action {
    /// Run the version-control tool with these arguments in this directory.
    /// Answered with `Event::Ran`; `error` carries the combined output of a
    /// failed run, as `combine_output` builds it.
    RunGit { args: Vec<String>, cwd: String },
    /// Grant write permission recursively, by the platform's mechanism.
    /// Answered with `Event::Ran`.
    GrantWrite { path: String },
    /// Ask whether a path exists and whether it is a regular file. Answered
    /// with `Event::PathInfo`.
    CheckPath { path: String },
    /// Create a directory and its parents. Answered with `Event::FsDone`.
    CreateDirAll { path: String },
    /// Delete a directory tree. Answered with `Event::FsDone`.
    RemoveDirAll { path: String },
    /// Read a text file. Answered with `Event::FileRead`; a missing or
    /// unreadable file answers `ok == false`.
    ReadFile { path: String },
    /// Write a text file, creating parent directories. Answered with
    /// `Event::FsDone`.
    WriteFile { path: String, content: String },
    /// Ask the project database for the project's settings row. Answered
    /// with `Event::SettingsRow`.
    FetchSettingsRow { project_id: String },
    /// Persist a corrected base ref to the project database. Answered with
    /// `Event::Ack`; failures are swallowed.
    PersistBaseRef { project_id: String, full_ref: String },
    /// Merge the agent-settings file under this workspace directory so that
    /// it enables the bypass-permissions mode. Answered with
    /// `Event::FsDone`.
    WriteAgentSettings { dir: String },
}

/// The outcome of an [`Action`], reported by the unverified shell.
pub enum Event {
    Ran { ok: bool, stdout: String, error: String },
    PathInfo { exists: bool, is_file: bool },
    FsDone { ok: bool, error: String },
    FileRead { ok: bool, content: String },
    SettingsRow { ok: bool, row: ProjectSettingsRow, error: String },
    Ack,
}

/// How an operation's machine answers one event: either with the next action
/// to perform, or with the operation's result.
pub enum Step<T> {
    Run(Action),
    Done(Result<T, WtError>),
}

/// The failures an operation can report.
pub enum WtError {
    /// A required argument was blank.
    InvalidArgument(String),
    /// The target directory already exists.
    PathConflict(String),
    /// The base ref could not be fetched, fallback included.
    FetchFailed(String),
    /// An external command exited non-zero.
    CommandFailed(String),
    /// The worktree directory was missing after a successful add.
    DirectoryNotCreated(String),
    /// The directory could not be deleted even after escalation.
    RemovalFailed(String),
    /// No tracked workspace carries the given id.
    NotTracked(String),
}

impl WtError {
    /// The error's text, as the caller shows it.
    pub open spec fn text(&self) -> Seq<char> {
        match self {
            WtError::InvalidArgument(m) => m@,
            WtError::PathConflict(m) => m@,
            WtError::FetchFailed(m) => m@,
            WtError::CommandFailed(m) => m@,
            WtError::DirectoryNotCreated(m) => m@,
            WtError::RemovalFailed(m) => m@,
            WtError::NotTracked(m) => m@,
        }
    }

    /// A copy of the error's text.
    pub fn message(&self) -> (r: String)
        ensures
            r@ == self.text(),
    {
        match self {
            WtError::InvalidArgument(m) => m.clone(),
            WtError::PathConflict(m) => m.clone(),
            WtError::FetchFailed(m) => m.clone(),
            WtError::CommandFailed(m) => m.clone(),
            WtError::DirectoryNotCreated(m) => m.clone(),
            WtError::RemovalFailed(m) => m.clone(),
            WtError::NotTracked(m) => m.clone(),
        }
    }
}

/// The operator-provided hints stored per project: remote, branch and base
/// ref, any of which may be stale or absent.
pub struct ProjectSettingsRow {
    pub git_remote: Option<String>,
    pub git_branch: Option<String>,
    pub base_ref: Option<String>,
}

/// The mathematical shadow of a settings row.
pub struct RowView {
    pub git_remote: Option<Seq<char>>,
    pub git_branch: Option<Seq<char>>,
    pub base_ref: Option<Seq<char>>,
}

impl View for ProjectSettingsRow {
    type V = RowView;

    open spec fn view(&self) -> RowView {
        RowView {
            git_remote: match self.git_remote {
                Option::Some(s) => Option::Some(s@),
                Option::None => Option::None,
            },
            git_branch: match self.git_branch {
                Option::Some(s) => Option::Some(s@),
                Option::None => Option::None,
            },
            base_ref: match self.base_ref {
                Option::Some(s) => Option::Some(s@),
                Option::None => Option::None,
            },
        }
    }
}

/// The arguments of a `RunGit` action, by view; empty for other actions.
pub open spec fn git_args(a: &Action) -> Seq<Seq<char>> {
    match a {
        Action::RunGit { args, .. } => args@.map_values(|s: String| s@),
        _ => Seq::empty(),
    }
}

/// The working directory of a `RunGit` action.
pub open spec fn git_cwd(a: &Action) -> Seq<char> {
    match a {
        Action::RunGit { cwd, .. } => cwd@,
        _ => Seq::empty(),
    }
}

/// Push a literal argument onto a git argument list.
pub fn push_arg(args: &mut Vec<String>, s: &str)
    ensures
        final(args)@.map_values(|x: String| x@) == old(args)@.map_values(|x: String| x@).push(s@),
        final(args)@.len() == old(args)@.len() + 1,
        final(args)@[old(args)@.len() as int]@ == s@,
        forall|i: int| 0 <= i < old(args)@.len() ==> final(args)@[i] == old(args)@[i],
{
    let ghost prev = args@;
    args.push(s.to_owned());
    proof {
        assert(args@.map_values(|x: String| x@) =~= prev.map_values(|x: String| x@).push(s@));
    }
}

} // verus!
