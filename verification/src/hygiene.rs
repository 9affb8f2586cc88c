//! Workspace hygiene after creation: make sure the agent's stream log is
//! listed in the worktree's local exclude file, resolving the `.git`
//! file-versus-directory indirection first.

use vstd::prelude::*;

use crate::chars::{
    chars_of, contains_seq, has_sub, matches_at, matches_at_spec, string_from_chars, sub_chars,
    trim_edges, trimmed_edges, TrimClass,
};
use crate::effects::{Action, Event, Step};
use crate::parse::{split_lines, split_lines_spec};

verus! {

/// The directory a `.git` *file* points at: the last `gitdir:` line naming
/// something non-blank, trimmed.
pub open spec fn gitdir_lines(ls: Seq<Seq<char>>) -> Option<Seq<char>>
    decreases ls.len(),
{
    if ls.len() == 0 {
        Option::None
    } else {
        let l = ls.last();
        if matches_at_spec(l, "gitdir:"@, 0) && trimmed_edges(l.skip(7), TrimClass::Space).len()
            > 0 {
            Option::Some(trimmed_edges(l.skip(7), TrimClass::Space))
        } else {
            gitdir_lines(ls.drop_last())
        }
    }
}

pub open spec fn gitdir_of(content: Seq<char>) -> Option<Seq<char>> {
    gitdir_lines(split_lines_spec(content))
}

/// Read the pointed-at directory out of a `.git` file's content.
pub fn parse_gitdir(content: &str) -> (r: Option<String>)
    ensures
        match r {
            Some(d) => gitdir_of(content@) == Option::Some(d@),
            None => gitdir_of(content@) is None,
        },
{
    let all = chars_of(content);
    let lines = split_lines(&all);
    let ghost ls = split_lines_spec(content@);
    let marker = chars_of("gitdir:");
    let mut k: usize = lines.len();
    proof {
        assert(ls.take(ls.len() as int) =~= ls);
    }
    while k > 0
        invariant
            ls == split_lines_spec(content@),
            lines@.map_values(|l: Vec<char>| l@) == ls,
            marker@ == "gitdir:"@,
            k <= ls.len(),
            gitdir_lines(ls) == gitdir_lines(ls.take(k as int)),
        decreases k,
    {
        k = k - 1;
        let ghost part = ls.take(k + 1);
        proof {
            assert(part.len() == k + 1);
            assert(part.last() == ls[k as int]);
            assert(part.drop_last() =~= ls.take(k as int));
        }
        let line = &lines[k];
        if matches_at(line, &marker, 0) {
            proof {
                reveal_strlit("gitdir:");
                assert(marker@.len() == 7);
            }
            let rest = sub_chars(line, 7, line.len());
            proof {
                assert(rest@ =~= line@.skip(7));
            }
            let dir = trim_edges(&rest, TrimClass::Space);
            if dir.len() > 0 {
                proof {
                    assert(gitdir_lines(part) == Option::Some(dir@));
                }
                return Some(string_from_chars(&dir));
            }
        }
    }
    proof {
        assert(ls.take(0) =~= Seq::<Seq<char>>::empty());
    }
    None
}

/// Join a possibly absolute entry onto a base directory: an absolute entry
/// replaces the base.
pub open spec fn joined_path(base: Seq<char>, entry: Seq<char>) -> Seq<char> {
    if entry.len() > 0 && entry[0] == '/' {
        entry
    } else {
        base + "/"@ + entry
    }
}

/// Join `entry` onto `base`.
pub fn join_path(base: &str, entry: &str) -> (r: String)
    ensures
        r@ == joined_path(base@, entry@),
{
    let ev = chars_of(entry);
    if ev.len() > 0 && ev[0] == '/' {
        entry.to_owned()
    } else {
        let mut r: String = base.to_owned();
        r.append("/");
        r.append(entry);
        r
    }
}

/// The exclude file's next content: the log's name appended on its own line,
/// after a newline when the text does not already end in one.
pub open spec fn appended_exclude(current: Seq<char>) -> Seq<char> {
    if current.len() > 0 && current.last() != '\n' {
        current + "\n"@ + "codex-stream.log\n"@
    } else {
        current + "codex-stream.log\n"@
    }
}

/// Append the log's name to the exclude text.
pub fn append_exclude_line(current: &str) -> (r: String)
    ensures
        r@ == appended_exclude(current@),
{
    let cv = chars_of(current);
    let mut r: String = current.to_owned();
    if cv.len() > 0 && cv[cv.len() - 1] != '\n' {
        proof {
            assert(cv@.last() == cv@[cv@.len() - 1]);
        }
        r.append("\n");
    }
    r.append("codex-stream.log\n");
    r
}

/// Where the exclude-file hygiene stands.
pub enum ExcludeSt {
    /// The `.git` path is being probed for file-versus-directory.
    AwaitGitProbe,
    /// The `.git` file's text is being read for its `gitdir:` pointer.
    AwaitGitRead,
    /// The exclude file is being read.
    AwaitExcludeRead { exclude_path: String },
    /// The appended exclude text is being written; the outcome is ignored.
    AwaitExcludeWrite,
    Finished,
}

pub open spec fn path_exists(ev: &Event) -> bool {
    match ev {
        Event::PathInfo { exists, .. } => *exists,
        _ => false,
    }
}

pub open spec fn path_is_file(ev: &Event) -> bool {
    match ev {
        Event::PathInfo { is_file, .. } => *is_file,
        _ => false,
    }
}

pub open spec fn read_ok(ev: &Event) -> bool {
    match ev {
        Event::FileRead { ok, .. } => *ok,
        _ => false,
    }
}

pub open spec fn read_content(ev: &Event) -> Seq<char> {
    match ev {
        Event::FileRead { content, .. } => content@,
        _ => Seq::empty(),
    }
}

/// What the hygiene flow does next, mathematically.
pub enum ExcludeNext {
    ReadGitFile,
    ReadExclude(Seq<char>),
    WriteExclude(Seq<char>, Seq<char>),
    Finish,
}

/// The action that a hygiene step `nx` runs.
pub open spec fn exclude_action_matches(a: &Action, nx: ExcludeNext, wt_path: Seq<char>) -> bool {
    match nx {
        ExcludeNext::ReadGitFile => (match a {
            Action::ReadFile { path } => path@ == wt_path + "/.git"@,
            _ => false,
        }),
        ExcludeNext::ReadExclude(p) => (match a {
            Action::ReadFile { path } => path@ == p,
            _ => false,
        }),
        ExcludeNext::WriteExclude(p, text) => (match a {
            Action::WriteFile { path, content } => path@ == p && content@ == text,
            _ => false,
        }),
        ExcludeNext::Finish => false,
    }
}

/// The exclude path under a resolved git metadata directory.
pub open spec fn exclude_path_of(git_dir: Seq<char>) -> Seq<char> {
    git_dir + "/info/exclude"@
}

/// The step an answered action leads to.
pub open spec fn exclude_on_next(st: ExcludeSt, wt_path: Seq<char>, ev: &Event) -> ExcludeNext {
    match st {
        ExcludeSt::AwaitGitProbe => {
            if path_exists(ev) && path_is_file(ev) {
                ExcludeNext::ReadGitFile
            } else {
                ExcludeNext::ReadExclude(exclude_path_of(wt_path + "/.git"@))
            }
        },
        ExcludeSt::AwaitGitRead => {
            let git_dir = if read_ok(ev) {
                match gitdir_of(read_content(ev)) {
                    Option::Some(d) => joined_path(wt_path, d),
                    Option::None => wt_path + "/.git"@,
                }
            } else {
                wt_path + "/.git"@
            };
            ExcludeNext::ReadExclude(exclude_path_of(git_dir))
        },
        ExcludeSt::AwaitExcludeRead { exclude_path } => {
            let current = if read_ok(ev) {
                read_content(ev)
            } else {
                Seq::empty()
            };
            if contains_seq(current, "codex-stream.log"@) {
                ExcludeNext::Finish
            } else {
                ExcludeNext::WriteExclude(exclude_path@, appended_exclude(current))
            }
        },
        ExcludeSt::AwaitExcludeWrite => ExcludeNext::Finish,
        ExcludeSt::Finished => ExcludeNext::Finish,
    }
}

/// Keeps the agent's stream log ignored inside a fresh worktree. All its
/// failures are swallowed: the workspace is already valid.
pub struct ExcludeFlow {
    pub st: ExcludeSt,
    pub wt_path: String,
}

impl ExcludeFlow {
    /// Which event the flow's pending action is answered with.
    pub open spec fn expects(&self, ev: &Event) -> bool {
        match self.st {
            ExcludeSt::AwaitGitProbe => ev is PathInfo,
            ExcludeSt::AwaitGitRead => ev is FileRead,
            ExcludeSt::AwaitExcludeRead { .. } => ev is FileRead,
            ExcludeSt::AwaitExcludeWrite => ev is FsDone,
            ExcludeSt::Finished => false,
        }
    }

    /// Whether the flow's state is the one `nx` enters.
    pub open spec fn at(&self, nx: ExcludeNext) -> bool {
        match nx {
            ExcludeNext::ReadGitFile => self.st is AwaitGitRead,
            ExcludeNext::ReadExclude(p) => (match self.st {
                ExcludeSt::AwaitExcludeRead { exclude_path } => exclude_path@ == p,
                _ => false,
            }),
            ExcludeNext::WriteExclude(_, _) => self.st is AwaitExcludeWrite,
            ExcludeNext::Finish => self.st is Finished,
        }
    }

    /// Whether this flow stands where `nx` says, with `step` as its answer.
    pub open spec fn emits(&self, step: &Step<()>, nx: ExcludeNext) -> bool {
        self.at(nx) && match nx {
            ExcludeNext::Finish => (match step {
                Step::Done(res) => res is Ok,
                _ => false,
            }),
            _ => (match step {
                Step::Run(a) => exclude_action_matches(a, nx, self.wt_path@),
                _ => false,
            }),
        }
    }

    /// Begin the hygiene pass: the first action probes the `.git` entry.
    pub fn start(wt_path: &str) -> (r: (ExcludeFlow, Step<()>))
        ensures
            r.0.st is AwaitGitProbe,
            r.0.wt_path@ == wt_path@,
            (match r.1 {
                Step::Run(a) => match a {
                    Action::CheckPath { path } => path@ == wt_path@ + "/.git"@,
                    _ => false,
                },
                _ => false,
            }),
    {
        let mut p: String = wt_path.to_owned();
        p.append("/.git");
        (
            ExcludeFlow { st: ExcludeSt::AwaitGitProbe, wt_path: wt_path.to_owned() },
            Step::Run(Action::CheckPath { path: p }),
        )
    }

    /// Feed back the outcome of the action the flow last asked for.
    pub fn on_event(&mut self, ev: &Event) -> (step: Step<()>)
        requires
            old(self).expects(ev),
        ensures
            final(self).wt_path@ == old(self).wt_path@,
            final(self).emits(&step, exclude_on_next(old(self).st, old(self).wt_path@, ev)),
    {
        let mut st = ExcludeSt::Finished;
        core::mem::swap(&mut st, &mut self.st);
        match st {
            ExcludeSt::AwaitGitProbe => {
                let (exists, is_file): (bool, bool) = match ev {
                    Event::PathInfo { exists, is_file } => (*exists, *is_file),
                    _ => vstd::pervasive::unreached(),
                };
                if exists && is_file {
                    self.st = ExcludeSt::AwaitGitRead;
                    let mut p: String = self.wt_path.clone();
                    p.append("/.git");
                    Step::Run(Action::ReadFile { path: p })
                } else {
                    let mut g: String = self.wt_path.clone();
                    g.append("/.git");
                    self.read_exclude_of(g)
                }
            },
            ExcludeSt::AwaitGitRead => {
                let (ok, content): (bool, &String) = match ev {
                    Event::FileRead { ok, content } => (*ok, content),
                    _ => vstd::pervasive::unreached(),
                };
                let git_dir: String = if ok {
                    match parse_gitdir(content.as_str()) {
                        Some(d) => join_path(self.wt_path.as_str(), d.as_str()),
                        None => {
                            let mut g: String = self.wt_path.clone();
                            g.append("/.git");
                            g
                        },
                    }
                } else {
                    let mut g: String = self.wt_path.clone();
                    g.append("/.git");
                    g
                };
                self.read_exclude_of(git_dir)
            },
            ExcludeSt::AwaitExcludeRead { exclude_path } => {
                let (ok, content): (bool, &String) = match ev {
                    Event::FileRead { ok, content } => (*ok, content),
                    _ => vstd::pervasive::unreached(),
                };
                let current: &str = if ok {
                    content.as_str()
                } else {
                    ""
                };
                proof {
                    reveal_strlit("");
                    assert(""@ =~= Seq::<char>::empty());
                }
                let cv = chars_of(current);
                let mark = chars_of("codex-stream.log");
                if has_sub(&cv, &mark) {
                    self.st = ExcludeSt::Finished;
                    Step::Done(Ok(()))
                } else {
                    let text = append_exclude_line(current);
                    self.st = ExcludeSt::AwaitExcludeWrite;
                    Step::Run(Action::WriteFile { path: exclude_path, content: text })
                }
            },
            ExcludeSt::AwaitExcludeWrite => {
                self.st = ExcludeSt::Finished;
                Step::Done(Ok(()))
            },
            ExcludeSt::Finished => vstd::pervasive::unreached(),
        }
    }

    fn read_exclude_of(&mut self, git_dir: String) -> (step: Step<()>)
        ensures
            final(self).wt_path@ == old(self).wt_path@,
            (match final(self).st {
                ExcludeSt::AwaitExcludeRead { exclude_path } => exclude_path@ == exclude_path_of(
                    git_dir@,
                ),
                _ => false,
            }),
            (match step {
                Step::Run(a) => match a {
                    Action::ReadFile { path } => path@ == exclude_path_of(git_dir@),
                    _ => false,
                },
                _ => false,
            }),
    {
        let mut p: String = git_dir;
        p.append("/info/exclude");
        let p2 = p.clone();
        self.st = ExcludeSt::AwaitExcludeRead { exclude_path: p };
        Step::Run(Action::ReadFile { path: p2 })
    }
}

} // verus!
