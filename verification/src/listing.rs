//! Listing workspaces: parse the tool's worktree listing, recognise managed
//! entries by branch prefix or registry path, hand back tracked records
//! verbatim and synthesize records for managed-but-untracked directories.

use vstd::prelude::*;

use crate::baseref::{ran_err, ran_ok, ran_stdout};
use crate::chars::{
    chars_of, concat_chars, eq_chars, matches_at, matches_at_spec, string_from_chars, sub_chars,
    trim_edges, trimmed_edges, TrimClass,
};
use crate::clock::now_rfc3339;
use crate::effects::{git_args, git_cwd, Action, Event, Step, WtError};
use crate::identity::{id_prefix, stable_id_from_path};
use crate::naming::{extract_template_prefix, template_prefix};
use crate::parse::{parse_worktree_list, parsed_worktrees, WtEntry};
use crate::registry::{
    dup_string, first_by_path, has_path, InfoView, WorktreeInfo, WorktreeState,
};

verus! {

/// The built-in managed branch prefixes.
pub open spec fn base_prefixes() -> Seq<Seq<char>> {
    seq!["agent"@, "pr"@, "orch"@]
}

/// The managed prefixes in force under a branch template: the built-in three
/// and, when new, the template's own literal prefix.
pub open spec fn managed_prefixes_of(template: Seq<char>) -> Seq<Seq<char>> {
    match template_prefix(template) {
        Option::Some(p) => if base_prefixes().contains(p) {
            base_prefixes()
        } else {
            base_prefixes().push(p)
        },
        Option::None => base_prefixes(),
    }
}

/// Whether `b` is `p` itself or begins with `p` followed by `/`, `-`, `.`
/// or `_`.
pub open spec fn branch_matches_prefix(b: Seq<char>, p: Seq<char>) -> bool {
    b == p || matches_at_spec(b, p + "/"@, 0) || matches_at_spec(b, p + "-"@, 0)
        || matches_at_spec(b, p + "."@, 0) || matches_at_spec(b, p + "_"@, 0)
}

/// Whether some managed prefix claims the branch.
pub open spec fn managed_branch(b: Seq<char>, prefixes: Seq<Seq<char>>) -> bool {
    exists|i: int| 0 <= i < prefixes.len() && branch_matches_prefix(b, #[trigger] prefixes[i])
}

/// Build the managed prefixes for a template.
pub fn managed_prefixes(template: &str) -> (out: Vec<String>)
    ensures
        out@.map_values(|s: String| s@) == managed_prefixes_of(template@),
{
    let mut out: Vec<String> = Vec::new();
    crate::effects::push_arg(&mut out, "agent");
    crate::effects::push_arg(&mut out, "pr");
    crate::effects::push_arg(&mut out, "orch");
    proof {
        assert(out@.map_values(|s: String| s@) =~= base_prefixes());
    }
    match extract_template_prefix(template) {
        Some(p) => {
            let pv = chars_of(p.as_str());
            let known = eq_chars(&pv, &chars_of("agent")) || eq_chars(&pv, &chars_of("pr"))
                || eq_chars(&pv, &chars_of("orch"));
            proof {
                assert(base_prefixes()[0] == "agent"@);
                assert(base_prefixes()[1] == "pr"@);
                assert(base_prefixes()[2] == "orch"@);
                if base_prefixes().contains(p@) {
                    let i = choose|i: int|
                        0 <= i < base_prefixes().len() && base_prefixes()[i] == p@;
                    assert(i == 0 || i == 1 || i == 2);
                }
            }
            if known {
                out
            } else {
                let ghost before = out@;
                out.push(p);
                proof {
                    assert(out@.map_values(|s: String| s@) =~= before.map_values(|s: String| s@)
                        .push(template_prefix(template@)->Some_0));
                }
                out
            }
        },
        None => out,
    }
}

/// Whether any of `prefixes` claims the branch.
pub fn is_managed_branch(branch: &Vec<char>, prefixes: &Vec<String>) -> (r: bool)
    ensures
        r == managed_branch(branch@, prefixes@.map_values(|s: String| s@)),
{
    let ghost pviews = prefixes@.map_values(|s: String| s@);
    let n = prefixes.len();
    let mut i: usize = 0;
    while i < n
        invariant
            pviews == prefixes@.map_values(|s: String| s@),
            n == prefixes@.len(),
            i <= n,
            forall|j: int| 0 <= j < i ==> !branch_matches_prefix(branch@, #[trigger] pviews[j]),
        decreases n - i,
    {
        let pv = chars_of(prefixes[i].as_str());
        let hit = {
            if eq_chars(branch, &pv) {
                true
            } else {
                let sep1 = concat_chars(&pv, &chars_of("/"));
                let sep2 = concat_chars(&pv, &chars_of("-"));
                let sep3 = concat_chars(&pv, &chars_of("."));
                let sep4 = concat_chars(&pv, &chars_of("_"));
                matches_at(branch, &sep1, 0) || matches_at(branch, &sep2, 0) || matches_at(
                    branch,
                    &sep3,
                    0,
                ) || matches_at(branch, &sep4, 0)
            }
        };
        proof {
            assert(pviews[i as int] == pv@);
        }
        if hit {
            proof {
                assert(branch_matches_prefix(branch@, pviews[i as int]));
            }
            return true;
        }
        i = i + 1;
    }
    proof {
        if managed_branch(branch@, pviews) {
            let j = choose|j: int|
                0 <= j < pviews.len() && branch_matches_prefix(branch@, #[trigger] pviews[j]);
            assert(!branch_matches_prefix(branch@, pviews[j]));
        }
    }
    false
}

/// The last `/` of `s`, or `-1`.
pub open spec fn last_slash(s: Seq<char>) -> int
    decreases s.len(),
{
    if s.len() == 0 {
        -1
    } else if s.last() == '/' {
        s.len() - 1
    } else {
        last_slash(s.drop_last())
    }
}

/// What stands after the last `/`: the whole text when there is none.
pub open spec fn file_name_of(s: Seq<char>) -> Seq<char> {
    s.skip(last_slash(s) + 1)
}

pub proof fn lemma_last_slash_pub(s: Seq<char>, i: int)
    requires
        -1 <= i < s.len(),
        i >= 0 ==> s[i] == '/',
        forall|j: int| i < j < s.len() ==> s[j] != '/',
    ensures
        last_slash(s) == i,
{
    lemma_last_slash(s, i);
}

proof fn lemma_last_slash(s: Seq<char>, i: int)
    requires
        -1 <= i < s.len(),
        i >= 0 ==> s[i] == '/',
        forall|j: int| i < j < s.len() ==> s[j] != '/',
    ensures
        last_slash(s) == i,
    decreases s.len(),
{
    if s.len() > 0 && s.last() != '/' {
        let t = s.drop_last();
        assert(forall|j: int| 0 <= j < t.len() ==> t[j] == s[j]);
        lemma_last_slash(t, i);
    }
}

/// The text after the last `/`, as a fresh vector.
pub fn take_file_name(h: &Vec<char>) -> (v: Vec<char>)
    ensures
        v@ == file_name_of(h@),
{
    match crate::chars::last_index_of_char(h, '/') {
        Some(i) => {
            let hl = h.len();
            proof {
                lemma_last_slash(h@, i as int);
                assert(i < hl);
            }
            let v = sub_chars(h, i + 1, hl);
            proof {
                assert(v@ =~= h@.skip(i + 1));
            }
            v
        },
        None => {
            proof {
                lemma_last_slash(h@, -1);
            }
            let v = sub_chars(h, 0, h.len());
            proof {
                assert(v@ =~= h@.skip(0));
            }
            v
        },
    }
}

/// One record the listing yields: either a tracked record handed back
/// verbatim, or one synthesized for a managed directory found on disk.
pub enum ListedItem {
    Known(InfoView),
    Fresh { path: Seq<char>, branch: Seq<char>, name: Seq<char> },
}

pub open spec fn item_path(it: ListedItem) -> Seq<char> {
    match it {
        ListedItem::Known(v) => v.path,
        ListedItem::Fresh { path, .. } => path,
    }
}

/// The records the listing yields for parsed worktree entries: a tracked
/// path's record verbatim; a managed, untracked entry synthesized; anything
/// else omitted.
pub open spec fn listed_items(
    entries: Seq<(Seq<char>, Seq<char>)>,
    rows: Seq<WorktreeInfo>,
    prefixes: Seq<Seq<char>>,
) -> Seq<ListedItem>
    decreases entries.len(),
{
    if entries.len() == 0 {
        Seq::empty()
    } else {
        let e = entries[0];
        let rest = listed_items(entries.drop_first(), rows, prefixes);
        match first_by_path(rows, e.0) {
            Option::Some(v) => seq![ListedItem::Known(v)] + rest,
            Option::None => if managed_branch(e.1, prefixes) {
                seq![ListedItem::Fresh { path: e.0, branch: e.1, name: file_name_of(e.0) }] + rest
            } else {
                rest
            },
        }
    }
}

/// Whether `ws` realises `items`: same length, tracked records equal by
/// view, synthesized records fresh and active with a stable id.
pub open spec fn realises(
    ws: Seq<WorktreeInfo>,
    items: Seq<ListedItem>,
    project_name: Seq<char>,
) -> bool {
    ws.len() == items.len() && forall|i: int|
        0 <= i < ws.len() ==> match #[trigger] items[i] {
            ListedItem::Known(v) => ws[i]@ == v,
            ListedItem::Fresh { path, branch, name } => ws[i]@.path == path && ws[i]@.branch
                == branch && ws[i]@.name == name && ws[i]@.project_id == project_name && ws[i]@.status
                == "active"@ && ws[i]@.last_activity is None && ws[i]@.id.len() == 15
                && ws[i]@.id.take(3) == id_prefix(),
        }
}

/// Build the listing from the tool's output, the registry and the managed
/// prefixes.
pub fn build_listing(
    reg: &WorktreeState,
    project_path: &str,
    template: &str,
    stdout: &str,
) -> (out: Vec<WorktreeInfo>)
    ensures
        realises(
            out@,
            listed_items(
                parsed_worktrees(stdout@),
                reg.rows(),
                managed_prefixes_of(template@),
            ),
            file_name_of(project_path@),
        ),
{
    let prefixes = managed_prefixes(template);
    let entries = parse_worktree_list(stdout);
    let ppv = chars_of(project_path);
    let project_name = string_from_chars(&take_file_name(&ppv));
    let ghost all = parsed_worktrees(stdout@);
    let ghost pviews = managed_prefixes_of(template@);
    let mut out: Vec<WorktreeInfo> = Vec::new();
    let ghost mut items_done: Seq<ListedItem> = Seq::empty();
    let mut k: usize = 0;
    proof {
        assert(all.skip(0) =~= all);
        assert((Seq::<ListedItem>::empty() + listed_items(all, reg.rows(), pviews)) =~= (
        listed_items(all, reg.rows(), pviews)));
    }
    while k < entries.len()
        invariant
            reg.rows() == reg.rows(),
            all == parsed_worktrees(stdout@),
            pviews == managed_prefixes_of(template@),
            prefixes@.map_values(|s: String| s@) == pviews,
            entries@.map_values(|e: WtEntry| (e.path@, e.branch@)) == all,
            project_name@ == file_name_of(project_path@),
            k <= all.len(),
            listed_items(all, reg.rows(), pviews) == items_done + listed_items(
                all.skip(k as int),
                reg.rows(),
                pviews,
            ),
            realises(out@, items_done, file_name_of(project_path@)),
        decreases all.len() - k,
    {
        let ghost rest = all.skip(k as int);
        let ghost done_before = items_done;
        let ghost out_before = out@;
        proof {
            assert(rest.len() > 0);
            assert(rest[0] == all[k as int]);
            assert(rest.drop_first() =~= all.skip(k + 1));
        }
        let entry = &entries[k];
        let looked = reg.get_by_path(entry.path.as_str());
        match looked {
            Some(info) => {
                let ghost iv = info@;
                out.push(info);
                proof {
                    items_done = done_before.push(ListedItem::Known(iv));
                    assert(listed_items(rest, reg.rows(), pviews) =~= seq![ListedItem::Known(iv)]
                        + listed_items(rest.drop_first(), reg.rows(), pviews));
                    assert((done_before + listed_items(rest, reg.rows(), pviews)) =~= (items_done
                        + listed_items(all.skip(k + 1), reg.rows(), pviews)));
                    assert(realises(out@, items_done, file_name_of(project_path@)));
                }
            },
            None => {
                let bv = chars_of(entry.branch.as_str());
                if is_managed_branch(&bv, &prefixes) {
                    let pv = chars_of(entry.path.as_str());
                    let name = string_from_chars(&take_file_name(&pv));
                    let id = stable_id_from_path(entry.path.as_str());
                    let info = WorktreeInfo {
                        id,
                        name,
                        branch: dup_string(&entry.branch),
                        path: dup_string(&entry.path),
                        project_id: dup_string(&project_name),
                        status: "active".to_owned(),
                        created_at: now_rfc3339(),
                        last_activity: None,
                    };
                    let ghost fresh = ListedItem::Fresh {
                        path: rest[0].0,
                        branch: rest[0].1,
                        name: file_name_of(rest[0].0),
                    };
                    out.push(info);
                    proof {
                        items_done = done_before.push(fresh);
                        assert(listed_items(rest, reg.rows(), pviews) =~= seq![fresh]
                            + listed_items(rest.drop_first(), reg.rows(), pviews));
                        assert((done_before + listed_items(rest, reg.rows(), pviews)) =~= (
                        items_done + listed_items(all.skip(k + 1), reg.rows(), pviews)));
                        assert(realises(out@, items_done, file_name_of(project_path@)));
                    }
                } else {
                    proof {
                        assert(listed_items(rest, reg.rows(), pviews) == listed_items(
                            rest.drop_first(),
                            reg.rows(),
                            pviews,
                        ));
                    }
                }
            },
        }
        k = k + 1;
    }
    proof {
        assert(all.skip(all.len() as int) =~= Seq::<(Seq<char>, Seq<char>)>::empty());
        assert((items_done + Seq::<ListedItem>::empty()) =~= items_done);
    }
    out
}

/// Where a listing stands.
pub enum ListSt {
    AwaitList,
    Finished,
}

/// Lists the workspaces of one project, reconciling the registry with what
/// is on disk.
pub struct ListFlow {
    pub st: ListSt,
    pub project_path: String,
    pub template: String,
}

impl ListFlow {
    /// Begin a listing: fail at once for a blank project path, else ask for
    /// the tool's worktree listing.
    pub fn start(project_path: &str, template: &str) -> (r: (ListFlow, Step<Vec<WorktreeInfo>>))
        ensures
            r.0.template@ == template@,
            ({
                let pt = trimmed_edges(project_path@, TrimClass::Space);
                if pt.len() == 0 {
                    (match r.1 {
                        Step::Done(res) => match res {
                            Result::Ok(_) => false,
                            Result::Err(we) => (we is InvalidArgument) && we.text()
                                == "projectPath is required"@,
                        },
                        _ => false,
                    })
                } else {
                    r.0.project_path@ == pt && (r.0.st is AwaitList) && (match r.1 {
                        Step::Run(a) => git_args(&a) == seq!["worktree"@, "list"@] && git_cwd(&a)
                            == pt,
                        _ => false,
                    })
                }
            }),
    {
        let ppv = chars_of(project_path);
        let ppt = trim_edges(&ppv, TrimClass::Space);
        if ppt.len() == 0 {
            let flow = ListFlow {
                st: ListSt::Finished,
                project_path: project_path.to_owned(),
                template: template.to_owned(),
            };
            return (flow, Step::Done(Err(WtError::InvalidArgument(
                "projectPath is required".to_owned(),
            ))));
        }
        let pp = string_from_chars(&ppt);
        let mut args: Vec<String> = Vec::new();
        crate::effects::push_arg(&mut args, "worktree");
        crate::effects::push_arg(&mut args, "list");
        proof {
            assert(args@.map_values(|x: String| x@) =~= seq!["worktree"@, "list"@]);
        }
        let cwd = pp.clone();
        let flow = ListFlow {
            st: ListSt::AwaitList,
            project_path: pp,
            template: template.to_owned(),
        };
        (flow, Step::Run(Action::RunGit { args, cwd }))
    }

    /// Feed back the listing command's outcome.
    pub fn on_event(&mut self, reg: &WorktreeState, ev: &Event) -> (step: Step<Vec<WorktreeInfo>>)
        requires
            old(self).st is AwaitList,
            ev matches Event::Ran { .. },
        ensures
            final(self).st is Finished,
            (if ran_ok(ev) {
                match step {
                    Step::Done(res) => match res {
                        Result::Ok(ws) => realises(
                            ws@,
                            listed_items(
                                parsed_worktrees(ran_stdout(ev)),
                                reg.rows(),
                                managed_prefixes_of(old(self).template@),
                            ),
                            file_name_of(old(self).project_path@),
                        ),
                        Result::Err(_) => false,
                    },
                    _ => false,
                }
            } else {
                match step {
                    Step::Done(res) => match res {
                        Result::Ok(_) => false,
                        Result::Err(we) => (we is CommandFailed) && we.text() == ran_err(ev),
                    },
                    _ => false,
                }
            }),
    {
        self.st = ListSt::Finished;
        let (ok, stdout, error): (bool, &String, &String) = match ev {
            Event::Ran { ok, stdout, error } => (*ok, stdout, error),
            _ => vstd::pervasive::unreached(),
        };
        if ok {
            let ws = build_listing(
                reg,
                self.project_path.as_str(),
                self.template.as_str(),
                stdout.as_str(),
            );
            Step::Done(Ok(ws))
        } else {
            Step::Done(Err(WtError::CommandFailed(error.clone())))
        }
    }
}

/// How many listed records carry the path `q`.
pub open spec fn count_with_path(items: Seq<ListedItem>, q: Seq<char>) -> int
    decreases items.len(),
{
    if items.len() == 0 {
        0
    } else {
        (if item_path(items[0]) == q {
            1int
        } else {
            0int
        }) + count_with_path(items.drop_first(), q)
    }
}

/// How many parsed entries carry the path `q`.
pub open spec fn count_entries_path(entries: Seq<(Seq<char>, Seq<char>)>, q: Seq<char>) -> int
    decreases entries.len(),
{
    if entries.len() == 0 {
        0
    } else {
        (if entries[0].0 == q {
            1int
        } else {
            0int
        }) + count_entries_path(entries.drop_first(), q)
    }
}

proof fn lemma_count_items(
    entries: Seq<(Seq<char>, Seq<char>)>,
    rows: Seq<WorktreeInfo>,
    prefixes: Seq<Seq<char>>,
    q: Seq<char>,
)
    requires
        crate::registry::has_path(rows, q),
    ensures
        count_with_path(listed_items(entries, rows, prefixes), q) == count_entries_path(
            entries,
            q,
        ),
    decreases entries.len(),
{
    crate::registry::lemma_first_by_path_hit(rows, q);
    if entries.len() > 0 {
        let e = entries[0];
        lemma_count_items(entries.drop_first(), rows, prefixes, q);
        let rest = listed_items(entries.drop_first(), rows, prefixes);
        crate::registry::lemma_first_by_path_hit(rows, e.0);
        match first_by_path(rows, e.0) {
            Option::Some(v) => {
                let its = seq![ListedItem::Known(v)] + rest;
                assert(its.drop_first() =~= rest);
                assert(v.path == e.0);
            },
            Option::None => {
                assert(!crate::registry::has_path(rows, e.0));
                assert(e.0 != q);
                if managed_branch(e.1, prefixes) {
                    let it = ListedItem::Fresh { path: e.0, branch: e.1, name: file_name_of(e.0) };
                    let its = seq![it] + rest;
                    assert(its.drop_first() =~= rest);
                }
            },
        }
    }
}

/// Law: when the tool lists a registered workspace's path exactly once — as
/// it does right after that workspace was created — the listing yields
/// exactly one record with that path.
pub proof fn lemma_created_listed_once(
    entries: Seq<(Seq<char>, Seq<char>)>,
    rows: Seq<WorktreeInfo>,
    prefixes: Seq<Seq<char>>,
    q: Seq<char>,
)
    requires
        crate::registry::has_path(rows, q),
        count_entries_path(entries, q) == 1,
    ensures
        count_with_path(listed_items(entries, rows, prefixes), q) == 1,
{
    lemma_count_items(entries, rows, prefixes, q);
}

} // verus!
