//! Normalizing the stored project settings: remote aliases, base-ref
//! normalization against a remote name, and splitting migration scripts into
//! statements.

use vstd::prelude::*;

use crate::chars::{
    chars_of, contains_seq, has_char, has_sub, index_of_char, matches_at_spec, string_from_chars,
    sub_chars, trim_edges, trimmed_edges, TrimClass,
};
use crate::parse::{first_sub_idx, idx_of, lemma_first_sub_idx, lemma_idx_of, find_sub_from};

verus! {

/// The branch assumed when nothing names one.
pub fn default_branch() -> (r: String)
    ensures
        r@ == "main"@,
{
    "main".to_owned()
}

/// Whether every character is an ASCII alphanumeric or `.`, `_`, `-` — the
/// shape of a usable remote name.
pub open spec fn simple_remote_name(s: Seq<char>) -> bool {
    s.len() > 0 && forall|i: int|
        0 <= i < s.len() ==> (('a' <= #[trigger] s[i] && s[i] <= 'z') || ('A' <= s[i] && s[i]
            <= 'Z') || ('0' <= s[i] && s[i] <= '9') || s[i] == '.' || s[i] == '_' || s[i] == '-')
}

pub fn is_simple_remote_name(value: &str) -> (r: bool)
    ensures
        r == simple_remote_name(value@),
{
    let v = chars_of(value);
    if v.len() == 0 {
        return false;
    }
    let mut i: usize = 0;
    while i < v.len()
        invariant
            v@ == value@,
            i <= v@.len(),
            forall|j: int|
                0 <= j < i ==> (('a' <= #[trigger] v@[j] && v@[j] <= 'z') || ('A' <= v@[j] && v@[j]
                    <= 'Z') || ('0' <= v@[j] && v@[j] <= '9') || v@[j] == '.' || v@[j] == '_'
                    || v@[j] == '-'),
        decreases v@.len() - i,
    {
        let c = v[i];
        let ok = ('a' <= c && c <= 'z') || ('A' <= c && c <= 'Z') || ('0' <= c && c <= '9') || c
            == '.' || c == '_' || c == '-';
        if !ok {
            return false;
        }
        i = i + 1;
    }
    true
}

/// The remote actually used for a stored hint: a trimmed, simple name is
/// kept; anything blank, URL-like or odd falls back to `origin`.
pub open spec fn remote_alias_of(remote: Option<Seq<char>>) -> Seq<char> {
    match remote {
        Option::Some(r) => {
            let t = trimmed_edges(r, TrimClass::Space);
            if t.len() == 0 {
                "origin"@
            } else if contains_seq(t, "://"@) {
                "origin"@
            } else if simple_remote_name(t) {
                t
            } else {
                "origin"@
            }
        },
        Option::None => "origin"@,
    }
}

pub fn remote_alias(remote: Option<&str>) -> (r: String)
    ensures
        (match remote {
            Option::Some(s) => r@ == remote_alias_of(Option::Some(s@)),
            Option::None => r@ == remote_alias_of(Option::None),
        }),
{
    match remote {
        Some(s) => {
            let sv = chars_of(s);
            let t = trim_edges(&sv, TrimClass::Space);
            if t.len() == 0 {
                return "origin".to_owned();
            }
            let url_mark = chars_of("://");
            if has_sub(&t, &url_mark) {
                return "origin".to_owned();
            }
            let ts = string_from_chars(&t);
            if is_simple_remote_name(ts.as_str()) {
                ts
            } else {
                "origin".to_owned()
            }
        },
        None => "origin".to_owned(),
    }
}

/// A stored ref hint normalized against a remote name: `remote/branch`
/// shapes pass through, bare branches gain the remote, URL-like or blank
/// hints are rejected.
pub open spec fn normalized_ref(value: Option<Seq<char>>, remote: Seq<char>) -> Option<Seq<char>> {
    match value {
        Option::None => Option::None,
        Option::Some(raw) => {
            let t = trimmed_edges(raw, TrimClass::Space);
            if t.len() == 0 || contains_seq(t, "://"@) {
                Option::None
            } else if t.contains('/') {
                let i = idx_of(t, '/');
                let head = trimmed_edges(t.take(i), TrimClass::Space);
                let rest = trimmed_edges(t.skip(i + 1), TrimClass::Space);
                if head.len() == 0 && rest.len() == 0 {
                    Option::None
                } else if head.len() > 0 && rest.len() > 0 {
                    Option::Some(head + "/"@ + rest)
                } else if head.len() == 0 && rest.len() > 0 {
                    Option::Some(remote + "/"@ + rest)
                } else {
                    Option::None
                }
            } else {
                Option::Some(remote + "/"@ + t)
            }
        },
    }
}

pub fn normalize_ref(value: Option<&str>, remote_name: &str) -> (r: Option<String>)
    ensures
        (match (value, r) {
            (Option::Some(s), Option::Some(out)) => normalized_ref(Option::Some(s@), remote_name@)
                == Option::Some(out@),
            (Option::Some(s), Option::None) => normalized_ref(Option::Some(s@), remote_name@)
                is None,
            (Option::None, Option::None) => true,
            _ => false,
        }),
{
    let raw = match value {
        Some(s) => s,
        None => {
            return None;
        },
    };
    let rv = chars_of(raw);
    let t = trim_edges(&rv, TrimClass::Space);
    if t.len() == 0 {
        return None;
    }
    let url_mark = chars_of("://");
    if has_sub(&t, &url_mark) {
        return None;
    }
    if has_char(&t, '/') {
        let i = match index_of_char(&t, '/', 0) {
            Some(i) => i,
            None => {
                proof {
                    let w = choose|w: int| 0 <= w < t@.len() && t@[w] == '/';
                    assert(t@[w] != '/');
                }
                0
            },
        };
        proof {
            lemma_idx_of(t@, '/', i as int);
        }
        let head0 = sub_chars(&t, 0, i);
        let rest0 = sub_chars(&t, i + 1, t.len());
        proof {
            assert(head0@ =~= t@.take(i as int));
            assert(rest0@ =~= t@.skip(i + 1));
        }
        let head = trim_edges(&head0, TrimClass::Space);
        let rest = trim_edges(&rest0, TrimClass::Space);
        if head.len() == 0 && rest.len() == 0 {
            None
        } else if head.len() > 0 && rest.len() > 0 {
            let mut out = string_from_chars(&head);
            out.append("/");
            let rs = string_from_chars(&rest);
            out.append(rs.as_str());
            Some(out)
        } else if head.len() == 0 && rest.len() > 0 {
            let mut out: String = remote_name.to_owned();
            out.append("/");
            let rs = string_from_chars(&rest);
            out.append(rs.as_str());
            Some(out)
        } else {
            None
        }
    } else {
        let mut out: String = remote_name.to_owned();
        out.append("/");
        let ts = string_from_chars(&t);
        out.append(ts.as_str());
        Some(out)
    }
}

/// The base ref stored for a project: the preferred hint normalized, else
/// the branch hint normalized, else `remote/main`.
pub open spec fn computed_base_ref(
    preferred: Option<Seq<char>>,
    remote: Option<Seq<char>>,
    branch: Option<Seq<char>>,
) -> Seq<char> {
    let rn = remote_alias_of(remote);
    match normalized_ref(preferred, rn) {
        Option::Some(r) => r,
        Option::None => match normalized_ref(branch, rn) {
            Option::Some(r) => r,
            Option::None => rn + "/"@ + "main"@,
        },
    }
}

pub fn compute_base_ref(preferred: Option<&str>, remote: Option<&str>, branch: Option<&str>) -> (r:
    String)
    ensures
        r@ == computed_base_ref(
            match preferred {
                Option::Some(s) => Option::Some(s@),
                Option::None => Option::None,
            },
            match remote {
                Option::Some(s) => Option::Some(s@),
                Option::None => Option::None,
            },
            match branch {
                Option::Some(s) => Option::Some(s@),
                Option::None => Option::None,
            },
        ),
{
    let rn = remote_alias(remote);
    match normalize_ref(preferred, rn.as_str()) {
        Some(r) => r,
        None => match normalize_ref(branch, rn.as_str()) {
            Some(r) => r,
            None => {
                let mut out = rn;
                out.append("/");
                out.append("main");
                out
            },
        },
    }
}

/// The statement-breakpoint marker between migration statements.
pub open spec fn breakpoint_mark() -> Seq<char> {
    "--> statement-breakpoint"@
}

/// The chunks of `s` split at each marker, in order, before trimming.
pub open spec fn split_on_mark(s: Seq<char>, mark: Seq<char>) -> Seq<Seq<char>>
    decreases s.len(),
{
    if mark.len() == 0 {
        seq![s]
    } else {
        let i = first_sub_idx(s, mark);
        if 0 <= i && i + mark.len() <= s.len() {
            seq![s.take(i)] + split_on_mark(s.skip(i + mark.len()), mark)
        } else {
            seq![s]
        }
    }
}

/// The migration statements of a script: the chunks between breakpoint
/// markers, trimmed, blank ones dropped.
pub open spec fn statements_of(chunks: Seq<Seq<char>>) -> Seq<Seq<char>>
    decreases chunks.len(),
{
    if chunks.len() == 0 {
        Seq::empty()
    } else {
        let t = trimmed_edges(chunks[0], TrimClass::Space);
        let rest = statements_of(chunks.drop_first());
        if t.len() == 0 {
            rest
        } else {
            seq![t] + rest
        }
    }
}

/// Split a migration script into trimmed, non-blank statements.
pub fn split_statements(contents: &str) -> (out: Vec<String>)
    ensures
        out@.map_values(|s: String| s@) == statements_of(
            split_on_mark(contents@, breakpoint_mark()),
        ),
{
    let all = chars_of(contents);
    let mark = chars_of("--> statement-breakpoint");
    proof {
        reveal_strlit("--> statement-breakpoint");
        assert(mark@.len() == 24);
    }
    let mut out: Vec<String> = Vec::new();
    let mut pos: usize = 0;
    let ghost m = breakpoint_mark();
    proof {
        assert(all@.skip(0) =~= all@);
        assert((Seq::<Seq<char>>::empty() + statements_of(split_on_mark(all@, m))) =~= (
        statements_of(split_on_mark(all@, m))));
    }
    while pos <= all.len()
        invariant_except_break
            mark@ == m,
            m.len() == 24,
            pos <= all@.len(),
            all@ == contents@,
            statements_of(split_on_mark(contents@, m)) == out@.map_values(|s: String| s@)
                + statements_of(split_on_mark(all@.skip(pos as int), m)),
        ensures
            out@.map_values(|s: String| s@) == statements_of(split_on_mark(contents@, m)),
        decreases all@.len() + 1 - pos,
    {
        let ghost rest = all@.skip(pos as int);
        let ghost outprev = out@;
        let found = find_sub_from(&all, &mark, pos);
        let (chunk, next_pos, last): (Vec<char>, usize, bool) = match found {
            Some(i) => {
                proof {
                    assert forall|j: int| 0 <= j < i - pos implies !matches_at_spec(rest, m, j) by {
                        if matches_at_spec(rest, m, j) {
                            assert(rest.subrange(j, j + m.len()) =~= all@.subrange(
                                pos + j,
                                pos + j + m.len(),
                            ));
                            assert(matches_at_spec(all@, m, pos + j));
                        }
                    }
                    assert(rest.subrange(i - pos, i - pos + m.len()) =~= all@.subrange(
                        i as int,
                        i + m.len(),
                    ));
                    assert(matches_at_spec(rest, m, i - pos));
                    lemma_first_sub_idx(rest, m, i - pos);
                    assert(first_sub_idx(rest, m) == i - pos);
                    assert(rest.take(i - pos) =~= all@.subrange(pos as int, i as int));
                    assert(rest.skip(i - pos + m.len()) =~= all@.skip(i + m.len()));
                }
                (sub_chars(&all, pos, i), i + 24, false)
            },
            None => {
                proof {
                    assert forall|j: int| 0 <= j implies !matches_at_spec(rest, m, j) by {
                        if matches_at_spec(rest, m, j) {
                            assert(rest.subrange(j, j + m.len()) =~= all@.subrange(
                                pos + j,
                                pos + j + m.len(),
                            ));
                            assert(matches_at_spec(all@, m, pos + j));
                        }
                    }
                    if contains_seq(rest, m) {
                        let j = choose|j: int| matches_at_spec(rest, m, j);
                        assert(!matches_at_spec(rest, m, j));
                    }
                    lemma_first_sub_idx(rest, m, rest.len() as int);
                    assert(first_sub_idx(rest, m) == rest.len());
                    assert(rest.take(rest.len() as int) =~= rest);
                    assert(rest =~= all@.subrange(pos as int, all@.len() as int));
                }
                (sub_chars(&all, pos, all.len()), 0, true)
            },
        };
        let ghost chunks_rest = split_on_mark(rest, m);
        proof {
            if !last {
                assert(chunks_rest == seq![rest.take(first_sub_idx(rest, m))] + split_on_mark(
                    rest.skip(first_sub_idx(rest, m) + m.len()),
                    m,
                ));
            } else {
                assert(!(first_sub_idx(rest, m) + m.len() <= rest.len()));
                assert(chunks_rest == seq![rest]);
            }
            assert(chunks_rest[0] == chunk@);
        }
        let t = trim_edges(&chunk, TrimClass::Space);
        if t.len() > 0 {
            out.push(string_from_chars(&t));
        }
        proof {
            let tailchunks: Seq<Seq<char>> = if last {
                Seq::empty()
            } else {
                split_on_mark(all@.skip(next_pos as int), m)
            };
            assert(chunks_rest.drop_first() =~= tailchunks);
            assert(statements_of(chunks_rest) == (if trimmed_edges(
                chunk@,
                TrimClass::Space,
            ).len() == 0 {
                statements_of(tailchunks)
            } else {
                seq![trimmed_edges(chunk@, TrimClass::Space)] + statements_of(tailchunks)
            }));
            if t@.len() > 0 {
                assert(out@.map_values(|s: String| s@) =~= outprev.map_values(|s: String| s@).push(
                    t@,
                ));
                assert((outprev.map_values(|s: String| s@) + statements_of(chunks_rest)) =~= (
                out@.map_values(|s: String| s@) + statements_of(tailchunks)));
            } else {
                assert((outprev.map_values(|s: String| s@) + statements_of(chunks_rest)) =~= (
                out@.map_values(|s: String| s@) + statements_of(tailchunks)));
            }
            if last {
                assert((out@.map_values(|s: String| s@) + Seq::<Seq<char>>::empty()) =~= (
                out@.map_values(|s: String| s@)));
                assert(statements_of(Seq::<Seq<char>>::empty()) =~= Seq::<Seq<char>>::empty());
            }
        }
        if last {
            break ;
        }
        pos = next_pos;
    }
    out
}

/// The payload of a stored base-ref update: which project, and the ref text
/// as the operator entered it.
pub struct ProjectSettingsUpdate {
    pub project_id: String,
    pub base_ref: String,
}

} // verus!
