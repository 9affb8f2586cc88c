//! Parsing of the version-control tool's text output: line splitting,
//! substring search, and the specific shapes the lifecycle reads (remote
//! lists, advertised HEAD branches, worktree listings, porcelain status).

use vstd::prelude::*;

use crate::chars::{
    chars_of, class_holds, contains_seq, has_char, in_class, index_of_char,
    lemma_trimmed_front_skip, matches_at, matches_at_spec, string_from_chars, sub_chars,
    trim_edges, trimmed_edges, trimmed_front, TrimClass,
};

verus! {

/// The first index of `c` in `s`, or `s.len()` when `c` is absent.
pub open spec fn idx_of(s: Seq<char>, c: char) -> int
    decreases s.len(),
{
    if s.len() == 0 {
        0
    } else if s[0] == c {
        0
    } else {
        1 + idx_of(s.drop_first(), c)
    }
}

pub proof fn lemma_idx_of(s: Seq<char>, c: char, i: int)
    requires
        0 <= i <= s.len(),
        forall|j: int| 0 <= j < i ==> s[j] != c,
        i < s.len() ==> s[i] == c,
    ensures
        idx_of(s, c) == i,
    decreases i,
{
    if i == 0 {
    } else {
        let t = s.drop_first();
        assert(forall|j: int| 0 <= j < i - 1 ==> t[j] == s[j + 1]);
        lemma_idx_of(t, c, i - 1);
    }
}

/// The first index where `pat` occurs in `s`, or `s.len()` when it never
/// does.
pub open spec fn first_sub_idx(s: Seq<char>, pat: Seq<char>) -> int
    decreases s.len(),
{
    if matches_at_spec(s, pat, 0) {
        0
    } else if s.len() == 0 {
        0
    } else {
        1 + first_sub_idx(s.drop_first(), pat)
    }
}

proof fn lemma_matches_shift(s: Seq<char>, pat: Seq<char>, j: int)
    requires
        s.len() > 0,
        j >= 0,
    ensures
        matches_at_spec(s, pat, j + 1) == matches_at_spec(s.drop_first(), pat, j),
{
    let t = s.drop_first();
    if j + 1 + pat.len() <= s.len() {
        assert(s.subrange(j + 1, j + 1 + pat.len()) =~= t.subrange(j, j + pat.len()));
    }
}

pub proof fn lemma_first_sub_idx(s: Seq<char>, pat: Seq<char>, i: int)
    requires
        0 <= i <= s.len(),
        forall|j: int| 0 <= j < i ==> !matches_at_spec(s, pat, j),
        i < s.len() || matches_at_spec(s, pat, i) ==> matches_at_spec(s, pat, i),
        i == s.len() ==> !contains_seq(s, pat) || matches_at_spec(s, pat, i),
    ensures
        matches_at_spec(s, pat, i) ==> first_sub_idx(s, pat) == i,
        !contains_seq(s, pat) ==> first_sub_idx(s, pat) == s.len(),
    decreases s.len(),
{
    if matches_at_spec(s, pat, 0) {
        if i > 0 {
            assert(!matches_at_spec(s, pat, 0));
        }
    } else if s.len() == 0 {
    } else {
        let t = s.drop_first();
        if matches_at_spec(s, pat, i) {
            assert(i > 0);
            lemma_matches_shift(s, pat, i - 1);
            assert forall|j: int| 0 <= j < i - 1 implies !matches_at_spec(t, pat, j) by {
                lemma_matches_shift(s, pat, j);
            }
            lemma_first_sub_idx(t, pat, i - 1);
        } else {
            assert(i == s.len() && !contains_seq(s, pat));
            assert forall|j: int| 0 <= j < t.len() + 1 implies !matches_at_spec(t, pat, j) by {
                if j < t.len() {
                    lemma_matches_shift(s, pat, j);
                    assert(!matches_at_spec(s, pat, j + 1));
                } else {
                    // a match at t.len() would need pat to be empty, which
                    // would match s at 0
                    if matches_at_spec(t, pat, j) {
                        assert(pat.len() == 0);
                        assert(s.subrange(0, 0) =~= pat);
                        assert(matches_at_spec(s, pat, 0));
                    }
                }
            }
            if contains_seq(t, pat) {
                let j = choose|j: int| matches_at_spec(t, pat, j);
                assert(!matches_at_spec(t, pat, j));
            }
            lemma_first_sub_idx(t, pat, t.len() as int);
        }
    }
}

/// The first index at or after `from` where `n` occurs in `h`.
pub fn find_sub_from(h: &Vec<char>, n: &Vec<char>, from: usize) -> (r: Option<usize>)
    ensures
        match r {
            Some(i) => from <= i && matches_at_spec(h@, n@, i as int) && forall|j: int|
                from <= j < i ==> !matches_at_spec(h@, n@, j),
            None => forall|j: int| from <= j ==> !matches_at_spec(h@, n@, j),
        },
{
    let hl = h.len();
    if from > hl {
        return None;
    }
    let mut at: usize = from;
    while at < hl
        invariant
            hl == h@.len(),
            from <= at <= hl,
            forall|j: int| from <= j < at ==> !matches_at_spec(h@, n@, j),
        decreases hl - at,
    {
        if matches_at(h, n, at) {
            return Some(at);
        }
        at = at + 1;
    }
    if matches_at(h, n, hl) {
        return Some(hl);
    }
    assert forall|j: int| from <= j implies !matches_at_spec(h@, n@, j) by {
        if j > h@.len() {
            assert(!matches_at_spec(h@, n@, j));
        }
    }
    None
}

/// `s` with every leading repetition of `pat` removed.
pub open spec fn strip_prefix_all(s: Seq<char>, pat: Seq<char>) -> Seq<char>
    decreases s.len(),
{
    if pat.len() > 0 && matches_at_spec(s, pat, 0) {
        strip_prefix_all(s.skip(pat.len() as int), pat)
    } else {
        s
    }
}

/// Remove every leading repetition of `pat` from `h`.
pub fn strip_prefix_repeated(h: &Vec<char>, pat: &Vec<char>) -> (v: Vec<char>)
    ensures
        v@ == strip_prefix_all(h@, pat@),
{
    if pat.len() == 0 {
        let v = sub_chars(h, 0, h.len());
        assert(h@.subrange(0, h@.len() as int) =~= h@);
        return v;
    }
    let hl = h.len();
    let mut at: usize = 0;
    proof {
        assert(h@.skip(0) =~= h@);
    }
    while matches_at(h, pat, at)
        invariant
            hl == h@.len(),
            pat@.len() > 0,
            at <= hl,
            strip_prefix_all(h@, pat@) == strip_prefix_all(h@.skip(at as int), pat@),
        decreases hl - at,
    {
        proof {
            let rest = h@.skip(at as int);
            assert(rest.subrange(0, pat@.len() as int) =~= h@.subrange(at as int, at + pat@.len()));
            assert(matches_at_spec(rest, pat@, 0));
            assert(rest.skip(pat@.len() as int) =~= h@.skip(at + pat@.len()));
            assert(strip_prefix_all(rest, pat@) == strip_prefix_all(
                h@.skip(at + pat@.len()),
                pat@,
            ));
            assert(at + pat@.len() <= hl);
        }
        at = at + pat.len();
    }
    proof {
        let rest = h@.skip(at as int);
        if matches_at_spec(rest, pat@, 0) {
            assert(rest.subrange(0, pat@.len() as int) =~= h@.subrange(at as int, at + pat@.len()));
            assert(matches_at_spec(h@, pat@, at as int));
        }
        assert(strip_prefix_all(rest, pat@) == rest);
    }
    let v = sub_chars(h, at, hl);
    proof {
        assert(h@.subrange(at as int, h@.len() as int) =~= h@.skip(at as int));
    }
    v
}

/// The lines of `s`, as `str::lines` yields them: split at `\n`, a `\r`
/// just before the split removed, no empty final line for a trailing `\n`.
pub open spec fn split_lines_spec(s: Seq<char>) -> Seq<Seq<char>>
    decreases s.len(),
{
    if s.len() == 0 {
        Seq::empty()
    } else {
        let i = idx_of(s, '\n');
        if 0 <= i && i < s.len() {
            seq![chop_cr(s.take(i))] + split_lines_spec(s.skip(i + 1))
        } else {
            seq![s]
        }
    }
}

/// A line with a trailing carriage return removed.
pub open spec fn chop_cr(l: Seq<char>) -> Seq<char> {
    if l.len() > 0 && l.last() == '\r' {
        l.drop_last()
    } else {
        l
    }
}

/// Split `h` into lines.
pub fn split_lines(h: &Vec<char>) -> (out: Vec<Vec<char>>)
    ensures
        out@.map_values(|l: Vec<char>| l@) == split_lines_spec(h@),
{
    let mut out: Vec<Vec<char>> = Vec::new();
    let mut pos: usize = 0;
    proof {
        assert(h@.skip(0) =~= h@);
        assert(out@.map_values(|l: Vec<char>| l@) =~= Seq::<Seq<char>>::empty());
    }
    while pos < h.len()
        invariant
            pos <= h@.len(),
            split_lines_spec(h@) == out@.map_values(|l: Vec<char>| l@) + split_lines_spec(
                h@.skip(pos as int),
            ),
        decreases h@.len() - pos,
    {
        let ghost rest = h@.skip(pos as int);
        let ghost outprev = out@;
        let nl = crate::chars::index_of_char(h, '\n', pos);
        match nl {
            Some(i) => {
                proof {
                    assert(forall|j: int| 0 <= j < i - pos ==> rest[j] == h@[pos + j]);
                    lemma_idx_of(rest, '\n', i - pos);
                    assert(rest.take(i - pos) =~= h@.subrange(pos as int, i as int));
                    assert(rest.skip(i - pos + 1) =~= h@.skip(i + 1));
                }
                let mut line = sub_chars(h, pos, i);
                if line.len() > 0 && line[line.len() - 1] == '\r' {
                    let chopped = sub_chars(&line, 0, line.len() - 1);
                    proof {
                        assert(line@.subrange(0, line@.len() - 1) =~= line@.drop_last());
                    }
                    line = chopped;
                }
                out.push(line);
                proof {
                    assert(out@.map_values(|l: Vec<char>| l@) =~= outprev.map_values(
                        |l: Vec<char>| l@,
                    ).push(chop_cr(rest.take(i - pos))));
                    assert(split_lines_spec(rest) =~= seq![chop_cr(rest.take(i - pos))]
                        + split_lines_spec(rest.skip(i - pos + 1)));
                    assert((outprev.map_values(|l: Vec<char>| l@) + split_lines_spec(rest)) =~= (
                    out@.map_values(|l: Vec<char>| l@) + split_lines_spec(h@.skip(i + 1))));
                }
                pos = i + 1;
            },
            None => {
                proof {
                    assert(forall|j: int| 0 <= j < rest.len() ==> rest[j] == h@[pos + j]);
                    lemma_idx_of(rest, '\n', rest.len() as int);
                    assert(split_lines_spec(rest) =~= seq![rest]);
                    assert(rest =~= h@.subrange(pos as int, h@.len() as int));
                }
                let line = sub_chars(h, pos, h.len());
                out.push(line);
                proof {
                    assert(out@.map_values(|l: Vec<char>| l@) =~= outprev.map_values(
                        |l: Vec<char>| l@,
                    ).push(rest));
                    assert((outprev.map_values(|l: Vec<char>| l@) + split_lines_spec(rest)) =~= (
                    out@.map_values(|l: Vec<char>| l@)));
                    assert(h@.skip(h@.len() as int) =~= Seq::<char>::empty());
                    assert((out@.map_values(|l: Vec<char>| l@) + Seq::<Seq<char>>::empty()) =~= (
                    out@.map_values(|l: Vec<char>| l@)));
                }
                pos = h.len();
            },
        }
    }
    proof {
        if pos == h@.len() {
            assert(h@.skip(pos as int) =~= Seq::<char>::empty());
            assert((out@.map_values(|l: Vec<char>| l@) + Seq::<Seq<char>>::empty()) =~= (
            out@.map_values(|l: Vec<char>| l@)));
        }
    }
    out
}

} // verus!

verus! {

/// The first index of a class-`k` character in `s`, or `s.len()`.
pub open spec fn idx_of_class(s: Seq<char>, k: TrimClass) -> int
    decreases s.len(),
{
    if s.len() == 0 {
        0
    } else if in_class(s[0], k) {
        0
    } else {
        1 + idx_of_class(s.drop_first(), k)
    }
}

pub proof fn lemma_idx_of_class(s: Seq<char>, k: TrimClass, i: int)
    requires
        0 <= i <= s.len(),
        forall|j: int| 0 <= j < i ==> !in_class(s[j], k),
        i < s.len() ==> in_class(s[i], k),
    ensures
        idx_of_class(s, k) == i,
    decreases i,
{
    if i > 0 {
        let t = s.drop_first();
        assert(forall|j: int| 0 <= j < i - 1 ==> t[j] == s[j + 1]);
        lemma_idx_of_class(t, k, i - 1);
    }
}

/// The first whitespace-separated token of `l`, or the empty sequence when
/// `l` is all whitespace.
pub open spec fn first_token(l: Seq<char>) -> Seq<char> {
    let t = trimmed_front(l, TrimClass::Space);
    t.take(idx_of_class(t, TrimClass::Space))
}

/// The first whitespace-separated token of `h`.
pub fn take_first_token(h: &Vec<char>) -> (v: Vec<char>)
    ensures
        v@ == first_token(h@),
{
    let hl = h.len();
    let mut a: usize = 0;
    while a < hl && class_holds(h[a], TrimClass::Space)
        invariant
            hl == h@.len(),
            a <= hl,
            forall|j: int| 0 <= j < a ==> in_class(h@[j], TrimClass::Space),
        decreases hl - a,
    {
        a = a + 1;
    }
    proof {
        lemma_trimmed_front_skip(h@, TrimClass::Space, a as int);
    }
    let mut b: usize = a;
    while b < hl && !class_holds(h[b], TrimClass::Space)
        invariant
            hl == h@.len(),
            a <= b <= hl,
            forall|j: int| a <= j < b ==> !in_class(h@[j], TrimClass::Space),
        decreases hl - b,
    {
        b = b + 1;
    }
    proof {
        let t = h@.skip(a as int);
        assert(forall|j: int| 0 <= j < t.len() ==> t[j] == h@[j + a]);
        lemma_idx_of_class(t, TrimClass::Space, b - a);
        assert(t.take(b - a) =~= h@.subrange(a as int, b as int));
    }
    sub_chars(h, a, b)
}

/// The `HEAD branch:` marker that `git remote show` prints.
pub open spec fn head_marker() -> Seq<char> {
    seq!['H', 'E', 'A', 'D', ' ', 'b', 'r', 'a', 'n', 'c', 'h', ':']
}

/// The advertised HEAD branch named by the first line carrying the marker
/// followed by something non-blank.
pub open spec fn head_branch_lines(ls: Seq<Seq<char>>) -> Option<Seq<char>>
    decreases ls.len(),
{
    if ls.len() == 0 {
        Option::None
    } else {
        let l = ls[0];
        if contains_seq(l, head_marker()) {
            let after = trimmed_edges(
                l.skip(first_sub_idx(l, head_marker()) + head_marker().len()),
                TrimClass::Space,
            );
            if after.len() > 0 {
                Option::Some(after)
            } else {
                head_branch_lines(ls.drop_first())
            }
        } else {
            head_branch_lines(ls.drop_first())
        }
    }
}

/// What `head_branch_of_output` extracts from the remote-info text.
pub open spec fn head_branch_spec(s: Seq<char>) -> Option<Seq<char>> {
    head_branch_lines(split_lines_spec(s))
}

/// Scan remote-info output for a `HEAD branch:` line and return the branch
/// it names, if any line names one.
pub fn head_branch_of_output(stdout: &str) -> (r: Option<String>)
    ensures
        match r {
            Some(b) => head_branch_spec(stdout@) == Option::Some(b@),
            None => head_branch_spec(stdout@) is None,
        },
{
    let all = chars_of(stdout);
    let lines = split_lines(&all);
    let ghost ls = split_lines_spec(stdout@);
    let marker: Vec<char> = vec!['H', 'E', 'A', 'D', ' ', 'b', 'r', 'a', 'n', 'c', 'h', ':'];
    assert(marker@ =~= head_marker());
    let mut k: usize = 0;
    proof {
        assert(ls.skip(0) =~= ls);
    }
    while k < lines.len()
        invariant
            ls == split_lines_spec(stdout@),
            lines@.map_values(|l: Vec<char>| l@) == ls,
            k <= ls.len(),
            marker@ == head_marker(),
            head_branch_lines(ls) == head_branch_lines(ls.skip(k as int)),
        decreases ls.len() - k,
    {
        let ghost rest = ls.skip(k as int);
        let line = &lines[k];
        proof {
            assert(rest[0] == ls[k as int]);
            assert(rest.drop_first() =~= ls.skip(k + 1));
        }
        let found = find_sub_from(line, &marker, 0);
        match found {
            Some(i) => {
                proof {
                    lemma_first_sub_idx(line@, marker@, i as int);
                    assert(i + marker@.len() <= line@.len());
                    assert(contains_seq(line@, marker@));
                    assert(head_marker().len() == 12);
                }
                let ll = line.len();
                proof {
                    assert(i + 12 <= ll);
                }
                let after = sub_chars(line, i + 12, ll);
                proof {
                    assert(after@ =~= line@.skip(i + head_marker().len()));
                }
                let branch = trim_edges(&after, TrimClass::Space);
                if branch.len() > 0 {
                    let r = string_from_chars(&branch);
                    proof {
                        assert(rest.len() > 0);
                        assert(head_branch_lines(rest) == Option::Some(branch@));
                    }
                    return Some(r);
                }
                proof {
                    assert(head_branch_lines(rest) == head_branch_lines(rest.drop_first()));
                }
            },
            None => {
                proof {
                    if contains_seq(line@, marker@) {
                        let j = choose|j: int| matches_at_spec(line@, marker@, j);
                        assert(!matches_at_spec(line@, marker@, j));
                    }
                    assert(head_branch_lines(rest) == head_branch_lines(rest.drop_first()));
                }
            },
        }
        k = k + 1;
    }
    proof {
        assert(ls.skip(ls.len() as int) =~= Seq::<Seq<char>>::empty());
    }
    None
}

/// Whether some line of `git remote` output, trimmed, equals `remote`.
pub open spec fn remote_listed(s: Seq<char>, remote: Seq<char>) -> bool {
    exists|i: int|
        0 <= i < split_lines_spec(s).len() && trimmed_edges(
            #[trigger] split_lines_spec(s)[i],
            TrimClass::Space,
        ) == remote
}

/// Whether the configured remotes named by `git remote` output include
/// `remote`.
pub fn output_lists_remote(stdout: &str, remote: &str) -> (r: bool)
    ensures
        r == remote_listed(stdout@, remote@),
{
    let all = chars_of(stdout);
    let lines = split_lines(&all);
    let want = chars_of(remote);
    let ghost ls = split_lines_spec(stdout@);
    let mut k: usize = 0;
    while k < lines.len()
        invariant
            ls == split_lines_spec(stdout@),
            lines@.map_values(|l: Vec<char>| l@) == ls,
            want@ == remote@,
            k <= ls.len(),
            forall|i: int| 0 <= i < k ==> trimmed_edges(#[trigger] ls[i], TrimClass::Space)
                != remote@,
        decreases ls.len() - k,
    {
        let t = trim_edges(&lines[k], TrimClass::Space);
        if crate::chars::eq_chars(&t, &want) {
            proof {
                assert(ls == split_lines_spec(stdout@));
                assert(trimmed_edges(split_lines_spec(stdout@)[k as int], TrimClass::Space)
                    == remote@);
                assert(remote_listed(stdout@, remote@));
            }
            return true;
        }
        k = k + 1;
    }
    proof {
        if remote_listed(stdout@, remote@) {
            let i = choose|i: int|
                0 <= i < split_lines_spec(stdout@).len() && trimmed_edges(
                    #[trigger] split_lines_spec(stdout@)[i],
                    TrimClass::Space,
                ) == remote@;
            assert(trimmed_edges(ls[i], TrimClass::Space) != remote@);
        }
    }
    false
}

} // verus!

verus! {

/// One line of `git worktree list` output, reduced to the fields the
/// lifecycle reads.
pub struct WtEntry {
    pub path: String,
    pub branch: String,
}

/// The bracketed branch of a listing line: what stands after the first `[`,
/// cut at the next `[` or `]`.
pub open spec fn wt_branch_of(l: Seq<char>) -> Seq<char> {
    let after = l.skip(idx_of(l, '[') + 1);
    let seg = after.take(idx_of(after, '['));
    seg.take(idx_of(seg, ']'))
}

/// The worktree entry a listing line describes: its first token is the path
/// and the bracketed text is the branch; lines without brackets or a path
/// are no entry.
pub open spec fn wt_entry_of_line(l: Seq<char>) -> Option<(Seq<char>, Seq<char>)> {
    if l.contains('[') && l.contains(']') && first_token(l).len() > 0 {
        Option::Some((first_token(l), wt_branch_of(l)))
    } else {
        Option::None
    }
}

pub open spec fn parsed_worktrees_lines(ls: Seq<Seq<char>>) -> Seq<(Seq<char>, Seq<char>)>
    decreases ls.len(),
{
    if ls.len() == 0 {
        Seq::empty()
    } else {
        match wt_entry_of_line(ls[0]) {
            Option::Some(e) => seq![e] + parsed_worktrees_lines(ls.drop_first()),
            Option::None => parsed_worktrees_lines(ls.drop_first()),
        }
    }
}

/// The entries that `git worktree list` output describes, in order.
pub open spec fn parsed_worktrees(s: Seq<char>) -> Seq<(Seq<char>, Seq<char>)> {
    parsed_worktrees_lines(split_lines_spec(s))
}

/// Parse `git worktree list` output into path/branch entries.
pub fn parse_worktree_list(stdout: &str) -> (out: Vec<WtEntry>)
    ensures
        out@.map_values(|e: WtEntry| (e.path@, e.branch@)) == parsed_worktrees(stdout@),
{
    let all = chars_of(stdout);
    let lines = split_lines(&all);
    let ghost ls = split_lines_spec(stdout@);
    let mut out: Vec<WtEntry> = Vec::new();
    let mut k: usize = 0;
    proof {
        assert(ls.skip(0) =~= ls);
        assert(out@.map_values(|e: WtEntry| (e.path@, e.branch@)) =~= Seq::<(
            Seq<char>,
            Seq<char>,
        )>::empty());
        assert((Seq::<(Seq<char>, Seq<char>)>::empty() + parsed_worktrees_lines(ls)) =~= (
        parsed_worktrees_lines(ls)));
    }
    while k < lines.len()
        invariant
            ls == split_lines_spec(stdout@),
            lines@.map_values(|l: Vec<char>| l@) == ls,
            k <= ls.len(),
            parsed_worktrees_lines(ls) == out@.map_values(|e: WtEntry| (e.path@, e.branch@))
                + parsed_worktrees_lines(ls.skip(k as int)),
        decreases ls.len() - k,
    {
        let ghost rest = ls.skip(k as int);
        let ghost outprev = out@;
        proof {
            assert(rest.len() > 0);
            assert(rest[0] == ls[k as int]);
            assert(rest.drop_first() =~= ls.skip(k + 1));
        }
        let line = &lines[k];
        let has_open = has_char(line, '[');
        let has_close = has_char(line, ']');
        let token = take_first_token(line);
        if has_open && has_close && token.len() > 0 {
            let i1 = match index_of_char(line, '[', 0) {
                Some(i) => i,
                None => {
                    proof {
                        let w = choose|w: int| 0 <= w < line@.len() && line@[w] == '[';
                        assert(line@[w] != '[');
                    }
                    0
                },
            };
            proof {
                lemma_idx_of(line@, '[', i1 as int);
            }
            let after = sub_chars(line, i1 + 1, line.len());
            proof {
                assert(after@ =~= line@.skip(i1 + 1));
            }
            let seg = match index_of_char(&after, '[', 0) {
                Some(j) => {
                    proof {
                        lemma_idx_of(after@, '[', j as int);
                    }
                    let s = sub_chars(&after, 0, j);
                    proof {
                        assert(s@ =~= after@.take(j as int));
                    }
                    s
                },
                None => {
                    proof {
                        lemma_idx_of(after@, '[', after@.len() as int);
                        assert(after@.take(after@.len() as int) =~= after@);
                    }
                    after
                },
            };
            let branch_chars = match index_of_char(&seg, ']', 0) {
                Some(j) => {
                    proof {
                        lemma_idx_of(seg@, ']', j as int);
                    }
                    let s = sub_chars(&seg, 0, j);
                    proof {
                        assert(s@ =~= seg@.take(j as int));
                    }
                    s
                },
                None => {
                    proof {
                        lemma_idx_of(seg@, ']', seg@.len() as int);
                        assert(seg@.take(seg@.len() as int) =~= seg@);
                    }
                    seg
                },
            };
            let entry = WtEntry {
                path: string_from_chars(&token),
                branch: string_from_chars(&branch_chars),
            };
            proof {
                assert(branch_chars@ == wt_branch_of(line@));
                assert(wt_entry_of_line(rest[0]) == Option::Some((token@, branch_chars@)));
            }
            out.push(entry);
            proof {
                assert(out@.map_values(|e: WtEntry| (e.path@, e.branch@)) =~= outprev.map_values(
                    |e: WtEntry| (e.path@, e.branch@),
                ).push((token@, branch_chars@)));
                assert(parsed_worktrees_lines(rest) =~= seq![(token@, branch_chars@)]
                    + parsed_worktrees_lines(rest.drop_first()));
                assert((outprev.map_values(|e: WtEntry| (e.path@, e.branch@))
                    + parsed_worktrees_lines(rest)) =~= (out@.map_values(
                    |e: WtEntry| (e.path@, e.branch@),
                ) + parsed_worktrees_lines(ls.skip(k + 1))));
            }
        } else {
            proof {
                assert(wt_entry_of_line(rest[0]) is None);
                assert(parsed_worktrees_lines(rest) == parsed_worktrees_lines(rest.drop_first()));
            }
        }
        k = k + 1;
    }
    proof {
        assert(ls.skip(ls.len() as int) =~= Seq::<Seq<char>>::empty());
        assert((out@.map_values(|e: WtEntry| (e.path@, e.branch@)) + Seq::<(
            Seq<char>,
            Seq<char>,
        )>::empty()) =~= out@.map_values(|e: WtEntry| (e.path@, e.branch@)));
    }
    out
}

} // verus!

verus! {


/// `s` followed by the elements of `v`.
fn prepend_string(v: &Vec<String>, s: String) -> (out: Vec<String>)
    ensures
        out@.map_values(|x: String| x@) == seq![s@] + v@.map_values(|x: String| x@),
{
    let ghost sv = s@;
    let mut out: Vec<String> = Vec::new();
    out.push(s);
    let mut j: usize = 0;
    proof {
        assert(out@.map_values(|x: String| x@) =~= seq![sv] + v@.map_values(|x: String| x@).take(
            0,
        ));
    }
    while j < v.len()
        invariant
            j <= v@.len(),
            out@.map_values(|x: String| x@) == seq![sv] + v@.map_values(|x: String| x@).take(
                j as int,
            ),
        decreases v@.len() - j,
    {
        let ghost outprev = out@;
        out.push(v[j].clone());
        proof {
            assert(out@.map_values(|x: String| x@) =~= outprev.map_values(|x: String| x@).push(
                v@[j as int]@,
            ));
            assert(v@[j as int]@ == v@.map_values(|x: String| x@)[j as int]);
            assert(out@.map_values(|x: String| x@) =~= seq![sv] + v@.map_values(
                |x: String| x@,
            ).take(j + 1));
        }
        j = j + 1;
    }
    proof {
        assert(v@.map_values(|x: String| x@).take(v@.len() as int) =~= v@.map_values(
            |x: String| x@,
        ));
    }
    out
}

/// The classification of `git status --porcelain` output.
pub struct StatusSummary {
    pub staged: Vec<String>,
    pub unstaged: Vec<String>,
    pub untracked: Vec<String>,
    pub has_changes: bool,
}

pub open spec fn untracked_mark() -> Seq<char> {
    seq!['?', '?']
}

/// The file named by a porcelain line: everything past the two status
/// columns and their separator.
pub open spec fn status_file_of(l: Seq<char>) -> Seq<char> {
    if l.len() >= 3 {
        l.skip(3)
    } else {
        Seq::empty()
    }
}

/// The staged, unstaged and untracked files that porcelain lines name, in
/// order: `??` lines are untracked; otherwise a status column holding `A`,
/// `M` or `D` marks the file staged and one holding `M` or `D` marks it
/// unstaged; blank and too-short lines are skipped.
pub open spec fn status_lines_spec(ls: Seq<Seq<char>>) -> (Seq<Seq<char>>, Seq<Seq<char>>, Seq<
    Seq<char>,
>)
    decreases ls.len(),
{
    if ls.len() == 0 {
        (Seq::empty(), Seq::empty(), Seq::empty())
    } else {
        let rest = status_lines_spec(ls.drop_first());
        let l = ls[0];
        if trimmed_edges(l, TrimClass::Space).len() == 0 {
            rest
        } else if matches_at_spec(l, untracked_mark(), 0) {
            (rest.0, rest.1, seq![status_file_of(l)] + rest.2)
        } else if l.len() >= 3 {
            let st = l.take(2);
            let staged = st.contains('A') || st.contains('M') || st.contains('D');
            let unstaged = st.contains('M') || st.contains('D');
            (
                if staged {
                    seq![status_file_of(l)] + rest.0
                } else {
                    rest.0
                },
                if unstaged {
                    seq![status_file_of(l)] + rest.1
                } else {
                    rest.1
                },
                rest.2,
            )
        } else {
            rest
        }
    }
}

pub open spec fn status_spec(s: Seq<char>) -> (Seq<Seq<char>>, Seq<Seq<char>>, Seq<Seq<char>>) {
    status_lines_spec(split_lines_spec(s))
}

/// Classify `git status --porcelain` output into staged, unstaged and
/// untracked files.
pub fn parse_status_output(stdout: &str) -> (r: StatusSummary)
    ensures
        r.staged@.map_values(|f: String| f@) == status_spec(stdout@).0,
        r.unstaged@.map_values(|f: String| f@) == status_spec(stdout@).1,
        r.untracked@.map_values(|f: String| f@) == status_spec(stdout@).2,
        r.has_changes == (status_spec(stdout@).0.len() > 0 || status_spec(stdout@).1.len() > 0
            || status_spec(stdout@).2.len() > 0),
{
    let all = chars_of(stdout);
    let lines = split_lines(&all);
    let ghost ls = split_lines_spec(stdout@);
    let mut staged: Vec<String> = Vec::new();
    let mut unstaged: Vec<String> = Vec::new();
    let mut untracked: Vec<String> = Vec::new();
    let mark: Vec<char> = vec!['?', '?'];
    assert(mark@ =~= untracked_mark());
    let mut k: usize = lines.len();
    proof {
        assert(ls.skip(ls.len() as int) =~= Seq::<Seq<char>>::empty());
    }
    while k > 0
        invariant
            ls == split_lines_spec(stdout@),
            lines@.map_values(|l: Vec<char>| l@) == ls,
            mark@ == untracked_mark(),
            k <= ls.len(),
            staged@.map_values(|f: String| f@) == status_lines_spec(ls.skip(k as int)).0,
            unstaged@.map_values(|f: String| f@) == status_lines_spec(ls.skip(k as int)).1,
            untracked@.map_values(|f: String| f@) == status_lines_spec(ls.skip(k as int)).2,
        decreases k,
    {
        k = k - 1;
        let ghost rest = ls.skip(k as int);
        proof {
            assert(rest.len() > 0);
            assert(rest[0] == ls[k as int]);
            assert(rest.drop_first() =~= ls.skip(k + 1));
        }
        let line = &lines[k];
        let t = trim_edges(line, TrimClass::Space);
        if t.len() == 0 {
            // blank line: nothing recorded
        } else if matches_at(line, &mark, 0) {
            let f = if line.len() >= 3 {
                let v = sub_chars(line, 3, line.len());
                proof {
                    assert(v@ =~= line@.skip(3));
                }
                v
            } else {
                let v: Vec<char> = Vec::new();
                v
            };
            proof {
                assert(f@ == status_file_of(line@));
            }
            untracked = prepend_string(&untracked, string_from_chars(&f));
        } else if line.len() >= 3 {
            let st = sub_chars(line, 0, 2);
            proof {
                assert(st@ =~= line@.take(2));
            }
            let is_staged = has_char(&st, 'A') || has_char(&st, 'M') || has_char(&st, 'D');
            let is_unstaged = has_char(&st, 'M') || has_char(&st, 'D');
            let f = sub_chars(line, 3, line.len());
            proof {
                assert(f@ =~= line@.skip(3));
                assert(f@ == status_file_of(line@));
            }
            if is_staged {
                staged = prepend_string(&staged, string_from_chars(&f));
            }
            if is_unstaged {
                unstaged = prepend_string(&unstaged, string_from_chars(&f));
            }
        }
    }
    proof {
        assert(ls.skip(0) =~= ls);
    }
    let has = staged.len() > 0 || unstaged.len() > 0 || untracked.len() > 0;
    proof {
        assert(staged@.map_values(|f: String| f@).len() == staged@.len());
        assert(unstaged@.map_values(|f: String| f@).len() == unstaged@.len());
        assert(untracked@.map_values(|f: String| f@).len() == untracked@.len());
    }
    StatusSummary { staged, unstaged, untracked, has_changes: has }
}

} // verus!
