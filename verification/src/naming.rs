//! Branch naming: slugs from task names, sanitized branch names rendered from
//! a user template, and the template's literal prefix used to recognise
//! managed worktrees.

use vstd::prelude::*;

use crate::chars::{
    chars_of, concat_chars, eq_chars, index_of_char, matches_at, string_from_chars, sub_chars,
    trim_edges, trimmed_edges, in_class, trimmed_back, trimmed_front, TrimClass,
};

verus! {

/// The characters a sanitized branch name may keep: ASCII alphanumerics and
/// `. _ / -`.
pub open spec fn branch_char_ok(c: char) -> bool {
    ('A' <= c && c <= 'Z') || ('a' <= c && c <= 'z') || ('0' <= c && c <= '9') || c == '.' || c
        == '_' || c == '/' || c == '-'
}

/// ASCII lowercasing of a single character.
pub open spec fn lower_char(c: char) -> char {
    if 'A' <= c && c <= 'Z' {
        (((c as u8) + 32) as char)
    } else {
        c
    }
}

/// A slug keeps lowercased ASCII alphanumerics; everything else becomes `-`.
pub open spec fn slug_char_of(c: char) -> char {
    if ('a' <= lower_char(c) && lower_char(c) <= 'z') || ('0' <= c && c <= '9') {
        lower_char(c)
    } else {
        '-'
    }
}

/// The branch-name map: kept characters stay, all others become `-`.
pub open spec fn branch_char_of(c: char) -> char {
    if branch_char_ok(c) {
        c
    } else {
        '-'
    }
}

/// Whether runs of `c` collapse to a single occurrence.
pub open spec fn collapsible(c: char) -> bool {
    c == '/' || c == '-'
}

/// `s` with every run of repeated `/` and repeated `-` collapsed to one.
pub open spec fn collapsed(s: Seq<char>) -> Seq<char>
    decreases s.len(),
{
    if s.len() == 0 {
        Seq::empty()
    } else {
        let p = collapsed(s.drop_last());
        let c = s.last();
        if p.len() > 0 && p.last() == c && collapsible(c) {
            p
        } else {
            p.push(c)
        }
    }
}

/// The sanitize pipeline before the emptiness/`HEAD` fallback.
pub open spec fn sanitized_core(s: Seq<char>) -> Seq<char> {
    trimmed_edges(collapsed(s.map_values(|c: char| branch_char_of(c))), TrimClass::Marks)
}

pub open spec fn head_name() -> Seq<char> {
    seq!['H', 'E', 'A', 'D']
}

/// The branch used when sanitizing leaves nothing usable.
pub open spec fn fallback_branch() -> Seq<char> {
    seq!['a', 'g', 'e', 'n', 't', '/', 't', 'a', 's', 'k']
}

/// What `sanitize_branch_name` returns.
pub open spec fn sanitized_branch(s: Seq<char>) -> Seq<char> {
    let t = sanitized_core(s);
    if t.len() == 0 || t == head_name() {
        fallback_branch()
    } else {
        t
    }
}

/// What `slugify` returns.
pub open spec fn slugified(s: Seq<char>) -> Seq<char> {
    trimmed_edges(collapsed(s.map_values(|c: char| slug_char_of(c))), TrimClass::Dash)
}

/// `s` with the non-overlapping occurrences of `pat`, found left to right,
/// replaced by `rep`; an empty pattern replaces nothing.
pub open spec fn replaced(s: Seq<char>, pat: Seq<char>, rep: Seq<char>) -> Seq<char>
    decreases s.len(),
{
    if pat.len() == 0 || s.len() < pat.len() {
        s
    } else if s.take(pat.len() as int) == pat {
        rep + replaced(s.skip(pat.len() as int), pat, rep)
    } else {
        seq![s[0]] + replaced(s.drop_first(), pat, rep)
    }
}

pub open spec fn slug_hole() -> Seq<char> {
    seq!['{', 's', 'l', 'u', 'g', '}']
}

pub open spec fn timestamp_hole() -> Seq<char> {
    seq!['{', 't', 'i', 'm', 'e', 's', 't', 'a', 'm', 'p', '}']
}

/// What `render_branch_template` returns: both placeholders substituted, then
/// the result sanitized.
pub open spec fn rendered_branch(template: Seq<char>, slug: Seq<char>, ts: Seq<char>) -> Seq<
    char,
> {
    sanitized_branch(replaced(replaced(template, slug_hole(), slug), timestamp_hole(), ts))
}

/// Collapse runs of repeated `/` and `-` in `h`.
fn collapse_runs(h: &Vec<char>) -> (v: Vec<char>)
    ensures
        v@ == collapsed(h@),
{
    let mut v: Vec<char> = Vec::new();
    let mut i: usize = 0;
    while i < h.len()
        invariant
            i <= h@.len(),
            v@ == collapsed(h@.take(i as int)),
        decreases h@.len() - i,
    {
        let c = h[i];
        proof {
            assert(h@.take(i + 1 as int).drop_last() =~= h@.take(i as int));
            assert(h@.take(i + 1 as int).last() == h@[i as int]);
        }
        if v.len() > 0 && v[v.len() - 1] == c && (c == '/' || c == '-') {
            // drop the repeat
        } else {
            v.push(c);
        }
        i = i + 1;
    }
    assert(h@.take(h@.len() as int) =~= h@);
    v
}

/// Map every character of `h` through the slug map or the branch map.
fn map_chars(h: &Vec<char>, slug: bool) -> (v: Vec<char>)
    ensures
        slug ==> v@ == h@.map_values(|c: char| slug_char_of(c)),
        !slug ==> v@ == h@.map_values(|c: char| branch_char_of(c)),
{
    let mut v: Vec<char> = Vec::new();
    let mut i: usize = 0;
    while i < h.len()
        invariant
            i <= h@.len(),
            slug ==> v@ == h@.take(i as int).map_values(|c: char| slug_char_of(c)),
            !slug ==> v@ == h@.take(i as int).map_values(|c: char| branch_char_of(c)),
        decreases h@.len() - i,
    {
        let c = h[i];
        let mapped: char = if slug {
            let low: char = if 'A' <= c && c <= 'Z' {
                (((c as u8) + 32) as char)
            } else {
                c
            };
            assert(low == lower_char(c));
            if ('a' <= low && low <= 'z') || ('0' <= c && c <= '9') {
                low
            } else {
                '-'
            }
        } else {
            let keep = ('A' <= c && c <= 'Z') || ('a' <= c && c <= 'z') || ('0' <= c && c <= '9')
                || c == '.' || c == '_' || c == '/' || c == '-';
            if keep {
                c
            } else {
                '-'
            }
        };
        v.push(mapped);
        proof {
            if slug {
                assert(v@ =~= h@.take(i + 1 as int).map_values(|c: char| slug_char_of(c)));
            } else {
                assert(v@ =~= h@.take(i + 1 as int).map_values(|c: char| branch_char_of(c)));
            }
        }
        i = i + 1;
    }
    assert(h@.take(h@.len() as int) =~= h@);
    v
}

/// Lowercase a task name and keep only alphanumerics, collapsing everything
/// else into single dashes and trimming dashes from the ends.
pub fn slugify(name: &str) -> (r: String)
    ensures
        r@ == slugified(name@),
{
    let v = chars_of(name);
    let mapped = map_chars(&v, true);
    let squeezed = collapse_runs(&mapped);
    let trimmed = trim_edges(&squeezed, TrimClass::Dash);
    string_from_chars(&trimmed)
}

/// Sanitize a candidate branch name: unsupported characters become `-`,
/// repeated `/` and `-` collapse, edge punctuation is trimmed, and an empty
/// or `HEAD` result falls back to `agent/task`.
pub fn sanitize_branch_name(name: &str) -> (r: String)
    ensures
        r@ == sanitized_branch(name@),
{
    let v = chars_of(name);
    let mapped = map_chars(&v, false);
    let squeezed = collapse_runs(&mapped);
    let trimmed = trim_edges(&squeezed, TrimClass::Marks);
    let head: Vec<char> = vec!['H', 'E', 'A', 'D'];
    assert(head@ =~= head_name());
    if trimmed.len() == 0 || eq_chars(&trimmed, &head) {
        let fb: Vec<char> = vec!['a', 'g', 'e', 'n', 't', '/', 't', 'a', 's', 'k'];
        assert(fb@ =~= fallback_branch());
        string_from_chars(&fb)
    } else {
        string_from_chars(&trimmed)
    }
}

/// Replace the left-to-right, non-overlapping occurrences of `pat` in `h` by
/// `rep`.
pub fn replace_all(h: &Vec<char>, pat: &Vec<char>, rep: &Vec<char>) -> (v: Vec<char>)
    ensures
        v@ == replaced(h@, pat@, rep@),
{
    if pat.len() == 0 {
        let v = sub_chars(h, 0, h.len());
        assert(h@.subrange(0, h@.len() as int) =~= h@);
        return v;
    }
    let mut v: Vec<char> = Vec::new();
    let mut i: usize = 0;
    proof {
        assert(h@.skip(0) =~= h@);
        assert((Seq::<char>::empty() + replaced(h@, pat@, rep@)) =~= replaced(h@, pat@, rep@));
    }
    while i < h.len()
        invariant
            pat@.len() > 0,
            i <= h@.len(),
            replaced(h@, pat@, rep@) == v@ + replaced(h@.skip(i as int), pat@, rep@),
        decreases h@.len() - i,
    {
        let ghost rest = h@.skip(i as int);
        let ghost vprev = v@;
        if matches_at(h, pat, i) {
            proof {
                assert(rest.take(pat@.len() as int) =~= h@.subrange(i as int, i + pat@.len()));
                assert(rest.skip(pat@.len() as int) =~= h@.skip(i + pat@.len()));
                assert(replaced(rest, pat@, rep@) == rep@ + replaced(
                    h@.skip(i + pat@.len()),
                    pat@,
                    rep@,
                ));
            }
            let joined = concat_chars(&v, rep);
            v = joined;
            proof {
                assert((v@ + replaced(h@.skip(i + pat@.len()), pat@, rep@)) =~= (vprev + replaced(
                    rest,
                    pat@,
                    rep@,
                )));
            }
            i = i + pat.len();
        } else {
            proof {
                assert(rest.len() >= 1);
                assert(rest[0] == h@[i as int]);
                assert(rest.drop_first() =~= h@.skip(i + 1));
                if rest.len() >= pat@.len() {
                    assert(rest.take(pat@.len() as int) =~= h@.subrange(i as int, i + pat@.len()));
                    assert(rest.take(pat@.len() as int) != pat@);
                    assert(replaced(rest, pat@, rep@) == seq![rest[0]] + replaced(
                        rest.drop_first(),
                        pat@,
                        rep@,
                    ));
                } else {
                    // too little input is left for a match: both sides are the rest itself
                    assert(replaced(rest, pat@, rep@) == rest);
                    assert(replaced(rest.drop_first(), pat@, rep@) == rest.drop_first());
                    assert(rest =~= seq![rest[0]] + rest.drop_first());
                }
            }
            let c = h[i];
            v.push(c);
            proof {
                assert((v@ + replaced(h@.skip(i + 1), pat@, rep@)) =~= (vprev.push(h@[i as int])
                    + replaced(h@.skip(i + 1), pat@, rep@)));
                assert((vprev.push(h@[i as int]) + replaced(h@.skip(i + 1), pat@, rep@)) =~= (vprev
                    + (seq![h@[i as int]] + replaced(h@.skip(i + 1), pat@, rep@))));
            }
            i = i + 1;
        }
    }
    proof {
        assert(h@.skip(h@.len() as int) =~= Seq::<char>::empty());
        assert(replaced(Seq::<char>::empty(), pat@, rep@) =~= Seq::<char>::empty());
        assert(v@ + Seq::<char>::empty() =~= v@);
    }
    v
}

/// No two adjacent characters of `s` are the same collapsible character, so
/// in particular `s` holds no `//` and no `--`.
pub open spec fn no_dup_runs(s: Seq<char>) -> bool {
    forall|i: int| 0 <= i < s.len() - 1 ==> !(s[i] == s[i + 1] && collapsible(s[i]))
}

proof fn lemma_collapsed_no_dup(s: Seq<char>)
    ensures
        no_dup_runs(collapsed(s)),
    decreases s.len(),
{
    if s.len() > 0 {
        lemma_collapsed_no_dup(s.drop_last());
        let p = collapsed(s.drop_last());
        let c = s.last();
        if !(p.len() > 0 && p.last() == c && collapsible(c)) {
            let r = p.push(c);
            assert forall|i: int| 0 <= i < r.len() - 1 implies !(r[i] == r[i + 1] && collapsible(
                r[i],
            )) by {
                if i < p.len() - 1 {
                    assert(r[i] == p[i] && r[i + 1] == p[i + 1]);
                } else {
                    assert(i == p.len() - 1);
                    assert(r[i] == p.last() && r[i + 1] == c);
                }
            }
        }
    }
}

proof fn lemma_no_dup_drop_first(s: Seq<char>)
    requires
        no_dup_runs(s),
        s.len() > 0,
    ensures
        no_dup_runs(s.drop_first()),
{
    let t = s.drop_first();
    assert forall|i: int| 0 <= i < t.len() - 1 implies !(t[i] == t[i + 1] && collapsible(t[i])) by {
        assert(t[i] == s[i + 1] && t[i + 1] == s[i + 2]);
    }
}

proof fn lemma_no_dup_drop_last(s: Seq<char>)
    requires
        no_dup_runs(s),
        s.len() > 0,
    ensures
        no_dup_runs(s.drop_last()),
{
    let t = s.drop_last();
    assert forall|i: int| 0 <= i < t.len() - 1 implies !(t[i] == t[i + 1] && collapsible(t[i])) by {
        assert(t[i] == s[i] && t[i + 1] == s[i + 1]);
    }
}

proof fn lemma_trimmed_front_props(s: Seq<char>, k: TrimClass)
    requires
        no_dup_runs(s),
    ensures
        no_dup_runs(trimmed_front(s, k)),
        trimmed_front(s, k).len() > 0 ==> !in_class(trimmed_front(s, k)[0], k),
    decreases s.len(),
{
    if s.len() > 0 && in_class(s[0], k) {
        lemma_no_dup_drop_first(s);
        lemma_trimmed_front_props(s.drop_first(), k);
    }
}

proof fn lemma_trimmed_back_props(s: Seq<char>, k: TrimClass)
    requires
        no_dup_runs(s),
    ensures
        no_dup_runs(trimmed_back(s, k)),
        trimmed_back(s, k).len() > 0 ==> !in_class(trimmed_back(s, k).last(), k),
        trimmed_back(s, k).len() > 0 ==> trimmed_back(s, k)[0] == s[0],
    decreases s.len(),
{
    if s.len() > 0 && in_class(s.last(), k) {
        lemma_no_dup_drop_last(s);
        lemma_trimmed_back_props(s.drop_last(), k);
    }
}

/// Everything the sanitizer promises of its result, whatever the input: the
/// name is non-empty, is not `HEAD`, neither starts nor ends with `.`, `/`
/// or `-`, and holds no repeated `/` or `-`.
pub proof fn lemma_sanitized_branch_props(s: Seq<char>)
    ensures
        sanitized_branch(s).len() > 0,
        sanitized_branch(s) != head_name(),
        !in_class(sanitized_branch(s)[0], TrimClass::Marks),
        !in_class(sanitized_branch(s).last(), TrimClass::Marks),
        no_dup_runs(sanitized_branch(s)),
{
    let m = s.map_values(|c: char| branch_char_of(c));
    lemma_collapsed_no_dup(m);
    lemma_trimmed_front_props(collapsed(m), TrimClass::Marks);
    lemma_trimmed_back_props(trimmed_front(collapsed(m), TrimClass::Marks), TrimClass::Marks);
    let t = sanitized_core(s);
    if t.len() == 0 || t == head_name() {
        let fb = fallback_branch();
        assert(fb.len() == 10);
        assert(fb != head_name());
        assert(fb[0] == 'a' && fb[9] == 'k');
        assert forall|i: int| 0 <= i < fb.len() - 1 implies !(fb[i] == fb[i + 1] && collapsible(
            fb[i],
        )) by {
            assert(fb[0] == 'a' && fb[1] == 'g' && fb[2] == 'e' && fb[3] == 'n' && fb[4] == 't'
                && fb[5] == '/' && fb[6] == 't' && fb[7] == 'a' && fb[8] == 's' && fb[9] == 'k');
        }
    } else {
        assert(head_name().len() == 4);
    }
}

/// Law: a rendered branch name is well formed for any template, slug and
/// timestamp: non-empty, not `HEAD`, free of `//` and of leading or trailing
/// `.`, `/`, `-`.
pub proof fn lemma_rendered_branch_well_formed(
    template: Seq<char>,
    slug: Seq<char>,
    ts: Seq<char>,
)
    ensures
        rendered_branch(template, slug, ts).len() > 0,
        rendered_branch(template, slug, ts) != head_name(),
        !in_class(rendered_branch(template, slug, ts)[0], TrimClass::Marks),
        !in_class(rendered_branch(template, slug, ts).last(), TrimClass::Marks),
        no_dup_runs(rendered_branch(template, slug, ts)),
{
    lemma_sanitized_branch_props(
        replaced(replaced(template, slug_hole(), slug), timestamp_hole(), ts),
    );
}

/// Substitute `{slug}` and `{timestamp}` in `template`, then sanitize the
/// result into a usable branch name.
pub fn render_branch_template(template: &str, slug: &str, timestamp: &str) -> (r: String)
    ensures
        r@ == rendered_branch(template@, slug@, timestamp@),
{
    let tv = chars_of(template);
    let sv = chars_of(slug);
    let tsv = chars_of(timestamp);
    let hole1: Vec<char> = vec!['{', 's', 'l', 'u', 'g', '}'];
    assert(hole1@ =~= slug_hole());
    let hole2: Vec<char> = vec!['{', 't', 'i', 'm', 'e', 's', 't', 'a', 'm', 'p', '}'];
    assert(hole2@ =~= timestamp_hole());
    let step1 = replace_all(&tv, &hole1, &sv);
    let step2 = replace_all(&step1, &hole2, &tsv);
    let joined = string_from_chars(&step2);
    sanitize_branch_name(joined.as_str())
}

} // verus!

verus! {

/// `s` with every space removed.
pub open spec fn removed_spaces(s: Seq<char>) -> Seq<char>
    decreases s.len(),
{
    if s.len() == 0 {
        Seq::empty()
    } else {
        let p = removed_spaces(s.drop_last());
        if s.last() == ' ' {
            p
        } else {
            p.push(s.last())
        }
    }
}

fn strip_spaces(h: &Vec<char>) -> (v: Vec<char>)
    ensures
        v@ == removed_spaces(h@),
{
    let mut v: Vec<char> = Vec::new();
    let mut i: usize = 0;
    while i < h.len()
        invariant
            i <= h@.len(),
            v@ == removed_spaces(h@.take(i as int)),
        decreases h@.len() - i,
    {
        let c = h[i];
        proof {
            assert(h@.take(i + 1 as int).drop_last() =~= h@.take(i as int));
            assert(h@.take(i + 1 as int).last() == h@[i as int]);
        }
        if c != ' ' {
            v.push(c);
        }
        i = i + 1;
    }
    assert(h@.take(h@.len() as int) =~= h@);
    v
}

/// The first path segment of the template's literal prefix: the text before
/// any `{`, whitespace-trimmed, spaces removed, cut at the first `/` and
/// trimmed of edge punctuation; `None` when nothing usable is left.
pub open spec fn template_prefix(s: Seq<char>) -> Option<Seq<char>> {
    let head0 = if s.contains('{') {
        s.take(crate::parse::idx_of(s, '{'))
    } else {
        s
    };
    let head = trimmed_edges(head0, TrimClass::Space);
    if head.len() == 0 {
        Option::None
    } else {
        let cleaned = removed_spaces(head);
        if cleaned.len() == 0 {
            Option::None
        } else {
            let seg = cleaned.take(crate::parse::idx_of(cleaned, '/'));
            let t = trimmed_edges(seg, TrimClass::Marks);
            if t.len() == 0 {
                Option::None
            } else {
                Option::Some(t)
            }
        }
    }
}

/// Extract the managed-prefix candidate from a branch template.
pub fn extract_template_prefix(template: &str) -> (r: Option<String>)
    ensures
        match r {
            Some(p) => template_prefix(template@) == Option::Some(p@),
            None => template_prefix(template@) is None,
        },
{
    let tv = chars_of(template);
    let head0: Vec<char> = match index_of_char(&tv, '{', 0) {
        Some(i) => {
            proof {
                crate::parse::lemma_idx_of(tv@, '{', i as int);
                assert(tv@.contains('{'));
            }
            let v = sub_chars(&tv, 0, i);
            proof {
                assert(v@ =~= tv@.take(i as int));
            }
            v
        },
        None => {
            proof {
                if tv@.contains('{') {
                    let w = choose|w: int| 0 <= w < tv@.len() && tv@[w] == '{';
                    assert(tv@[w] != '{');
                }
            }
            tv
        },
    };
    let head = trim_edges(&head0, TrimClass::Space);
    if head.len() == 0 {
        return None;
    }
    let cleaned = strip_spaces(&head);
    if cleaned.len() == 0 {
        return None;
    }
    let seg: Vec<char> = match index_of_char(&cleaned, '/', 0) {
        Some(i) => {
            proof {
                crate::parse::lemma_idx_of(cleaned@, '/', i as int);
            }
            let v = sub_chars(&cleaned, 0, i);
            proof {
                assert(v@ =~= cleaned@.take(i as int));
            }
            v
        },
        None => {
            proof {
                crate::parse::lemma_idx_of(cleaned@, '/', cleaned@.len() as int);
                assert(cleaned@.take(cleaned@.len() as int) =~= cleaned@);
            }
            cleaned
        },
    };
    let t = trim_edges(&seg, TrimClass::Marks);
    if t.len() == 0 {
        return None;
    }
    Some(string_from_chars(&t))
}

} // verus!
