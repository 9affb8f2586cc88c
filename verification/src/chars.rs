//! Character-level utilities shared by the naming, parsing and identity
//! modules. Strings are processed as vectors of `char`, whose views are the
//! same `Seq<char>` that `String` and `str` views use.

use vstd::prelude::*;

verus! {

/// The characters of `s`, in order, as a vector.
pub fn chars_of(s: &str) -> (v: Vec<char>)
    ensures
        v@ == s@,
{
    let n = s.unicode_len();
    let mut v: Vec<char> = Vec::new();
    let mut i: usize = 0;
    while i < n
        invariant
            n == s@.len(),
            i <= n,
            v@ == s@.take(i as int),
        decreases n - i,
    {
        let c = s.get_char(i);
        v.push(c);
        assert(v@ =~= s@.take(i + 1 as int));
        i = i + 1;
    }
    assert(v@ =~= s@);
    v
}

/// Relies on `String`'s `FromIterator<char>` impl: collecting an iterator of
/// characters yields the string of exactly those characters, in order.
#[verifier::external_body]
pub fn string_from_chars(v: &Vec<char>) -> (r: String)
    ensures
        r@ == v@,
{
    v.iter().copied().collect()
}

/// Whether the characters of `a` and `b` are equal.
pub fn eq_chars(a: &Vec<char>, b: &Vec<char>) -> (r: bool)
    ensures
        r == (a@ == b@),
{
    if a.len() != b.len() {
        assert(a@ != b@);
        return false;
    }
    let n = a.len();
    let mut i: usize = 0;
    while i < n
        invariant
            n == a@.len() && n == b@.len(),
            i <= n,
            forall|j: int| 0 <= j < i ==> a@[j] == b@[j],
        decreases n - i,
    {
        if a[i] != b[i] {
            return false;
        }
        i = i + 1;
    }
    assert(a@ =~= b@);
    true
}

/// Whether `n` occurs in `h` starting at index `at`.
pub open spec fn matches_at_spec(h: Seq<char>, n: Seq<char>, at: int) -> bool {
    0 <= at && at + n.len() <= h.len() && h.subrange(at, at + n.len()) == n
}

/// Whether `n` occurs somewhere in `h`.
pub open spec fn contains_seq(h: Seq<char>, n: Seq<char>) -> bool {
    exists|i: int| matches_at_spec(h, n, i)
}

pub fn matches_at(h: &Vec<char>, n: &Vec<char>, at: usize) -> (r: bool)
    ensures
        r == matches_at_spec(h@, n@, at as int),
{
    let hl = h.len();
    let nl = n.len();
    if at > hl || nl > hl - at {
        return false;
    }
    let mut i: usize = 0;
    while i < nl
        invariant
            hl == h@.len(),
            nl == n@.len(),
            at + nl <= hl,
            i <= nl,
            forall|j: int| 0 <= j < i ==> h@[at + j] == n@[j],
        decreases nl - i,
    {
        if h[at + i] != n[i] {
            assert(h@.subrange(at as int, at + n@.len())[i as int] != n@[i as int]);
            return false;
        }
        i = i + 1;
    }
    assert(h@.subrange(at as int, at + n@.len()) =~= n@);
    true
}

/// Whether `n` occurs in `h` as a contiguous run.
pub fn has_sub(h: &Vec<char>, n: &Vec<char>) -> (r: bool)
    ensures
        r == contains_seq(h@, n@),
{
    if n.len() == 0 {
        assert(h@.subrange(0, 0) =~= n@);
        assert(matches_at_spec(h@, n@, 0));
        return true;
    }
    let hl = h.len();
    let mut at: usize = 0;
    while at < hl
        invariant
            hl == h@.len(),
            at <= hl,
            forall|j: int| 0 <= j < at ==> !matches_at_spec(h@, n@, j),
        decreases hl - at,
    {
        if matches_at(h, n, at) {
            return true;
        }
        at = at + 1;
    }
    assert forall|i: int| !matches_at_spec(h@, n@, i) by {
        if 0 <= i < h@.len() {
            assert(!matches_at_spec(h@, n@, i));
        }
    }
    false
}

/// The first index at or after `from` holding `c`, if any.
pub fn index_of_char(h: &Vec<char>, c: char, from: usize) -> (r: Option<usize>)
    ensures
        match r {
            Some(i) => from <= i < h@.len() && h@[i as int] == c && forall|j: int|
                from <= j < i ==> h@[j] != c,
            None => forall|j: int| from <= j < h@.len() ==> h@[j] != c,
        },
{
    let mut i: usize = from;
    if from > h.len() {
        return None;
    }
    while i < h.len()
        invariant
            from <= i,
            i <= h@.len(),
            forall|j: int| from <= j < i ==> h@[j] != c,
        decreases h@.len() - i,
    {
        if h[i] == c {
            return Some(i);
        }
        i = i + 1;
    }
    None
}

/// Whether `c` occurs in `h`.
pub fn has_char(h: &Vec<char>, c: char) -> (r: bool)
    ensures
        r == h@.contains(c),
{
    let r = index_of_char(h, c, 0);
    match r {
        Some(i) => {
            assert(h@.contains(c));
            true
        },
        None => {
            assert(forall|j: int| 0 <= j < h@.len() ==> h@[j] != c);
            false
        },
    }
}

/// The index just past the last occurrence of `c`, or `None` when `c` is absent.
pub fn last_index_of_char(h: &Vec<char>, c: char) -> (r: Option<usize>)
    ensures
        match r {
            Some(i) => i < h@.len() && h@[i as int] == c && forall|j: int|
                i < j < h@.len() ==> h@[j] != c,
            None => forall|j: int| 0 <= j < h@.len() ==> h@[j] != c,
        },
{
    let mut i: usize = h.len();
    while i > 0
        invariant
            i <= h@.len(),
            forall|j: int| i <= j < h@.len() ==> h@[j] != c,
        decreases i,
    {
        i = i - 1;
        if h[i] == c {
            return Some(i);
        }
    }
    None
}

/// The characters of `h` from `from` (inclusive) to `to` (exclusive).
pub fn sub_chars(h: &Vec<char>, from: usize, to: usize) -> (v: Vec<char>)
    requires
        from <= to <= h@.len(),
    ensures
        v@ == h@.subrange(from as int, to as int),
{
    let mut v: Vec<char> = Vec::new();
    let mut i: usize = from;
    while i < to
        invariant
            from <= i <= to <= h@.len(),
            v@ == h@.subrange(from as int, i as int),
        decreases to - i,
    {
        v.push(h[i]);
        assert(v@ =~= h@.subrange(from as int, i + 1 as int));
        i = i + 1;
    }
    v
}

/// Which characters an edge trim removes: branch-name punctuation, dashes
/// alone, or whitespace.
#[derive(Clone, Copy, PartialEq, Eq)]
pub enum TrimClass {
    Marks,
    Dash,
    Space,
}

/// Whether `c` belongs to the trim class `k`. `Space` is the ASCII notion of
/// whitespace.
pub open spec fn in_class(c: char, k: TrimClass) -> bool {
    match k {
        TrimClass::Marks => c == '.' || c == '/' || c == '-',
        TrimClass::Dash => c == '-',
        TrimClass::Space => c == ' ' || c == '\t' || c == '\n' || c == '\r' || c == '\u{b}'
            || c == '\u{c}',
    }
}

pub fn class_holds(c: char, k: TrimClass) -> (r: bool)
    ensures
        r == in_class(c, k),
{
    match k {
        TrimClass::Marks => c == '.' || c == '/' || c == '-',
        TrimClass::Dash => c == '-',
        TrimClass::Space => c == ' ' || c == '\t' || c == '\n' || c == '\r' || c == '\u{b}'
            || c == '\u{c}',
    }
}

/// `s` with its leading run of class-`k` characters removed.
pub open spec fn trimmed_front(s: Seq<char>, k: TrimClass) -> Seq<char>
    decreases s.len(),
{
    if s.len() > 0 && in_class(s[0], k) {
        trimmed_front(s.drop_first(), k)
    } else {
        s
    }
}

/// `s` with its trailing run of class-`k` characters removed.
pub open spec fn trimmed_back(s: Seq<char>, k: TrimClass) -> Seq<char>
    decreases s.len(),
{
    if s.len() > 0 && in_class(s.last(), k) {
        trimmed_back(s.drop_last(), k)
    } else {
        s
    }
}

/// `s` with class-`k` characters removed from both ends.
pub open spec fn trimmed_edges(s: Seq<char>, k: TrimClass) -> Seq<char> {
    trimmed_back(trimmed_front(s, k), k)
}

pub proof fn lemma_trimmed_front_skip(s: Seq<char>, k: TrimClass, a: int)
    requires
        0 <= a <= s.len(),
        forall|j: int| 0 <= j < a ==> in_class(s[j], k),
        a < s.len() ==> !in_class(s[a], k),
    ensures
        trimmed_front(s, k) == s.skip(a),
    decreases a,
{
    if a == 0 {
        assert(s.skip(0) =~= s);
    } else {
        let t = s.drop_first();
        assert(forall|j: int| 0 <= j < a - 1 ==> t[j] == s[j + 1]);
        lemma_trimmed_front_skip(t, k, a - 1);
        assert(t.skip(a - 1) =~= s.skip(a));
    }
}

pub proof fn lemma_trimmed_back_take(s: Seq<char>, k: TrimClass, b: int)
    requires
        0 <= b <= s.len(),
        forall|j: int| b <= j < s.len() ==> in_class(s[j], k),
        b > 0 ==> !in_class(s[b - 1], k),
    ensures
        trimmed_back(s, k) == s.take(b),
    decreases s.len(),
{
    if b == s.len() {
        if s.len() > 0 && in_class(s.last(), k) {
            assert(false);
        }
        assert(s.take(b) =~= s);
    } else {
        let t = s.drop_last();
        lemma_trimmed_back_take(t, k, b);
        assert(t.take(b) =~= s.take(b));
    }
}

/// `h` with class-`k` characters removed from both ends.
pub fn trim_edges(h: &Vec<char>, k: TrimClass) -> (v: Vec<char>)
    ensures
        v@ == trimmed_edges(h@, k),
{
    let n = h.len();
    let mut a: usize = 0;
    while a < n && class_holds(h[a], k)
        invariant
            n == h@.len(),
            a <= n,
            forall|j: int| 0 <= j < a ==> in_class(h@[j], k),
        decreases n - a,
    {
        a = a + 1;
    }
    proof {
        lemma_trimmed_front_skip(h@, k, a as int);
    }
    if a == n {
        // everything was trimmable; the back trim of the empty rest is empty
        let v: Vec<char> = Vec::new();
        assert(h@.skip(a as int) =~= Seq::<char>::empty());
        return v;
    }
    let mut b: usize = n;
    while b > a && class_holds(h[b - 1], k)
        invariant
            n == h@.len(),
            a <= b <= n,
            a < n,
            !in_class(h@[a as int], k),
            forall|j: int| b <= j < n ==> in_class(h@[j], k),
        decreases b,
    {
        b = b - 1;
    }
    // b > a here: h[a] is not trimmable, so the back scan stops at or after a+1
    assert(b > a);
    let v = sub_chars(h, a, b);
    proof {
        let t = h@.skip(a as int);
        assert(forall|j: int| b - a <= j < t.len() ==> t[j] == h@[j + a]);
        lemma_trimmed_back_take(t, k, b - a);
        assert(t.take(b - a) =~= h@.subrange(a as int, b as int));
    }
    v
}

/// `a` followed by `b`.
pub fn concat_chars(a: &Vec<char>, b: &Vec<char>) -> (v: Vec<char>)
    ensures
        v@ == a@ + b@,
{
    let mut v: Vec<char> = Vec::new();
    let mut i: usize = 0;
    while i < a.len()
        invariant
            i <= a@.len(),
            v@ == a@.take(i as int),
        decreases a@.len() - i,
    {
        v.push(a[i]);
        assert(v@ =~= a@.take(i + 1 as int));
        i = i + 1;
    }
    assert(v@ =~= a@);
    let mut j: usize = 0;
    while j < b.len()
        invariant
            j <= b@.len(),
            v@ == a@ + b@.take(j as int),
        decreases b@.len() - j,
    {
        v.push(b[j]);
        assert(v@ =~= a@ + b@.take(j + 1 as int));
        j = j + 1;
    }
    assert(v@ =~= a@ + b@);
    v
}

} // verus!
