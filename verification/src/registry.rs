//! The in-process registry of live workspaces: a process-lifetime table from
//! stable identity to workspace record. All reads hand out copies; the
//! caller owns the surrounding lock.

use vstd::prelude::*;

verus! {

/// One isolated working directory bound to a branch.
pub struct WorktreeInfo {
    pub id: String,
    pub name: String,
    pub branch: String,
    pub path: String,
    pub project_id: String,
    pub status: String,
    pub created_at: String,
    pub last_activity: Option<String>,
}

/// The mathematical shadow of a `WorktreeInfo`.
pub struct InfoView {
    pub id: Seq<char>,
    pub name: Seq<char>,
    pub branch: Seq<char>,
    pub path: Seq<char>,
    pub project_id: Seq<char>,
    pub status: Seq<char>,
    pub created_at: Seq<char>,
    pub last_activity: Option<Seq<char>>,
}

impl View for WorktreeInfo {
    type V = InfoView;

    open spec fn view(&self) -> InfoView {
        InfoView {
            id: self.id@,
            name: self.name@,
            branch: self.branch@,
            path: self.path@,
            project_id: self.project_id@,
            status: self.status@,
            created_at: self.created_at@,
            last_activity: match self.last_activity {
                Option::Some(a) => Option::Some(a@),
                Option::None => Option::None,
            },
        }
    }
}

/// An owned copy of `s`, equal in view.
pub fn dup_string(s: &String) -> (r: String)
    ensures
        r@ == s@,
{
    s.clone()
}

/// An owned copy of `info`, equal in view.
pub fn dup_info(info: &WorktreeInfo) -> (r: WorktreeInfo)
    ensures
        r@ == info@,
{
    WorktreeInfo {
        id: info.id.clone(),
        name: info.name.clone(),
        branch: info.branch.clone(),
        path: info.path.clone(),
        project_id: info.project_id.clone(),
        status: info.status.clone(),
        created_at: info.created_at.clone(),
        last_activity: match &info.last_activity {
            Option::Some(a) => Option::Some(a.clone()),
            Option::None => Option::None,
        },
    }
}

/// No two registered records share an id.
pub open spec fn reg_wf(s: Seq<WorktreeInfo>) -> bool {
    forall|i: int, j: int| 0 <= i < j < s.len() ==> (#[trigger] s[i])@.id != (#[trigger] s[j])@.id
}

/// Whether some record carries `id`.
pub open spec fn has_id(s: Seq<WorktreeInfo>, id: Seq<char>) -> bool {
    exists|i: int| 0 <= i < s.len() && (#[trigger] s[i])@.id == id
}

/// The record registered under `id`, by view.
pub open spec fn lookup(s: Seq<WorktreeInfo>, id: Seq<char>) -> Option<InfoView> {
    if has_id(s, id) {
        Option::Some(s[choose|i: int| 0 <= i < s.len() && (#[trigger] s[i])@.id == id]@)
    } else {
        Option::None
    }
}

/// Under `reg_wf`, a record with `id` at index `i` is what `lookup` finds.
pub proof fn lemma_lookup_at(s: Seq<WorktreeInfo>, id: Seq<char>, i: int)
    requires
        reg_wf(s),
        0 <= i < s.len(),
        s[i]@.id == id,
    ensures
        lookup(s, id) == Option::Some(s[i]@),
{
    assert(has_id(s, id));
    let j = choose|j: int| 0 <= j < s.len() && (#[trigger] s[j])@.id == id;
    if i != j {
        if i < j {
            assert(s[i]@.id != s[j]@.id);
        } else {
            assert(s[j]@.id != s[i]@.id);
        }
    }
}

/// Whether some record's path is `p`.
pub open spec fn has_path(s: Seq<WorktreeInfo>, p: Seq<char>) -> bool {
    exists|i: int| 0 <= i < s.len() && (#[trigger] s[i])@.path == p
}

/// The first record whose path is `p`, by view.
pub open spec fn first_by_path(s: Seq<WorktreeInfo>, p: Seq<char>) -> Option<InfoView>
    decreases s.len(),
{
    if s.len() == 0 {
        Option::None
    } else if s[0]@.path == p {
        Option::Some(s[0]@)
    } else {
        first_by_path(s.drop_first(), p)
    }
}

pub proof fn lemma_first_by_path_at(s: Seq<WorktreeInfo>, p: Seq<char>, i: int)
    requires
        0 <= i < s.len(),
        s[i]@.path == p,
        forall|j: int| 0 <= j < i ==> (#[trigger] s[j])@.path != p,
    ensures
        first_by_path(s, p) == Option::Some(s[i]@),
    decreases i,
{
    if i > 0 {
        let t = s.drop_first();
        assert(forall|j: int| 0 <= j < t.len() ==> t[j] == s[j + 1]);
        lemma_first_by_path_at(t, p, i - 1);
    }
}

pub proof fn lemma_first_by_path_none(s: Seq<WorktreeInfo>, p: Seq<char>)
    requires
        forall|j: int| 0 <= j < s.len() ==> (#[trigger] s[j])@.path != p,
    ensures
        first_by_path(s, p) is None,
    decreases s.len(),
{
    if s.len() > 0 {
        let t = s.drop_first();
        assert(forall|j: int| 0 <= j < t.len() ==> t[j] == s[j + 1]);
        lemma_first_by_path_none(t, p);
    }
}

/// `first_by_path` finds a record exactly when one has the path, and that
/// record's view carries the path itself.
pub proof fn lemma_first_by_path_hit(s: Seq<WorktreeInfo>, p: Seq<char>)
    ensures
        (first_by_path(s, p) is Some) == has_path(s, p),
        match first_by_path(s, p) {
            Option::Some(v) => v.path == p,
            Option::None => true,
        },
    decreases s.len(),
{
    if s.len() > 0 {
        let t = s.drop_first();
        lemma_first_by_path_hit(t, p);
        assert(forall|j: int| 0 <= j < t.len() ==> t[j] == s[j + 1]);
        if s[0]@.path != p {
            if has_path(s, p) {
                let i = choose|i: int| 0 <= i < s.len() && (#[trigger] s[i])@.path == p;
                assert(i > 0);
                assert(t[i - 1]@.path == p);
                assert(has_path(t, p));
            }
            if has_path(t, p) {
                let i = choose|i: int| 0 <= i < t.len() && (#[trigger] t[i])@.path == p;
                assert(s[i + 1]@.path == p);
                assert(has_path(s, p));
            }
        }
    }
}

/// The process-lifetime registry of live workspaces.
pub struct WorktreeState {
    entries: Vec<WorktreeInfo>,
}

impl WorktreeState {
    pub closed spec fn rows(&self) -> Seq<WorktreeInfo> {
        self.entries@
    }

    pub closed spec fn wf(&self) -> bool {
        reg_wf(self.entries@)
    }

    /// An empty registry.
    pub fn new() -> (r: Self)
        ensures
            r.wf(),
            r.rows().len() == 0,
    {
        WorktreeState { entries: Vec::new() }
    }

    /// How many workspaces are registered.
    pub fn entry_count(&self) -> (n: usize)
        ensures
            n == self.rows().len(),
    {
        self.entries.len()
    }

    /// Register `info` under its id, replacing any record with the same id.
    pub fn insert(&mut self, info: WorktreeInfo)
        requires
            old(self).wf(),
        ensures
            final(self).wf(),
            lookup(final(self).rows(), info@.id) == Option::Some(info@),
            forall|id2: Seq<char>| id2 != info@.id ==> lookup(final(self).rows(), id2) == lookup(
                old(self).rows(),
                id2,
            ),
            final(self).rows().len() <= old(self).rows().len() + 1,
    {
        let ghost olds = self.entries@;
        let n = self.entries.len();
        let mut p: usize = 0;
        while p < n
            invariant
                n == self.entries@.len(),
                p <= n,
                self.entries@ == olds,
                olds == old(self).rows(),
                reg_wf(olds),
                forall|j: int| 0 <= j < p ==> (#[trigger] self.entries@[j])@.id != info@.id,
            decreases n - p,
        {
            if crate::chars::eq_chars(
                &crate::chars::chars_of(self.entries[p].id.as_str()),
                &crate::chars::chars_of(info.id.as_str()),
            ) {
                let ghost iv = info@;
                self.entries.set(p, info);
                proof {
                    let news = self.entries@;
                    assert(news =~= olds.update(p as int, news[p as int]));
                    assert(news[p as int]@ == iv);
                    assert forall|i: int, j: int| 0 <= i < j < news.len() implies (
                    #[trigger] news[i])@.id != (#[trigger] news[j])@.id by {
                        assert(olds[i]@.id != olds[j]@.id);
                        assert(olds[p as int]@.id == iv.id);
                        if i == p {
                            assert(news[j]@.id == olds[j]@.id);
                        } else if j == p {
                            assert(news[i]@.id == olds[i]@.id);
                        }
                    }
                    lemma_lookup_at(news, iv.id, p as int);
                    assert forall|id2: Seq<char>| id2 != iv.id implies lookup(news, id2) == lookup(
                        olds,
                        id2,
                    ) by {
                        Self::lemma_update_frame(olds, news, p as int, id2);
                    }
                }
                return ;
            }
            p = p + 1;
        }
        let ghost iv = info@;
        self.entries.push(info);
        proof {
            let news = self.entries@;
            assert(news =~= olds.push(news[olds.len() as int]));
            assert(news[olds.len() as int]@ == iv);
            assert forall|i: int, j: int| 0 <= i < j < news.len() implies (#[trigger] news[i])@.id
                != (#[trigger] news[j])@.id by {
                if j < olds.len() {
                    assert(olds[i]@.id != olds[j]@.id);
                } else {
                    assert(news[j]@ == iv);
                    assert(olds[i]@.id != iv.id);
                }
            }
            lemma_lookup_at(news, iv.id, olds.len() as int);
            assert forall|id2: Seq<char>| id2 != iv.id implies lookup(news, id2) == lookup(
                olds,
                id2,
            ) by {
                Self::lemma_push_frame(olds, news, id2);
            }
        }
    }

    proof fn lemma_update_frame(
        olds: Seq<WorktreeInfo>,
        news: Seq<WorktreeInfo>,
        p: int,
        id2: Seq<char>,
    )
        requires
            0 <= p < olds.len(),
            news.len() == olds.len(),
            forall|i: int| 0 <= i < olds.len() && i != p ==> news[i] == olds[i],
            olds[p]@.id == news[p]@.id,
            id2 != news[p]@.id,
            reg_wf(olds),
            reg_wf(news),
        ensures
            lookup(news, id2) == lookup(olds, id2),
    {
        if has_id(olds, id2) {
            let i = choose|i: int| 0 <= i < olds.len() && (#[trigger] olds[i])@.id == id2;
            assert(i != p);
            assert(news[i]@.id == id2);
            lemma_lookup_at(news, id2, i);
            lemma_lookup_at(olds, id2, i);
        } else if has_id(news, id2) {
            let i = choose|i: int| 0 <= i < news.len() && (#[trigger] news[i])@.id == id2;
            assert(i != p);
            assert(olds[i]@.id == id2);
        }
    }

    proof fn lemma_push_frame(olds: Seq<WorktreeInfo>, news: Seq<WorktreeInfo>, id2: Seq<char>)
        requires
            news.len() == olds.len() + 1,
            forall|i: int| 0 <= i < olds.len() ==> news[i] == olds[i],
            id2 != news[olds.len() as int]@.id,
            reg_wf(olds),
            reg_wf(news),
        ensures
            lookup(news, id2) == lookup(olds, id2),
    {
        if has_id(olds, id2) {
            let i = choose|i: int| 0 <= i < olds.len() && (#[trigger] olds[i])@.id == id2;
            assert(news[i]@.id == id2);
            lemma_lookup_at(news, id2, i);
            lemma_lookup_at(olds, id2, i);
        } else if has_id(news, id2) {
            let i = choose|i: int| 0 <= i < news.len() && (#[trigger] news[i])@.id == id2;
            assert(i < olds.len());
            assert(olds[i]@.id == id2);
        }
    }

    /// Drop the record under `id`, if one is registered; say whether one was.
    pub fn remove_id(&mut self, id: &str) -> (had: bool)
        requires
            old(self).wf(),
        ensures
            final(self).wf(),
            had == (lookup(old(self).rows(), id@) is Some),
            lookup(final(self).rows(), id@) is None,
            forall|id2: Seq<char>| id2 != id@ ==> lookup(final(self).rows(), id2) == lookup(
                old(self).rows(),
                id2,
            ),
            !had ==> final(self).rows() == old(self).rows(),
    {
        let ghost olds = self.entries@;
        let idv = crate::chars::chars_of(id);
        let n = self.entries.len();
        let mut p: usize = 0;
        while p < n
            invariant
                n == self.entries@.len(),
                p <= n,
                idv@ == id@,
                self.entries@ == olds,
                olds == old(self).rows(),
                reg_wf(olds),
                forall|j: int| 0 <= j < p ==> (#[trigger] self.entries@[j])@.id != id@,
            decreases n - p,
        {
            if crate::chars::eq_chars(&crate::chars::chars_of(self.entries[p].id.as_str()), &idv) {
                self.entries.remove(p);
                proof {
                    let news = self.entries@;
                    assert(news =~= olds.take(p as int) + olds.skip(p + 1));
                    assert(reg_wf(olds));
                    assert forall|i: int, j: int| 0 <= i < j < news.len() implies (
                    #[trigger] news[i])@.id != (#[trigger] news[j])@.id by {
                        let i0 = if i < p { i } else { i + 1 };
                        let j0 = if j < p { j } else { j + 1 };
                        assert(news[i] == olds[i0] && news[j] == olds[j0]);
                        assert(olds[i0]@.id != olds[j0]@.id);
                    }
                    lemma_lookup_at(olds, id@, p as int);
                    if has_id(news, id@) {
                        let i = choose|i: int| 0 <= i < news.len() && (#[trigger] news[i])@.id
                            == id@;
                        let i0 = if i < p { i } else { i + 1 };
                        assert(news[i] == olds[i0]);
                        assert(i0 != p);
                        if i0 < p {
                            assert(olds[i0]@.id != olds[p as int]@.id);
                        } else {
                            assert(olds[p as int]@.id != olds[i0]@.id);
                        }
                    }
                    assert forall|id2: Seq<char>| id2 != id@ implies lookup(news, id2) == lookup(
                        olds,
                        id2,
                    ) by {
                        if has_id(olds, id2) {
                            let i = choose|i: int|
                                0 <= i < olds.len() && (#[trigger] olds[i])@.id == id2;
                            assert(i != p);
                            let i1 = if i < p { i } else { i - 1 };
                            assert(news[i1] == olds[i]);
                            lemma_lookup_at(news, id2, i1);
                            lemma_lookup_at(olds, id2, i);
                        } else if has_id(news, id2) {
                            let i = choose|i: int|
                                0 <= i < news.len() && (#[trigger] news[i])@.id == id2;
                            let i0 = if i < p { i } else { i + 1 };
                            assert(olds[i0]@.id == id2);
                        }
                    }
                }
                return true;
            }
            p = p + 1;
        }
        proof {
            if has_id(olds, id@) {
                let i = choose|i: int| 0 <= i < olds.len() && (#[trigger] olds[i])@.id == id@;
                assert(olds[i]@.id != id@);
            }
        }
        false
    }

    /// A copy of the record under `id`, if one is registered.
    pub fn get(&self, id: &str) -> (r: Option<WorktreeInfo>)
        requires
            self.wf(),
        ensures
            match r {
                Some(info) => lookup(self.rows(), id@) == Option::Some(info@),
                None => lookup(self.rows(), id@) is None,
            },
    {
        let idv = crate::chars::chars_of(id);
        let n = self.entries.len();
        let mut p: usize = 0;
        while p < n
            invariant
                self.wf(),
                n == self.entries@.len(),
                p <= n,
                idv@ == id@,
                forall|j: int| 0 <= j < p ==> (#[trigger] self.entries@[j])@.id != id@,
            decreases n - p,
        {
            if crate::chars::eq_chars(&crate::chars::chars_of(self.entries[p].id.as_str()), &idv) {
                proof {
                    lemma_lookup_at(self.entries@, id@, p as int);
                }
                return Some(dup_info(&self.entries[p]));
            }
            p = p + 1;
        }
        proof {
            if has_id(self.entries@, id@) {
                let i = choose|i: int|
                    0 <= i < self.entries@.len() && (#[trigger] self.entries@[i])@.id == id@;
                assert(self.entries@[i]@.id != id@);
            }
        }
        None
    }

    /// A copy of the first record whose path is `path`, if any.
    pub fn get_by_path(&self, path: &str) -> (r: Option<WorktreeInfo>)
        ensures
            match r {
                Some(info) => first_by_path(self.rows(), path@) == Option::Some(info@),
                None => first_by_path(self.rows(), path@) is None,
            },
    {
        let pv = crate::chars::chars_of(path);
        let n = self.entries.len();
        let mut p: usize = 0;
        while p < n
            invariant
                n == self.entries@.len(),
                p <= n,
                pv@ == path@,
                forall|j: int| 0 <= j < p ==> (#[trigger] self.entries@[j])@.path != path@,
            decreases n - p,
        {
            if crate::chars::eq_chars(&crate::chars::chars_of(self.entries[p].path.as_str()), &pv) {
                proof {
                    lemma_first_by_path_at(self.entries@, path@, p as int);
                }
                return Some(dup_info(&self.entries[p]));
            }
            p = p + 1;
        }
        proof {
            lemma_first_by_path_none(self.entries@, path@);
        }
        None
    }

    /// Copies of all registered records, in registration order.
    pub fn all(&self) -> (r: Vec<WorktreeInfo>)
        ensures
            r@.map_values(|w: WorktreeInfo| w@) == self.rows().map_values(|w: WorktreeInfo| w@),
    {
        let n = self.entries.len();
        let mut out: Vec<WorktreeInfo> = Vec::new();
        let mut p: usize = 0;
        while p < n
            invariant
                n == self.entries@.len(),
                p <= n,
                out@.map_values(|w: WorktreeInfo| w@) == self.entries@.take(p as int).map_values(
                    |w: WorktreeInfo| w@,
                ),
            decreases n - p,
        {
            let ghost outprev = out@;
            out.push(dup_info(&self.entries[p]));
            proof {
                let t1 = out@.map_values(|w: WorktreeInfo| w@);
                let t2 = self.entries@.take(p + 1).map_values(|w: WorktreeInfo| w@);
                assert(outprev.map_values(|w: WorktreeInfo| w@).len() == p as int);
                assert(out@.len() == p + 1);
                assert(t1.len() == t2.len());
                assert forall|i: int| 0 <= i < t1.len() implies t1[i] == t2[i] by {
                    if i < p {
                        assert(outprev.map_values(|w: WorktreeInfo| w@)[i] == self.entries@.take(
                            p as int,
                        ).map_values(|w: WorktreeInfo| w@)[i]);
                    }
                }
                assert(t1 =~= t2);
            }
            p = p + 1;
        }
        proof {
            assert(self.entries@.take(n as int) =~= self.entries@);
        }
        out
    }
}

} // verus!
