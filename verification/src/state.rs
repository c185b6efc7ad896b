//! Persisted state: the singleton configuration and the task registry, the
//! single source of truth for which tasks this module owns and which
//! scheduler version owns each of them.

use vstd::prelude::*;

use crate::error::AppError;
use crate::order::{first_after, lemma_first_after_at, lemma_lex_lt_asymmetric,
    lemma_lex_lt_connected, lemma_lex_lt_irreflexive, lemma_lex_lt_transitive, lex_lt, str_lt};

verus! {

/// Singleton configuration: the address of the directory used to resolve
/// every other service.
pub struct Config {
    pub factory_addr: String,
}

/// One registry entry: a task identifier bound to the scheduler version that
/// created the task. The version is immutable once recorded and is the only
/// way to resolve the exact service instance that owns the task.
pub struct TaskEntry {
    pub task_hash: String,
    pub version: String,
}

/// The task registry: task identifier -> scheduler version, kept in
/// ascending identifier order, the order in which a key-ordered store lists
/// its keys.
pub struct TaskRegistry {
    pub entries: Vec<TaskEntry>,
}

/// The mathematical content of a run of entries: the identifier-to-version
/// map they build up, later entries overriding earlier ones.
pub open spec fn map_of(s: Seq<TaskEntry>) -> Map<Seq<char>, Seq<char>>
    decreases s.len(),
{
    if s.len() == 0 {
        Map::empty()
    } else {
        map_of(s.drop_last()).insert(s.last().task_hash@, s.last().version@)
    }
}

/// A key is in the map of `s` exactly when some entry carries it.
pub proof fn lemma_map_of_contains(s: Seq<TaskEntry>, k: Seq<char>)
    ensures
        map_of(s).contains_key(k) <==> exists|i: int|
            0 <= i < s.len() && #[trigger] s[i].task_hash@ == k,
    decreases s.len(),
{
    if s.len() > 0 {
        lemma_map_of_contains(s.drop_last(), k);
        if s.last().task_hash@ == k {
            assert(s[s.len() - 1].task_hash@ == k);
        } else if exists|i: int| 0 <= i < s.len() && #[trigger] s[i].task_hash@ == k {
            let i = choose|i: int| 0 <= i < s.len() && #[trigger] s[i].task_hash@ == k;
            assert(s.drop_last()[i].task_hash@ == k);
        }
    }
}

/// With no duplicate identifiers, each entry's version is what the map
/// records for its identifier.
pub proof fn lemma_map_of_value(s: Seq<TaskEntry>, i: int)
    requires
        registry_wf(s),
        0 <= i < s.len(),
    ensures
        map_of(s).contains_key(s[i].task_hash@),
        map_of(s)[s[i].task_hash@] == s[i].version@,
    decreases s.len(),
{
    lemma_map_of_contains(s, s[i].task_hash@);
    if i == s.len() - 1 {
    } else {
        assert(registry_wf(s.drop_last()));
        lemma_map_of_value(s.drop_last(), i);
        assert(s.drop_last()[i] == s[i]);
        assert(s[i].task_hash@ != s.last().task_hash@);
    }
}

/// Removing the only entry for a key removes exactly that key from the map.
pub proof fn lemma_map_of_remove(s: Seq<TaskEntry>, i: int)
    requires
        registry_wf(s),
        0 <= i < s.len(),
    ensures
        map_of(s.remove(i)) =~= map_of(s).remove(s[i].task_hash@),
    decreases s.len(),
{
    let k = s[i].task_hash@;
    if i == s.len() - 1 {
        assert(s.remove(i) =~= s.drop_last());
        lemma_map_of_contains(s.drop_last(), k);
        assert(forall|j: int|
            0 <= j < s.drop_last().len() ==> #[trigger] s.drop_last()[j].task_hash@ != k);
        assert(!map_of(s.drop_last()).contains_key(k));
        assert(map_of(s.drop_last()).insert(k, s.last().version@).remove(k) =~= map_of(
            s.drop_last(),
        ));
    } else {
        assert(registry_wf(s.drop_last()));
        assert(s.drop_last()[i] == s[i]);
        lemma_map_of_remove(s.drop_last(), i);
        assert(s.remove(i).drop_last() =~= s.drop_last().remove(i));
        assert(s.remove(i).last() == s.last());
        assert(s.last().task_hash@ != k);
        assert(map_of(s.remove(i)) =~= map_of(s.drop_last()).remove(k).insert(
            s.last().task_hash@,
            s.last().version@,
        ));
    }
}

/// Inserting an entry whose identifier is fresh inserts exactly its binding
/// into the map, wherever the entry is placed.
pub proof fn lemma_map_of_insert_at(s: Seq<TaskEntry>, pos: int, e: TaskEntry)
    requires
        0 <= pos <= s.len(),
        forall|j: int| 0 <= j < s.len() ==> #[trigger] s[j].task_hash@ != e.task_hash@,
    ensures
        map_of(s.insert(pos, e)) =~= map_of(s).insert(e.task_hash@, e.version@),
    decreases s.len(),
{
    let t = s.insert(pos, e);
    if pos == s.len() {
        assert(t.drop_last() =~= s);
        assert(t.last() == e);
    } else {
        assert(t.drop_last() =~= s.drop_last().insert(pos, e));
        assert(t.last() == s.last());
        assert(forall|j: int| 0 <= j < s.drop_last().len() ==> #[trigger] s.drop_last()[j] == s[j]);
        lemma_map_of_insert_at(s.drop_last(), pos, e);
        assert(s.last().task_hash@ != e.task_hash@);
        assert(map_of(s.drop_last()).insert(e.task_hash@, e.version@).insert(
            s.last().task_hash@,
            s.last().version@,
        ) =~= map_of(s.drop_last()).insert(s.last().task_hash@, s.last().version@).insert(
            e.task_hash@,
            e.version@,
        ));
    }
}

/// The entries ascend strictly in identifier order.
pub open spec fn registry_sorted(s: Seq<TaskEntry>) -> bool {
    forall|i: int, j: int|
        0 <= i < j < s.len() ==> lex_lt(
            #[trigger] s[i].task_hash@,
            #[trigger] s[j].task_hash@,
        )
}

/// No two entries carry the same task identifier.
pub open spec fn registry_wf(s: Seq<TaskEntry>) -> bool {
    forall|i: int, j: int|
        0 <= i < j < s.len() ==> #[trigger] s[i].task_hash@ != #[trigger] s[j].task_hash@
}

impl TaskRegistry {
    /// The entries ascend strictly in identifier order; in particular no two
    /// carry the same identifier.
    pub open spec fn wf(self) -> bool {
        registry_sorted(self.entries@) && registry_wf(self.entries@)
    }

    /// The identifier-to-version map this registry represents.
    pub open spec fn view(self) -> Map<Seq<char>, Seq<char>> {
        map_of(self.entries@)
    }

    /// The registered task identifiers, in registration order.
    pub open spec fn order(self) -> Seq<Seq<char>> {
        self.entries@.map_values(|e: TaskEntry| e.task_hash@)
    }

    /// A registry with no tasks.
    pub fn empty() -> (r: TaskRegistry)
        ensures
            r.wf(),
            r@ =~= Map::<Seq<char>, Seq<char>>::empty(),
            r.order() =~= Seq::<Seq<char>>::empty(),
    {
        TaskRegistry { entries: Vec::new() }
    }

    /// Index of the entry for `task_hash`, if one exists.
    fn find(&self, task_hash: &String) -> (r: Option<usize>)
        ensures
            match r {
                Some(i) => i < self.entries@.len() && self.entries@[i as int].task_hash@
                    == task_hash@,
                None => forall|i: int|
                    0 <= i < self.entries@.len() ==> #[trigger] self.entries@[i].task_hash@
                        != task_hash@,
            },
    {
        let n: usize = self.entries.len();
        for i in 0..n
            invariant
                n == self.entries@.len(),
                forall|j: int|
                    0 <= j < i ==> #[trigger] self.entries@[j].task_hash@ != task_hash@,
        {
            if self.entries[i].task_hash == *task_hash {
                return Some(i);
            }
        }
        None
    }

    /// Whether a record for `task_hash` exists.
    pub fn contains(&self, task_hash: &String) -> (r: bool)
        ensures
            r == self@.contains_key(task_hash@),
    {
        proof {
            lemma_map_of_contains(self.entries@, task_hash@);
        }
        self.find(task_hash).is_some()
    }

    /// The scheduler version recorded for `task_hash`, if a record exists.
    pub fn version_of(&self, task_hash: &String) -> (r: Option<String>)
        requires
            self.wf(),
        ensures
            match r {
                Some(v) => self@.contains_key(task_hash@) && v@ == self@[task_hash@],
                None => !self@.contains_key(task_hash@),
            },
    {
        proof {
            lemma_map_of_contains(self.entries@, task_hash@);
        }
        match self.find(task_hash) {
            Some(i) => {
                proof {
                    lemma_map_of_value(self.entries@, i as int);
                }
                Some(self.entries[i].version.clone())
            }
            None => None,
        }
    }

    /// Where `task_hash` stands or belongs: the index of its entry when it
    /// is registered, else the position that keeps the entries ascending.
    fn find_slot(&self, task_hash: &String) -> (r: Result<usize, usize>)
        ensures
            match r {
                Err(i) => i < self.entries@.len() && self.entries@[i as int].task_hash@
                    == task_hash@,
                Ok(pos) => {
                    &&& pos <= self.entries@.len()
                    &&& forall|j: int|
                        0 <= j < pos ==> lex_lt(#[trigger] self.entries@[j].task_hash@, task_hash@)
                    &&& pos < self.entries@.len() ==> lex_lt(
                        task_hash@,
                        self.entries@[pos as int].task_hash@,
                    )
                },
            },
    {
        let n: usize = self.entries.len();
        for i in 0..n
            invariant
                n == self.entries@.len(),
                forall|j: int|
                    0 <= j < i ==> lex_lt(#[trigger] self.entries@[j].task_hash@, task_hash@),
        {
            if self.entries[i].task_hash == *task_hash {
                return Err(i);
            }
            if str_lt(task_hash, &self.entries[i].task_hash) {
                return Ok(i);
            }
            proof {
                lemma_lex_lt_connected(self.entries@[i as int].task_hash@, task_hash@);
            }
        }
        Ok(n)
    }

    /// Record a task, keeping the entries ascending. Fails, changing
    /// nothing, when a record for the identifier already exists: a duplicate
    /// continuation is a protocol violation and must never overwrite the
    /// recorded version.
    pub fn insert(&mut self, task_hash: String, version: String) -> (r: Result<(), AppError>)
        requires
            old(self).wf(),
        ensures
            final(self).wf(),
            match r {
                Ok(()) => {
                    &&& !old(self)@.contains_key(task_hash@)
                    &&& final(self)@ =~= old(self)@.insert(task_hash@, version@)
                    &&& final(self).order() =~= old(self).order().insert(
                        first_after(old(self).order(), task_hash@),
                        task_hash@,
                    )
                },
                Err(e) => {
                    &&& old(self)@.contains_key(task_hash@)
                    &&& *final(self) == *old(self)
                    &&& e matches AppError::TaskAlreadyExists { task_hash: t } && t@ == task_hash@
                },
            },
    {
        match self.find_slot(&task_hash) {
            Err(i) => {
                proof {
                    lemma_map_of_contains(self.entries@, task_hash@);
                    assert(self.entries@[i as int].task_hash@ == task_hash@);
                }
                Err(AppError::TaskAlreadyExists { task_hash })
            },
            Ok(pos) => {
                let ghost pre = self.entries@;
                let ghost key = task_hash@;
                let ghost p = pos as int;
                proof {
                    assert forall|j: int| 0 <= j < pre.len() implies #[trigger] pre[j].task_hash@
                        != key by {
                        if pre[j].task_hash@ == key {
                            if j < p {
                                lemma_lex_lt_irreflexive(key);
                            } else if j > p {
                                lemma_lex_lt_transitive(key, pre[p].task_hash@, pre[j].task_hash@);
                                lemma_lex_lt_irreflexive(key);
                            } else {
                                lemma_lex_lt_irreflexive(key);
                            }
                        }
                    }
                    lemma_map_of_contains(pre, key);
                    assert forall|j: int| 0 <= j < p implies !lex_lt(
                        key,
                        #[trigger] old(self).order()[j],
                    ) by {
                        assert(old(self).order()[j] == pre[j].task_hash@);
                        lemma_lex_lt_asymmetric(pre[j].task_hash@, key);
                    }
                    if p < pre.len() {
                        assert(old(self).order()[p] == pre[p].task_hash@);
                    }
                    lemma_first_after_at(old(self).order(), key, p);
                }
                let entry = TaskEntry { task_hash, version };
                self.entries.insert(pos, entry);
                proof {
                    let post = self.entries@;
                    assert(post == pre.insert(p, post[p]));
                    assert(post[p].task_hash@ == key);
                    assert(forall|j: int| 0 <= j < p ==> #[trigger] post[j] == pre[j]);
                    assert(forall|j: int| p < j < post.len() ==> #[trigger] post[j] == pre[j - 1]);
                    lemma_map_of_insert_at(pre, p, post[p]);
                    assert(post.map_values(|e: TaskEntry| e.task_hash@) =~= pre.map_values(
                        |e: TaskEntry| e.task_hash@,
                    ).insert(p, key));
                    assert forall|x: int, y: int| 0 <= x < y < post.len() implies lex_lt(
                        #[trigger] post[x].task_hash@,
                        #[trigger] post[y].task_hash@,
                    ) by {
                        if x < p && y == p {
                        } else if x == p && y > p {
                            if y - 1 > p {
                                lemma_lex_lt_transitive(
                                    key,
                                    pre[p].task_hash@,
                                    pre[y - 1].task_hash@,
                                );
                            }
                        } else if x < p && y > p {
                            if x == y - 1 {
                            } else {
                                assert(lex_lt(pre[x].task_hash@, pre[y - 1].task_hash@));
                            }
                        }
                    }
                    assert forall|x: int, y: int| 0 <= x < y < post.len() implies #[trigger] post[x].task_hash@
                        != #[trigger] post[y].task_hash@ by {
                        if post[x].task_hash@ == post[y].task_hash@ {
                            lemma_lex_lt_irreflexive(post[x].task_hash@);
                        }
                    }
                }
                Ok(())
            },
        }
    }

    /// Where a page of identifiers starts: at the beginning without a
    /// cursor, else at the first identifier that follows the cursor — an
    /// exclusive bound, whether or not the cursor itself is still
    /// registered.
    pub open spec fn cursor_start(self, start_after: Option<String>) -> int {
        match start_after {
            None => 0,
            Some(c) => first_after(self.order(), c@),
        }
    }

    /// The first position whose identifier follows `c`.
    fn lower_bound(&self, c: &String) -> (r: usize)
        ensures
            r <= self.entries@.len(),
            r as int == first_after(self.order(), c@),
    {
        let n: usize = self.entries.len();
        for i in 0..n
            invariant
                n == self.entries@.len(),
                forall|j: int| 0 <= j < i ==> !lex_lt(c@, #[trigger] self.order()[j]),
        {
            let after = str_lt(c, &self.entries[i].task_hash);
            proof {
                assert(self.order()[i as int] == self.entries@[i as int].task_hash@);
            }
            if after {
                proof {
                    lemma_first_after_at(self.order(), c@, i as int);
                }
                return i;
            }
        }
        proof {
            lemma_first_after_at(self.order(), c@, n as int);
        }
        n
    }

    /// The registered identifiers that follow the cursor, in ascending
    /// identifier order, at most `limit` of them.
    pub fn page(&self, start_after: Option<String>, limit: usize) -> (r: Vec<String>)
        requires
            self.wf(),
        ensures
            ({
                let start = self.cursor_start(start_after);
                let avail = self.order().len() - start;
                &&& r@.len() == (if limit <= avail {
                    limit as int
                } else {
                    avail
                })
                &&& forall|i: int| 0 <= i < r@.len() ==> #[trigger] r@[i]@ == self.order()[start + i]
            }),
    {
        let start: usize = match &start_after {
            None => 0,
            Some(c) => self.lower_bound(c),
        };
        let mut out: Vec<String> = Vec::new();
        let mut i: usize = start;
        while i < self.entries.len() && out.len() < limit
            invariant
                self.wf(),
                start <= i <= self.entries@.len(),
                out@.len() == i - start,
                out@.len() <= limit,
                forall|j: int| 0 <= j < out@.len() ==> #[trigger] out@[j]@ == self.order()[start + j],
            decreases self.entries@.len() - i,
        {
            out.push(self.entries[i].task_hash.clone());
            i = i + 1;
        }
        out
    }

    /// Delete the record for `task_hash` and return its recorded version.
    /// Fails, changing nothing, when no record exists.
    pub fn remove(&mut self, task_hash: &String) -> (r: Result<String, AppError>)
        requires
            old(self).wf(),
        ensures
            final(self).wf(),
            match r {
                Ok(v) => {
                    &&& old(self)@.contains_key(task_hash@)
                    &&& v@ == old(self)@[task_hash@]
                    &&& final(self)@ =~= old(self)@.remove(task_hash@)
                    &&& exists|i: int|
                        0 <= i < old(self).order().len() && old(self).order()[i] == task_hash@
                           && final(self).order() =~= old(self).order().remove(i)
                },
                Err(e) => {
                    &&& !old(self)@.contains_key(task_hash@)
                    &&& *final(self) == *old(self)
                    &&& e matches AppError::NotFound { task_hash: t } && t@ == task_hash@
                },
            },
    {
        proof {
            lemma_map_of_contains(self.entries@, task_hash@);
        }
        match self.find(task_hash) {
            Some(i) => {
                proof {
                    lemma_map_of_value(self.entries@, i as int);
                    lemma_map_of_remove(self.entries@, i as int);
                }
                let ghost pre = self.entries@;
                let entry = self.entries.remove(i);
                proof {
                    assert forall|a: int, b: int| 0 <= a < b < self.entries@.len() implies #[trigger] self
                        .entries@[a].task_hash@ != #[trigger] self.entries@[b].task_hash@ by {
                        let a0: int = if a < i { a } else { a + 1 };
                        let b0: int = if b < i { b } else { b + 1 };
                        assert(self.entries@[a] == pre[a0]);
                        assert(self.entries@[b] == pre[b0]);
                    }
                    assert forall|a: int, b: int| 0 <= a < b < self.entries@.len() implies lex_lt(
                        #[trigger] self.entries@[a].task_hash@,
                        #[trigger] self.entries@[b].task_hash@,
                    ) by {
                        let a0: int = if a < i { a } else { a + 1 };
                        let b0: int = if b < i { b } else { b + 1 };
                        assert(self.entries@[a] == pre[a0]);
                        assert(self.entries@[b] == pre[b0]);
                    }
                    let ghost iw = i as int;
                    assert(0 <= iw < old(self).order().len() && old(self).order()[iw]
                        == task_hash@ && self.order() =~= old(self).order().remove(iw));
                }
                Ok(entry.version)
            }
            None => Err(AppError::NotFound { task_hash: task_hash.clone() }),
        }
    }
}

/// Everything the module persists between requests: the configuration, the
/// task registry, and the transient marker a removal dispatch leaves for its
/// continuation.
pub struct ModuleState {
    pub config: Config,
    pub tasks: TaskRegistry,
    pub removed_task_manager: Option<String>,
}

impl ModuleState {
    /// The state's internal invariant: the registry holds no duplicates.
    pub open spec fn wf(self) -> bool {
        self.tasks.wf()
    }
}

} // verus!
