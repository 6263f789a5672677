//! The ordered pool of scheduled-but-undispatched tasks.
//!
//! Entries are kept strictly ascending by the composite key
//! `(deadline, timestamp, pid)`: equal deadlines resolve by earlier arrival,
//! equal arrivals by lower pid, giving a deterministic total order. The pool
//! holds at most one live entry per pid; inserting a task that already has an
//! entry replaces that entry instead of duplicating it.

use vstd::prelude::*;

use crate::task::QueuedTask;

verus! {

/// A pool entry: a scored task together with its ordering key.
#[derive(Clone, Copy, Debug, PartialEq, Eq, Structural)]
pub struct ScheduledTask {
    /// The task snapshot as it was dequeued.
    pub task: QueuedTask,
    /// The deadline computed for the task; the primary ordering key.
    pub deadline: u64,
    /// Arrival timestamp used as the tie-break for equal deadlines.
    pub timestamp: u64,
}

/// The strict scheduling order: ascending `(deadline, timestamp, pid)`.
pub open spec fn key_lt(a: ScheduledTask, b: ScheduledTask) -> bool {
    ||| a.deadline < b.deadline
    ||| (a.deadline == b.deadline && a.timestamp < b.timestamp)
    ||| (a.deadline == b.deadline && a.timestamp == b.timestamp && a.task.pid < b.task.pid)
}

/// Reflexive closure of [`key_lt`]: equal keys or strictly ordered.
pub open spec fn key_le(a: ScheduledTask, b: ScheduledTask) -> bool {
    ||| key_lt(a, b)
    ||| (a.deadline == b.deadline && a.timestamp == b.timestamp && a.task.pid == b.task.pid)
}

/// Entries of distinct tasks are strictly ordered one way or the other: the
/// composite key is a total order over live entries.
pub proof fn lemma_key_order_total(a: ScheduledTask, b: ScheduledTask)
    requires
        a.task.pid != b.task.pid,
    ensures
        key_lt(a, b) || key_lt(b, a),
        !(key_lt(a, b) && key_lt(b, a)),
{
}

/// The tie-break rule, spelled out: a smaller deadline sorts first; for equal
/// deadlines the earlier arrival sorts first; for equal deadlines and
/// arrivals the lower pid sorts first.
pub proof fn lemma_key_order_tiebreak(a: ScheduledTask, b: ScheduledTask)
    ensures
        a.deadline < b.deadline ==> key_lt(a, b),
        a.deadline == b.deadline && a.timestamp < b.timestamp ==> key_lt(a, b),
        a.deadline == b.deadline && a.timestamp == b.timestamp && a.task.pid < b.task.pid
            ==> key_lt(a, b),
{
}

/// The order is transitive.
pub proof fn lemma_key_order_transitive(a: ScheduledTask, b: ScheduledTask, c: ScheduledTask)
    requires
        key_lt(a, b),
        key_lt(b, c),
    ensures
        key_lt(a, c),
{
}

/// Executable form of [`key_lt`].
pub fn key_before(a: &ScheduledTask, b: &ScheduledTask) -> (r: bool)
    ensures
        r == key_lt(*a, *b),
{
    if a.deadline != b.deadline {
        a.deadline < b.deadline
    } else if a.timestamp != b.timestamp {
        a.timestamp < b.timestamp
    } else {
        a.task.pid < b.task.pid
    }
}

/// Whether some entry of `s` carries `pid`.
pub open spec fn spec_has_pid(s: Seq<ScheduledTask>, pid: i32) -> bool {
    exists|i: int| 0 <= i < s.len() && #[trigger] s[i].task.pid == pid
}

/// Strictly ascending by the composite key.
pub open spec fn sorted_by_key(s: Seq<ScheduledTask>) -> bool {
    forall|i: int, j: int| 0 <= i < j < s.len() ==> key_lt(#[trigger] s[i], #[trigger] s[j])
}

/// No two entries for the same pid.
pub open spec fn distinct_pids(s: Seq<ScheduledTask>) -> bool {
    forall|i: int, j: int|
        0 <= i < j < s.len() ==> (#[trigger] s[i]).task.pid != (#[trigger] s[j]).task.pid
}

/// Two strictly sorted sequences with the same members are the same
/// sequence: the scheduling order is fully determined by which entries are
/// live.
pub proof fn lemma_sorted_same_members_equal(s1: Seq<ScheduledTask>, s2: Seq<ScheduledTask>)
    requires
        sorted_by_key(s1),
        sorted_by_key(s2),
        forall|e: ScheduledTask| s1.contains(e) <==> s2.contains(e),
    ensures
        s1 == s2,
    decreases s1.len(),
{
    if s1.len() == 0 {
        if s2.len() > 0 {
            assert(s2.contains(s2[0]));
            assert(s1.contains(s2[0]));
            assert(false);
        }
        assert(s1 =~= s2);
    } else {
        // The heads are members of each other's sequence; strict sortedness
        // forces them to be the same entry.
        assert(s1.contains(s1[0]));
        assert(s2.contains(s1[0]));
        let k = choose|k: int| 0 <= k < s2.len() && s2[k] == s1[0];
        assert(s2.contains(s2[0]));
        assert(s1.contains(s2[0]));
        let m = choose|m: int| 0 <= m < s1.len() && s1[m] == s2[0];
        if k > 0 {
            assert(key_lt(s2[0], s2[k]));
            if m > 0 {
                assert(key_lt(s1[0], s1[m]));
            }
            assert(false);
        }
        assert(s2[0] == s1[0]);

        let t1 = s1.drop_first();
        let t2 = s2.drop_first();
        assert forall|i: int, j: int| 0 <= i < j < t1.len() implies key_lt(t1[i], t1[j]) by {
            assert(t1[i] == s1[i + 1]);
            assert(t1[j] == s1[j + 1]);
        }
        assert forall|i: int, j: int| 0 <= i < j < t2.len() implies key_lt(t2[i], t2[j]) by {
            assert(t2[i] == s2[i + 1]);
            assert(t2[j] == s2[j + 1]);
        }
        assert forall|e: ScheduledTask| t1.contains(e) <==> t2.contains(e) by {
            if t1.contains(e) {
                let w = choose|w: int| 0 <= w < t1.len() && t1[w] == e;
                assert(s1[w + 1] == e);
                assert(key_lt(s1[0], s1[w + 1]));
                assert(s2.contains(e));
                let v = choose|v: int| 0 <= v < s2.len() && s2[v] == e;
                assert(v != 0);
                assert(t2[v - 1] == e);
                assert(t2.contains(e));
            }
            if t2.contains(e) {
                let w = choose|w: int| 0 <= w < t2.len() && t2[w] == e;
                assert(s2[w + 1] == e);
                assert(key_lt(s2[0], s2[w + 1]));
                assert(s1.contains(e));
                let v = choose|v: int| 0 <= v < s1.len() && s1[v] == e;
                assert(v != 0);
                assert(t1[v - 1] == e);
                assert(t1.contains(e));
            }
        }
        lemma_sorted_same_members_equal(t1, t2);
        assert(s1.len() == s2.len());
        assert forall|i: int| 0 <= i < s1.len() implies s1[i] == s2[i] by {
            if i > 0 {
                assert(t1[i - 1] == s1[i]);
                assert(t2[i - 1] == s2[i]);
            }
        }
        assert(s1 =~= s2);
    }
}

/// The pool, ordered ascending by `(deadline, timestamp, pid)` with at most
/// one live entry per pid.
#[derive(Debug)]
pub struct TaskPool {
    /// The entries, strictly sorted by [`key_lt`].
    pub entries: Vec<ScheduledTask>,
}

impl View for TaskPool {
    type V = Seq<ScheduledTask>;

    open spec fn view(&self) -> Seq<ScheduledTask> {
        self.entries@
    }
}

impl TaskPool {
    /// The pool invariant: strictly sorted by the composite key, and no two
    /// entries for the same pid.
    pub open spec fn wf(self) -> bool {
        &&& sorted_by_key(self@)
        &&& distinct_pids(self@)
    }

    /// An empty pool.
    pub fn new() -> (r: Self)
        ensures
            r.wf(),
            r@.len() == 0,
    {
        TaskPool { entries: Vec::new() }
    }

    /// Number of entries.
    pub fn len(&self) -> (r: usize)
        ensures
            r == self@.len(),
    {
        self.entries.len()
    }

    /// Whether the pool holds no entry.
    pub fn is_empty(&self) -> (r: bool)
        ensures
            r == (self@.len() == 0),
    {
        self.entries.len() == 0
    }

    /// The entry at position `i` in scheduling order, if any.
    pub fn get(&self, i: usize) -> (r: Option<ScheduledTask>)
        ensures
            i < self@.len() ==> r == Some(self@[i as int]),
            i >= self@.len() ==> r is None,
    {
        if i < self.entries.len() {
            Some(self.entries[i])
        } else {
            None
        }
    }

    /// Drop every entry; used on engine shutdown, where in-flight tasks
    /// become the kernel side's responsibility.
    pub fn clear(&mut self)
        ensures
            final(self).wf(),
            final(self)@.len() == 0,
    {
        self.entries.clear();
    }

    /// Insert a freshly scored entry. A previous entry for the same pid is
    /// replaced, never duplicated; every other entry is kept, and the pool
    /// stays sorted.
    pub fn insert(&mut self, entry: ScheduledTask)
        requires
            old(self).wf(),
        ensures
            final(self).wf(),
            final(self)@.contains(entry),
            forall|e: ScheduledTask|
                old(self)@.contains(e) && e.task.pid != entry.task.pid
                    ==> final(self)@.contains(e),
            forall|e: ScheduledTask|
                final(self)@.contains(e) ==> e == entry || (old(self)@.contains(e)
                    && e.task.pid != entry.task.pid),
            final(self)@.len() == old(self)@.len() + 1 - (if spec_has_pid(
                old(self)@,
                entry.task.pid,
            ) {
                1int
            } else {
                0int
            }),
    {
        let ghost s0 = old(self)@;

        // Find a previous entry for the same task, if any.
        let n = self.entries.len();
        let mut i: usize = 0;
        let mut dup: Option<usize> = None;
        while i < n
            invariant
                n == self.entries.len(),
                self.entries@ == s0,
                i <= n,
                match dup {
                    Some(j) => j < i && s0[j as int].task.pid == entry.task.pid && forall|k: int|
                        0 <= k < j ==> s0[k].task.pid != entry.task.pid,
                    None => forall|k: int| 0 <= k < i ==> s0[k].task.pid != entry.task.pid,
                },
            decreases n - i,
        {
            if dup.is_none() && self.entries[i].task.pid == entry.task.pid {
                dup = Some(i);
            }
            i = i + 1;
        }

        match dup {
            None => {
            },
            Some(j) => {
                self.entries.remove(j);
                proof {
                    s0.remove_ensures(j as int);
                }
            },
        }

        let ghost s1 = self.entries@;
        proof {
            // After the removal pass, no entry carries the new pid, the
            // remainder is still sorted and pid-unique, and exactly the
            // pid-distinct entries survive.
            assert forall|k: int| 0 <= k < s1.len() implies s1[k].task.pid
                != entry.task.pid by {
                match dup {
                    None => {
                        assert(s1[k] == s0[k]);
                    },
                    Some(j) => {
                        if k < j {
                            assert(s1[k] == s0[k]);
                        } else {
                            assert(s1[k] == s0[k + 1]);
                            // A second entry with the duplicate's pid would
                            // violate pid-uniqueness of the original pool.
                            assert(s0[j as int].task.pid != s0[k + 1].task.pid);
                        }
                    },
                }
            }
            assert forall|a: int, b: int| 0 <= a < b < s1.len() implies key_lt(s1[a], s1[b])
                && s1[a].task.pid != s1[b].task.pid by {
                match dup {
                    None => {
                        assert(s1[a] == s0[a]);
                        assert(s1[b] == s0[b]);
                    },
                    Some(j) => {
                        let a0: int = if a < j { a } else { a + 1 };
                        let b0: int = if b < j { b } else { b + 1 };
                        assert(s1[a] == s0[a0]);
                        assert(s1[b] == s0[b0]);
                        assert(key_lt(s0[a0], s0[b0]));
                    },
                }
            }
        }

        // Find the insertion point that keeps the entries sorted.
        let m = self.entries.len();
        let mut pos: usize = 0;
        while pos < m
            invariant_except_break
                m == self.entries.len(),
                self.entries@ == s1,
                pos <= m,
                forall|k: int| 0 <= k < pos ==> key_lt(s1[k], entry),
            ensures
                m == self.entries.len(),
                self.entries@ == s1,
                pos <= m,
                forall|k: int| 0 <= k < pos ==> key_lt(s1[k], entry),
                pos < m ==> !key_lt(s1[pos as int], entry),
            decreases m - pos,
        {
            if !key_before(&self.entries[pos], &entry) {
                break ;
            }
            pos = pos + 1;
        }

        self.entries.insert(pos, entry);
        proof {
            s1.insert_ensures(pos as int, entry);
            let s2 = self.entries@;

            // Everything at or after the insertion point sorts after the new
            // entry: its key is not below the new entry's and keys of
            // distinct pids never tie.
            assert forall|k: int| pos <= k < s1.len() implies key_lt(entry, s1[k]) by {
                lemma_key_order_total(entry, s1[pos as int]);
                if k > pos {
                    lemma_key_order_transitive(entry, s1[pos as int], s1[k]);
                }
            }

            assert forall|a: int, b: int| 0 <= a < b < s2.len() implies key_lt(s2[a], s2[b])
                && s2[a].task.pid != s2[b].task.pid by {
                if a < pos && b < pos {
                } else if a < pos && b == pos {
                    assert(s2[b] == entry);
                } else if a == pos {
                    assert(s2[a] == entry);
                    assert(s2[b] == s1[b - 1]);
                } else if a < pos && b > pos {
                    assert(s2[b] == s1[b - 1]);
                } else {
                    assert(s2[a] == s1[a - 1]);
                    assert(s2[b] == s1[b - 1]);
                }
            }

            assert(s2.contains(entry)) by {
                assert(s2[pos as int] == entry);
            }
            assert forall|e: ScheduledTask|
                s0.contains(e) && e.task.pid != entry.task.pid implies s2.contains(e) by {
                let w = choose|w: int| 0 <= w < s0.len() && s0[w] == e;
                match dup {
                    None => {
                        assert(s1[w] == e);
                    },
                    Some(j) => {
                        assert(w != j);
                        if w < j {
                            assert(s1[w] == e);
                        } else {
                            assert(s1[w - 1] == s0[w]);
                        }
                    },
                }
                let v = choose|v: int| 0 <= v < s1.len() && s1[v] == e;
                if v < pos {
                    assert(s2[v] == e);
                } else {
                    assert(s2[v + 1] == e);
                }
            }
            assert forall|e: ScheduledTask| s2.contains(e) implies e == entry || (s0.contains(e)
                && e.task.pid != entry.task.pid) by {
                let w = choose|w: int| 0 <= w < s2.len() && s2[w] == e;
                if w != pos {
                    let v: int = if w < pos { w } else { w - 1 };
                    assert(s1[v] == e);
                    match dup {
                        None => {
                            assert(s0[v] == e);
                        },
                        Some(j) => {
                            if v < j {
                                assert(s0[v] == e);
                            } else {
                                assert(s0[v + 1] == e);
                            }
                        },
                    }
                }
            }
            if dup is Some {
                assert(spec_has_pid(s0, entry.task.pid)) by {
                    let j = dup->0;
                    assert(s0[j as int].task.pid == entry.task.pid);
                }
            } else {
                assert(!spec_has_pid(s0, entry.task.pid));
            }
        }
    }

    /// Remove and return the entry with the smallest `(deadline, timestamp,
    /// pid)` key — the head of the scheduling order — or `None` if the pool
    /// is empty.
    pub fn pop_first(&mut self) -> (r: Option<ScheduledTask>)
        requires
            old(self).wf(),
        ensures
            final(self).wf(),
            old(self)@.len() == 0 ==> r is None && final(self)@ == old(self)@,
            old(self)@.len() > 0 ==> r == Some(old(self)@[0]) && final(self)@ == old(self)@.drop_first(),
            old(self)@.len() > 0 ==> forall|j: int|
                0 <= j < old(self)@.len() ==> key_le(old(self)@[0], #[trigger] old(self)@[j]),
    {
        if self.entries.len() == 0 {
            None
        } else {
            let e = self.entries.remove(0);
            proof {
                assert(old(self)@.remove(0) =~= old(self)@.drop_first());
            }
            Some(e)
        }
    }
}

/// The head of a well-formed, non-empty pool is the entry with the smallest
/// `(deadline, timestamp, pid)` key.
pub proof fn lemma_first_is_min(p: TaskPool)
    requires
        p.wf(),
        p@.len() > 0,
    ensures
        forall|j: int| 0 <= j < p@.len() ==> key_le(p@[0], #[trigger] p@[j]),
{
}

} // verus!
