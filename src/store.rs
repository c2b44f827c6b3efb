//! A table of tasks with the store's operations: insert, select the closest
//! due task under lease, record outcomes and clear stale leases.
use vstd::prelude::*;
use crate::time::Timestamp;
use crate::task::{Task, Outcome, apply_outcome, apply_spec, can_apply};

verus! {

/// The tasks of a store, in insertion order.
pub struct TaskTable {
    rows: Vec<Task>,
    next_id: u128,
}

/// `s` with every lease cleared.
pub open spec fn unlocked(s: Seq<Task>) -> Seq<Task> {
    s.map_values(|t: Task| Task { is_running: false, ..t })
}

/// How many rows of `s` are leased.
pub open spec fn running_count(s: Seq<Task>) -> nat
    decreases s.len(),
{
    if s.len() == 0 {
        0
    } else {
        running_count(s.drop_last()) + if s.last().is_running { 1nat } else { 0nat }
    }
}

/// Row `i` of `rows` is the one the dispatcher selects: eligible, with the
/// earliest wake-up time, and the first inserted among rows that wake up then.
pub open spec fn is_closest(rows: Seq<Task>, i: int) -> bool {
    &&& 0 <= i < rows.len()
    &&& rows[i].eligible()
    &&& forall|j: int|
        0 <= j < rows.len() && #[trigger] rows[j].eligible() ==> rows[i].wakeup_at <= rows[j].wakeup_at
            && (j < i ==> rows[i].wakeup_at < rows[j].wakeup_at)
}

/// No row of `rows` can be selected.
pub open spec fn none_eligible(rows: Seq<Task>) -> bool {
    forall|j: int| 0 <= j < rows.len() ==> !(#[trigger] rows[j]).eligible()
}

/// `rows` once row `i` has been leased at `now`.
pub open spec fn leased(rows: Seq<Task>, i: int, now: int) -> Seq<Task> {
    rows.update(i, Task { is_running: true, updated_at: now as i64, ..rows[i] })
}

/// `rows` once the outcome that left `after` of row `i` is stored.
pub open spec fn stored(rows: Seq<Task>, i: int, after: Option<Task>) -> Seq<Task> {
    match after {
        None => rows.remove(i),
        Some(t) => rows.update(i, t),
    }
}

impl View for TaskTable {
    type V = Seq<Task>;

    closed spec fn view(&self) -> Seq<Task> {
        self.rows@
    }
}

impl TaskTable {
    /// The identifier that the next inserted task gets.
    pub closed spec fn next_id(&self) -> u128 {
        self.next_id
    }

    /// Attempt counts are never negative, and identifiers are unique and below `next_id`.
    pub closed spec fn wf(&self) -> bool {
        &&& forall|i: int| 0 <= i < self.rows@.len() ==> (#[trigger] self.rows@[i]).tried >= 0
        &&& forall|i: int| 0 <= i < self.rows@.len() ==> (#[trigger] self.rows@[i]).id < self.next_id
        &&& forall|i: int, j: int|
            0 <= i < self.rows@.len() && 0 <= j < self.rows@.len() && i != j
                ==> #[trigger] self.rows@[i].id != #[trigger] self.rows@[j].id
    }

    /// An empty table.
    pub fn new() -> (r: TaskTable)
        ensures
            r.wf(),
            r@ == Seq::<Task>::empty(),
            r.next_id() == 0,
    {
        TaskTable { rows: Vec::new(), next_id: 0 }
    }

    /// The number of rows.
    pub fn len(&self) -> (r: usize)
        ensures
            r == self@.len(),
    {
        self.rows.len()
    }

    /// Row `i`.
    pub fn get(&self, i: usize) -> (r: &Task)
        requires
            i < self@.len(),
        ensures
            *r == self@[i as int],
    {
        &self.rows[i]
    }
    /// Inserts a task that runs `step` from `at` on, recorded at `now`; returns
    /// its identifier, or `None` once identifiers are exhausted.
    pub fn enqueue(&mut self, step: String, at: Timestamp, now: Timestamp) -> (r: Option<u128>)
        requires
            old(self).wf(),
        ensures
            final(self).wf(),
            r.is_some() <==> old(self).next_id() < u128::MAX,
            r matches Some(id) ==> {
                &&& id == old(self).next_id()
                &&& final(self)@ == old(self)@.push(Task {
                    id: id,
                    step: step,
                    tried: 0,
                    wakeup_at: at,
                    is_running: false,
                    error: None,
                    updated_at: now,
                })
                &&& forall|j: int| 0 <= j < old(self)@.len() ==> (#[trigger] old(self)@[j]).id != id
            },
            r is None ==> final(self)@ == old(self)@,
    {
        if self.next_id == u128::MAX {
            return None;
        }
        let id = self.next_id;
        self.rows.push(Task {
            id,
            step,
            tried: 0,
            wakeup_at: at,
            is_running: false,
            error: None,
            updated_at: now,
        });
        self.next_id = id + 1;
        Some(id)
    }

    /// The row the dispatcher selects: among the rows that are neither leased
    /// nor parked, the one with the earliest wake-up time, the first inserted
    /// on a tie; `None` when there is none.
    pub fn fetch_closest(&self) -> (r: Option<usize>)
        ensures
            r matches Some(i) ==> is_closest(self@, i as int),
            r is None ==> none_eligible(self@),
    {
        let mut best: Option<usize> = None;
        let mut k: usize = 0;
        while k < self.rows.len()
            invariant
                k <= self@.len(),
                best matches Some(b) ==> b < k && is_closest(self@.subrange(0, k as int), b as int),
                best is None ==> none_eligible(self@.subrange(0, k as int)),
            decreases self@.len() - k,
        {
            let row = &self.rows[k];
            if !row.is_running && row.error.is_none() {
                match best {
                    None => {
                        best = Some(k);
                    },
                    Some(b) => {
                        if row.wakeup_at < self.rows[b].wakeup_at {
                            best = Some(k);
                        }
                    },
                }
            }
            proof {
                let pre = self@.subrange(0, k as int);
                let post = self@.subrange(0, k + 1);
                assert forall|j: int| 0 <= j < k implies post[j] == #[trigger] pre[j] by {}
                assert(post[k as int] == self@[k as int]);
            }
            k = k + 1;
        }
        proof {
            assert(self@.subrange(0, self@.len() as int) == self@);
        }
        best
    }

    /// Leases row `i` at `now`.
    pub fn mark_running(&mut self, i: usize, now: Timestamp)
        requires
            old(self).wf(),
            i < old(self)@.len(),
        ensures
            final(self).wf(),
            final(self).next_id() == old(self).next_id(),
            final(self)@ == leased(old(self)@, i as int, now as int),
    {
        let row = self.rows.remove(i);
        let Task { id, step, tried, wakeup_at, is_running: _, error, updated_at: _ } = row;
        self.rows.insert(i, Task { id, step, tried, wakeup_at, is_running: true, error, updated_at: now });
        proof {
            assert(self.rows@ =~= leased(old(self).rows@, i as int, now as int));
        }
    }
    /// Clears every lease, as a worker does on start to reclaim tasks left
    /// leased by a crashed run; returns how many rows were leased.
    pub fn unlock_all(&mut self) -> (r: u64)
        requires
            old(self).wf(),
        ensures
            final(self).wf(),
            final(self).next_id() == old(self).next_id(),
            final(self)@ == unlocked(old(self)@),
            r == running_count(old(self)@),
    {
        let ghost start = self.rows@;
        let n = self.rows.len();
        let mut count: u64 = 0;
        let mut k: usize = 0;
        while k < n
            invariant
                n == start.len(),
                k <= n,
                count <= k,
                count == running_count(start.subrange(0, k as int)),
                self.rows@ == unlocked(start.subrange(0, k as int)) + start.subrange(k as int, n as int),
                self.next_id == old(self).next_id,
                start == old(self).rows@,
                old(self).wf(),
            decreases n - k,
        {
            proof {
                assert(start.subrange(0, k + 1).drop_last() =~= start.subrange(0, k as int));
            }
            let row = self.rows.remove(k);
            if row.is_running {
                count = count + 1;
            }
            let Task { id, step, tried, wakeup_at, is_running: _, error, updated_at } = row;
            self.rows.insert(k, Task { id, step, tried, wakeup_at, is_running: false, error, updated_at });
            proof {
                assert(self.rows@ =~= unlocked(start.subrange(0, k + 1)) + start.subrange(k + 1, n as int));
            }
            k = k + 1;
        }
        proof {
            assert(start.subrange(0, n as int) =~= start);
            assert(self.rows@ =~= unlocked(start));
            assert forall|i: int| 0 <= i < self.rows@.len() implies self.rows@[i].id == start[i].id
                && self.rows@[i].tried == start[i].tried by {}
        }
        count
    }

    /// Stores `outcome` on the row with identifier `id` at `now`, and returns
    /// where that row stood; `None`, with nothing changed, when no row has it.
    pub fn record_outcome(&mut self, id: u128, outcome: Outcome, now: Timestamp) -> (r: Option<usize>)
        requires
            old(self).wf(),
            forall|j: int| 0 <= j < old(self)@.len() && (#[trigger] old(self)@[j]).id == id
                ==> can_apply(old(self)@[j], outcome),
        ensures
            final(self).wf(),
            final(self).next_id() == old(self).next_id(),
            r matches Some(i) ==> {
                &&& i < old(self)@.len()
                &&& old(self)@[i as int].id == id
                &&& final(self)@ == stored(old(self)@, i as int, apply_spec(old(self)@[i as int], outcome, now as int))
            },
            r is None ==> final(self)@ == old(self)@ && forall|j: int|
                0 <= j < old(self)@.len() ==> (#[trigger] old(self)@[j]).id != id,
            outcome is Complete ==> forall|j: int|
                0 <= j < final(self)@.len() ==> (#[trigger] final(self)@[j]).id != id,
    {
        let mut k: usize = 0;
        while k < self.rows.len()
            invariant
                k <= self@.len(),
                self.rows@ == old(self).rows@,
                self.next_id == old(self).next_id,
                old(self).wf(),
                forall|j: int| 0 <= j < old(self)@.len() && (#[trigger] old(self)@[j]).id == id
                    ==> can_apply(old(self)@[j], outcome),
                forall|j: int| 0 <= j < k ==> (#[trigger] self@[j]).id != id,
            decreases self@.len() - k,
        {
            if self.rows[k].id == id {
                let row = self.rows.remove(k);
                let ghost old_rows = old(self).rows@;
                match apply_outcome(row, outcome, now) {
                    None => {},
                    Some(t) => {
                        self.rows.insert(k, t);
                    },
                }
                proof {
                    assert(self.rows@ =~= stored(old_rows, k as int, apply_spec(old_rows[k as int], outcome, now as int)));
                    assert forall|a: int, b: int|
                        0 <= a < self.rows@.len() && 0 <= b < self.rows@.len() && a != b
                            implies #[trigger] self.rows@[a].id != #[trigger] self.rows@[b].id by {
                        if outcome is Complete {
                            let a2 = if a < k { a } else { a + 1 };
                            let b2 = if b < k { b } else { b + 1 };
                            assert(self.rows@[a] == old_rows[a2]);
                            assert(self.rows@[b] == old_rows[b2]);
                        } else {
                            assert(self.rows@[a].id == old_rows[a].id);
                            assert(self.rows@[b].id == old_rows[b].id);
                        }
                    }
                    assert forall|a: int| 0 <= a < self.rows@.len() implies
                        (#[trigger] self.rows@[a]).tried >= 0 && self.rows@[a].id < self.next_id by {
                        if outcome is Complete {
                            let a2 = if a < k { a } else { a + 1 };
                            assert(self.rows@[a] == old_rows[a2]);
                        } else {
                            assert(old_rows[a].tried >= 0);
                        }
                    }
                    if outcome is Complete {
                        assert forall|a: int| 0 <= a < self.rows@.len() implies
                            (#[trigger] self.rows@[a]).id != id by {
                            let a2 = if a < k { a } else { a + 1 };
                            assert(self.rows@[a] == old_rows[a2]);
                        }
                    }
                }
                return Some(k);
            }
            k = k + 1;
        }
        None
    }
}

/// A parked task is never selected.
pub proof fn lemma_parked_never_selected(rows: Seq<Task>, i: int)
    requires
        0 <= i < rows.len(),
        rows[i].error is Some,
    ensures
        !is_closest(rows, i),
{
}

/// A leased task is never selected, so once a worker has leased a row no
/// other round of selection hands it out until its outcome is recorded.
pub proof fn lemma_leased_not_selected(rows: Seq<Task>, i: int, now: Timestamp, k: int)
    requires
        0 <= i < rows.len(),
        is_closest(leased(rows, i, now as int), k),
    ensures
        k != i,
{
}

/// Once every lease is cleared no row is leased.
pub proof fn lemma_unlocked_none_running(s: Seq<Task>)
    ensures
        forall|j: int| 0 <= j < s.len() ==> !(#[trigger] unlocked(s)[j]).is_running,
        running_count(unlocked(s)) == 0,
    decreases s.len(),
{
    if s.len() > 0 {
        lemma_unlocked_none_running(s.drop_last());
        assert(unlocked(s).drop_last() =~= unlocked(s.drop_last()));
    }
}

/// Clearing every lease twice has the same effect as clearing them once.
pub proof fn lemma_unlock_idempotent(s: Seq<Task>)
    ensures
        unlocked(unlocked(s)) == unlocked(s),
{
    assert(unlocked(unlocked(s)) =~= unlocked(s));
}

/// Attempt counts in a well-formed table are never negative.
pub proof fn lemma_tried_nonnegative(t: &TaskTable, i: int)
    requires
        t.wf(),
        0 <= i < t@.len(),
    ensures
        t@[i].tried >= 0,
{
}

} // verus!
