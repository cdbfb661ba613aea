use vstd::prelude::*;
use crate::errors::PunchTaskError;
use crate::task::{NewTask, Task, all_wf};

verus! {

/// Some record of that name is in progress.
pub open spec fn has_unfinished(ts: Seq<Task>, name: Seq<char>) -> bool {
    exists|k: int| 0 <= k < ts.len() && (#[trigger] ts[k]).is_unfinished() && ts[k].name@ == name
}

/// The record of that name that is in progress, if there is one.
pub open spec fn unfinished_of(ts: Seq<Task>, name: Seq<char>) -> Option<Task> {
    if has_unfinished(ts, name) {
        Some(
            ts[choose|k: int|
                0 <= k < ts.len() && (#[trigger] ts[k]).is_unfinished() && ts[k].name@ == name],
        )
    } else {
        None
    }
}

/// At most one record per name is in progress.
pub open spec fn unique_unfinished(ts: Seq<Task>) -> bool {
    forall|i: int, j: int|
        0 <= i < ts.len() && 0 <= j < ts.len() && (#[trigger] ts[i]).is_unfinished()
            && (#[trigger] ts[j]).is_unfinished() && ts[i].name@ == ts[j].name@ ==> i == j
}

pub open spec fn unique_ids(ts: Seq<Task>) -> bool {
    forall|i: int, j: int|
        0 <= i < ts.len() && 0 <= j < ts.len() && (#[trigger] ts[i]).id == (#[trigger] ts[j]).id
            ==> i == j
}

pub open spec fn ids_below(ts: Seq<Task>, bound: int) -> bool {
    forall|i: int| 0 <= i < ts.len() ==> (#[trigger] ts[i]).id < bound
}

/// The records that a store may hold.
pub open spec fn valid_records(ts: Seq<Task>) -> bool {
    all_wf(ts) && unique_unfinished(ts) && unique_ids(ts)
}

/// `t` with its finish set to `f`.
pub open spec fn finished_with(t: Task, f: i64) -> Task {
    Task { id: t.id, name: t.name, started_at: t.started_at, finished_at: Some(f) }
}

/// The record with that id that is in progress.
pub open spec fn is_open_record(ts: Seq<Task>, k: int, id: i32) -> bool {
    0 <= k < ts.len() && ts[k].id == id && ts[k].is_unfinished()
}

/// With unique unfinished names, the record that a lookup finds is the one in progress.
pub proof fn lemma_unfinished_of_index(ts: Seq<Task>, k: int)
    requires
        unique_unfinished(ts),
        0 <= k < ts.len(),
        ts[k].is_unfinished(),
    ensures
        unfinished_of(ts, ts[k].name@) == Some(ts[k]),
{
    let name = ts[k].name@;
    assert(has_unfinished(ts, name)) by {
        assert(ts[k].is_unfinished() && ts[k].name@ == name);
    }
    let c = choose|c: int| 0 <= c < ts.len() && (#[trigger] ts[c]).is_unfinished() && ts[c].name@ == name;
    assert(c == k);
}

/// Records `a` and `b` may stand together in a store.
pub open spec fn compatible(a: Task, b: Task) -> bool {
    &&& a.id != b.id
    &&& !(a.is_unfinished() && b.is_unfinished() && a.name@ == b.name@)
}

/// Whether `rows` may form a store.
fn records_valid(rows: &Vec<Task>) -> (r: bool)
    ensures
        r == valid_records(rows@),
{
    let mut i: usize = 0;
    while i < rows.len()
        invariant
            0 <= i <= rows@.len(),
            forall|a: int| 0 <= a < i ==> (#[trigger] rows@[a]).wf(),
            forall|a: int, b: int|
                0 <= a < b < i ==> compatible(#[trigger] rows@[a], #[trigger] rows@[b]),
        decreases rows@.len() - i,
    {
        let t = &rows[i];
        match t.finished_at {
            Some(f) => if f < t.started_at {
                assert(!rows@[i as int].wf());
                return false;
            },
            None => {},
        }
        let mut j: usize = 0;
        while j < i
            invariant
                0 <= j <= i < rows@.len(),
                forall|b: int| 0 <= b < j ==> compatible(#[trigger] rows@[b], rows@[i as int]),
            decreases i - j,
        {
            let u = &rows[j];
            let t = &rows[i];
            if u.id == t.id {
                assert(rows@[j as int].id == rows@[i as int].id);
                return false;
            }
            if u.finished_at.is_none() && t.finished_at.is_none() && u.name == t.name {
                assert(rows@[j as int].is_unfinished() && rows@[i as int].is_unfinished());
                return false;
            }
            j = j + 1;
        }
        proof {
            assert forall|a: int, b: int| 0 <= a < b < i + 1 implies compatible(
                #[trigger] rows@[a],
                #[trigger] rows@[b],
            ) by {
                if b == i {
                    assert(compatible(rows@[a], rows@[i as int]));
                }
            }
        }
        i = i + 1;
    }
    proof {
        let ts = rows@;
        assert forall|a: int, b: int|
            0 <= a < ts.len() && 0 <= b < ts.len() && (#[trigger] ts[a]).is_unfinished()
                && (#[trigger] ts[b]).is_unfinished() && ts[a].name@ == ts[b].name@ implies a
            == b by {
            if a < b {
                assert(compatible(ts[a], ts[b]));
            } else if b < a {
                assert(compatible(ts[b], ts[a]));
            }
        }
        assert forall|a: int, b: int|
            0 <= a < ts.len() && 0 <= b < ts.len() && (#[trigger] ts[a]).id == (
            #[trigger] ts[b]).id implies a == b by {
            if a < b {
                assert(compatible(ts[a], ts[b]));
            } else if b < a {
                assert(compatible(ts[b], ts[a]));
            }
        }
    }
    true
}

/// The local store of task records.
pub struct TaskStore {
    tasks: Vec<Task>,
    next_id: i64,
}

impl View for TaskStore {
    type V = Seq<Task>;

    closed spec fn view(&self) -> Seq<Task> {
        self.tasks@
    }
}

impl TaskStore {
    /// The id that the next inserted record gets.
    pub closed spec fn spec_next_id(&self) -> int {
        self.next_id as int
    }

    pub open spec fn wf(&self) -> bool {
        &&& valid_records(self@)
        &&& ids_below(self@, self.spec_next_id())
        &&& i32::MIN < self.spec_next_id() <= i32::MAX + 1
    }

    /// An empty store.
    pub fn new() -> (r: TaskStore)
        ensures
            r.wf(),
            r@ == Seq::<Task>::empty(),
            r.spec_next_id() == 1,
    {
        TaskStore { tasks: Vec::new(), next_id: 1 }
    }

    /// A store of persisted records; they must end no earlier than they
    /// start, have distinct ids, and hold at most one task in progress per
    /// name, else the result is `InternalError`.
    pub fn from_tasks(rows: Vec<Task>) -> (r: Result<TaskStore, PunchTaskError>)
        ensures
            valid_records(rows@) ==> (r matches Ok(s) && s.wf() && s@ == rows@),
            !valid_records(rows@) ==> r == Err::<TaskStore, PunchTaskError>(
                PunchTaskError::InternalError,
            ),
    {
        if !records_valid(&rows) {
            return Err(PunchTaskError::InternalError);
        }
        let mut next_id: i64 = 1;
        let mut i: usize = 0;
        while i < rows.len()
            invariant
                0 <= i <= rows@.len(),
                1 <= next_id <= i32::MAX + 1,
                forall|a: int| 0 <= a < i ==> (#[trigger] rows@[a]).id < next_id,
            decreases rows@.len() - i,
        {
            if rows[i].id as i64 >= next_id {
                next_id = rows[i].id as i64 + 1;
            }
            i = i + 1;
        }
        Ok(TaskStore { tasks: rows, next_id })
    }

    /// The records, in order of insertion.
    pub fn tasks(&self) -> (r: &Vec<Task>)
        ensures
            r@ == self@,
    {
        &self.tasks
    }

    /// The record of that name that is in progress.
    pub fn find_unfinished(&self, name: &String) -> (r: Option<Task>)
        requires
            self.wf(),
        ensures
            r == unfinished_of(self@, name@),
    {
        let mut i: usize = 0;
        while i < self.tasks.len()
            invariant
                self.wf(),
                0 <= i <= self@.len(),
                forall|k: int|
                    0 <= k < i ==> !((#[trigger] self@[k]).is_unfinished() && self@[k].name@
                        == name@),
            decreases self@.len() - i,
        {
            let t = &self.tasks[i];
            if t.finished_at.is_none() && t.name == *name {
                proof {
                    lemma_unfinished_of_index(self@, i as int);
                }
                return Some(t.copied());
            }
            i = i + 1;
        }
        None
    }

    /// Adds a record in progress, unless one of that name is in progress
    /// already or the ids are used up.
    pub fn insert(&mut self, new_task: NewTask) -> (r: Result<Task, PunchTaskError>)
        requires
            old(self).wf(),
        ensures
            final(self).wf(),
            final(self).spec_next_id() == if r is Ok {
                old(self).spec_next_id() + 1
            } else {
                old(self).spec_next_id()
            },
            has_unfinished(old(self)@, new_task.name@) ==> r == Err::<Task, PunchTaskError>(
                PunchTaskError::TaskAlreadyInProgress,
            ) && final(self)@ == old(self)@,
            !has_unfinished(old(self)@, new_task.name@) && old(self).spec_next_id() > i32::MAX
                ==> r == Err::<Task, PunchTaskError>(PunchTaskError::InternalError) && final(self)@ == old(self)@,
            !has_unfinished(old(self)@, new_task.name@) && old(self).spec_next_id() <= i32::MAX
                ==> (r matches Ok(t) && t.id == old(self).spec_next_id() && t.name@
                == new_task.name@ && t.started_at == new_task.started_at && t.finished_at is None
                && final(self)@ == old(self)@.push(t)),
    {
        match self.find_unfinished(&new_task.name) {
            Some(_) => {
                return Err(PunchTaskError::TaskAlreadyInProgress);
            },
            None => {},
        }
        if self.next_id > i32::MAX as i64 {
            return Err(PunchTaskError::InternalError);
        }
        let t = Task {
            id: self.next_id as i32,
            name: new_task.name,
            started_at: new_task.started_at,
            finished_at: None,
        };
        let r = t.copied();
        let ghost before = self@;
        self.tasks.push(t);
        self.next_id = self.next_id + 1;
        proof {
            let ts = self@;
            assert(ts == before.push(r));
            assert forall|i: int, j: int|
                0 <= i < ts.len() && 0 <= j < ts.len() && (#[trigger] ts[i]).is_unfinished()
                    && (#[trigger] ts[j]).is_unfinished() && ts[i].name@ == ts[j].name@ implies i
                == j by {
                if i < before.len() && j == before.len() {
                    assert(before[i].is_unfinished() && before[i].name@ == new_task.name@);
                }
                if j < before.len() && i == before.len() {
                    assert(before[j].is_unfinished() && before[j].name@ == new_task.name@);
                }
            }
            assert forall|i: int| 0 <= i < ts.len() implies (#[trigger] ts[i]).wf() by {
                if i < before.len() {
                    assert(ts[i] == before[i]);
                }
            }
            assert forall|i: int, j: int|
                0 <= i < ts.len() && 0 <= j < ts.len() && (#[trigger] ts[i]).id == (
                #[trigger] ts[j]).id implies i == j by {
                if i < before.len() {
                    assert(ts[i] == before[i]);
                }
                if j < before.len() {
                    assert(ts[j] == before[j]);
                }
            }
        }
        Ok(r)
    }

    fn index_of_open(&self, id: i32) -> (r: Option<usize>)
        requires
            self.wf(),
        ensures
            r matches Some(k) ==> is_open_record(self@, k as int, id),
            r is None ==> forall|k: int| !is_open_record(self@, k, id),
    {
        let mut i: usize = 0;
        while i < self.tasks.len()
            invariant
                0 <= i <= self@.len(),
                forall|k: int| 0 <= k < i ==> !is_open_record(self@, k, id),
            decreases self@.len() - i,
        {
            if self.tasks[i].id == id && self.tasks[i].finished_at.is_none() {
                return Some(i);
            }
            i = i + 1;
        }
        None
    }

    /// Finishes the record with that id, which must be in progress; a finish
    /// before the record's start is refused.
    pub fn update_finish(&mut self, id: i32, finished_at: i64) -> (r: Result<Task, PunchTaskError>)
        requires
            old(self).wf(),
        ensures
            final(self).wf(),
            final(self).spec_next_id() == old(self).spec_next_id(),
            forall|k: int|
                is_open_record(old(self)@, k, id) ==> if old(self)@[k].started_at <= finished_at {
                    r == Ok::<Task, PunchTaskError>(finished_with(old(self)@[k], finished_at))
                        && final(self)@ == old(self)@.update(
                        k,
                        finished_with(old(self)@[k], finished_at),
                    )
                } else {
                    r == Err::<Task, PunchTaskError>(PunchTaskError::InternalError) && final(self)@ == old(self)@
                },
            (forall|k: int| !is_open_record(old(self)@, k, id)) ==> r == Err::<
                Task,
                PunchTaskError,
            >(PunchTaskError::InProgressTaskNotFound) && final(self)@ == old(self)@,
    {
        let k = match self.index_of_open(id) {
            Some(k) => k,
            None => {
                return Err(PunchTaskError::InProgressTaskNotFound);
            },
        };
        proof {
            assert forall|j: int| is_open_record(self@, j, id) implies j == k as int by {
                assert(self@[j].id == self@[k as int].id);
            }
        }
        if self.tasks[k].started_at > finished_at {
            return Err(PunchTaskError::InternalError);
        }
        let mut t = self.tasks[k].copied();
        t.finished_at = Some(finished_at);
        let r = t.copied();
        let ghost before = self@;
        self.tasks.set(k, t);
        proof {
            let ts = self@;
            assert(ts == before.update(k as int, r));
            assert forall|i: int, j: int|
                0 <= i < ts.len() && 0 <= j < ts.len() && (#[trigger] ts[i]).is_unfinished()
                    && (#[trigger] ts[j]).is_unfinished() && ts[i].name@ == ts[j].name@ implies i
                == j by {
                assert(ts[i] == before[i]);
                assert(ts[j] == before[j]);
            }
            assert forall|i: int| 0 <= i < ts.len() implies (#[trigger] ts[i]).wf() by {
                if i != k {
                    assert(ts[i] == before[i]);
                }
            }
            assert forall|i: int, j: int|
                0 <= i < ts.len() && 0 <= j < ts.len() && (#[trigger] ts[i]).id == (
                #[trigger] ts[j]).id implies i == j by {
                assert(ts[i].id == before[i].id);
                assert(ts[j].id == before[j].id);
            }
            assert forall|i: int| 0 <= i < ts.len() implies (#[trigger] ts[i]).id
                < self.spec_next_id() by {
                assert(ts[i].id == before[i].id);
            }
        }
        Ok(r)
    }

    /// Removes the record with that id, which must be in progress.
    pub fn delete(&mut self, id: i32) -> (r: Result<(), PunchTaskError>)
        requires
            old(self).wf(),
        ensures
            final(self).wf(),
            final(self).spec_next_id() == old(self).spec_next_id(),
            forall|k: int|
                is_open_record(old(self)@, k, id) ==> r is Ok && final(self)@ == old(self)@.remove(
                    k,
                ),
            (forall|k: int| !is_open_record(old(self)@, k, id)) ==> r == Err::<
                (),
                PunchTaskError,
            >(PunchTaskError::InProgressTaskNotFound) && final(self)@ == old(self)@,
    {
        let k = match self.index_of_open(id) {
            Some(k) => k,
            None => {
                return Err(PunchTaskError::InProgressTaskNotFound);
            },
        };
        proof {
            assert forall|j: int| is_open_record(self@, j, id) implies j == k as int by {
                assert(self@[j].id == self@[k as int].id);
            }
        }
        let ghost before = self@;
        self.tasks.remove(k);
        proof {
            let ts = self@;
            assert(ts == before.remove(k as int));
            assert forall|i: int| 0 <= i < ts.len() implies ts[i] == before[if i < k {
                i
            } else {
                i + 1
            }] by {}
            assert forall|i: int, j: int|
                0 <= i < ts.len() && 0 <= j < ts.len() && (#[trigger] ts[i]).is_unfinished()
                    && (#[trigger] ts[j]).is_unfinished() && ts[i].name@ == ts[j].name@ implies i
                == j by {
                let bi = if i < k { i } else { i + 1 };
                let bj = if j < k { j } else { j + 1 };
                assert(before[bi] == ts[i]);
                assert(before[bj] == ts[j]);
            }
            assert forall|i: int| 0 <= i < ts.len() implies (#[trigger] ts[i]).wf() by {
                let bi = if i < k { i } else { i + 1 };
                assert(before[bi] == ts[i]);
            }
            assert forall|i: int, j: int|
                0 <= i < ts.len() && 0 <= j < ts.len() && (#[trigger] ts[i]).id == (
                #[trigger] ts[j]).id implies i == j by {
                let bi = if i < k { i } else { i + 1 };
                let bj = if j < k { j } else { j + 1 };
                assert(before[bi] == ts[i]);
                assert(before[bj] == ts[j]);
            }
            assert forall|i: int| 0 <= i < ts.len() implies (#[trigger] ts[i]).id
                < self.spec_next_id() by {
                let bi = if i < k { i } else { i + 1 };
                assert(before[bi] == ts[i]);
            }
        }
        Ok(())
    }
}

} // verus!
