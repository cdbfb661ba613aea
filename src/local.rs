use vstd::prelude::*;
use crate::errors::PunchTaskError;
use crate::listing::{TaskListItem, aggregate_by_name, listing_post};
use crate::store::{TaskStore, finished_with, has_unfinished, lemma_unfinished_of_index, unfinished_of};
use crate::task::{NewTask, Task};
use crate::window::{TaskStat, report_post, task_report};

verus! {

/// The position of the record of that name that is in progress.
pub open spec fn unfinished_index(ts: Seq<Task>, name: Seq<char>) -> int {
    choose|k: int| 0 <= k < ts.len() && (#[trigger] ts[k]).is_unfinished() && ts[k].name@ == name
}

/// Punching in on `name` at `now` turns `old` into `new` with result `r`.
pub open spec fn punch_in_post(
    old: Seq<Task>,
    next_id: int,
    name: Seq<char>,
    now: i64,
    new: Seq<Task>,
    r: Result<i64, PunchTaskError>,
) -> bool {
    if has_unfinished(old, name) {
        r == Err::<i64, PunchTaskError>(PunchTaskError::TaskAlreadyInProgress) && new == old
    } else if next_id > i32::MAX {
        r == Err::<i64, PunchTaskError>(PunchTaskError::InternalError) && new == old
    } else {
        &&& r == Ok::<i64, PunchTaskError>(now)
        &&& new.len() == old.len() + 1
        &&& new.drop_last() == old
        &&& new.last().id == next_id
        &&& new.last().name@ == name
        &&& new.last().started_at == now
        &&& new.last().finished_at is None
    }
}

/// Punching out of `name` at `now` turns `old` into `new` with result `r`.
pub open spec fn punch_out_post(
    old: Seq<Task>,
    name: Seq<char>,
    now: i64,
    new: Seq<Task>,
    r: Result<Task, PunchTaskError>,
) -> bool {
    if !has_unfinished(old, name) {
        r == Err::<Task, PunchTaskError>(PunchTaskError::InProgressTaskNotFound) && new == old
    } else {
        let k = unfinished_index(old, name);
        if old[k].started_at <= now {
            r == Ok::<Task, PunchTaskError>(finished_with(old[k], now)) && new == old.update(
                k,
                finished_with(old[k], now),
            )
        } else {
            r == Err::<Task, PunchTaskError>(PunchTaskError::InternalError) && new == old
        }
    }
}

/// Cancelling `name` turns `old` into `new` with result `r`.
pub open spec fn cancel_post(
    old: Seq<Task>,
    name: Seq<char>,
    new: Seq<Task>,
    r: Result<(), PunchTaskError>,
) -> bool {
    if !has_unfinished(old, name) {
        r == Err::<(), PunchTaskError>(PunchTaskError::InProgressTaskNotFound) && new == old
    } else {
        r is Ok && new == old.remove(unfinished_index(old, name))
    }
}

impl TaskStore {
    /// Starts a task named `name` at `now`.
    pub fn punch_in(&mut self, name: String, now: i64) -> (r: Result<i64, PunchTaskError>)
        requires
            old(self).wf(),
        ensures
            final(self).wf(),
            punch_in_post(old(self)@, old(self).spec_next_id(), name@, now, final(self)@, r),
            final(self).spec_next_id() == if r is Ok {
                old(self).spec_next_id() + 1
            } else {
                old(self).spec_next_id()
            },
    {
        let ghost name_view = name@;
        match self.insert(NewTask { name, started_at: now }) {
            Ok(t) => {
                proof {
                    assert(final(self)@.drop_last() =~= old(self)@);
                }
                Ok(t.started_at)
            },
            Err(e) => Err(e),
        }
    }

    /// Finishes the task named `name` that is in progress, at `now`.
    pub fn punch_out(&mut self, name: &String, now: i64) -> (r: Result<Task, PunchTaskError>)
        requires
            old(self).wf(),
        ensures
            final(self).wf(),
            final(self).spec_next_id() == old(self).spec_next_id(),
            punch_out_post(old(self)@, name@, now, final(self)@, r),
    {
        match self.find_unfinished(name) {
            None => Err(PunchTaskError::InProgressTaskNotFound),
            Some(t) => {
                proof {
                    let k = unfinished_index(self@, name@);
                    lemma_unfinished_of_index(self@, k);
                    assert(crate::store::is_open_record(self@, k, t.id));
                }
                self.update_finish(t.id, now)
            },
        }
    }

    /// Removes the task named `name` that is in progress.
    pub fn cancel(&mut self, name: &String) -> (r: Result<(), PunchTaskError>)
        requires
            old(self).wf(),
        ensures
            final(self).wf(),
            final(self).spec_next_id() == old(self).spec_next_id(),
            cancel_post(old(self)@, name@, final(self)@, r),
    {
        match self.find_unfinished(name) {
            None => Err(PunchTaskError::InProgressTaskNotFound),
            Some(t) => {
                proof {
                    let k = unfinished_index(self@, name@);
                    lemma_unfinished_of_index(self@, k);
                    assert(crate::store::is_open_record(self@, k, t.id));
                }
                let ghost before = self@;
                let r = self.delete(t.id);
                proof {
                    let k = unfinished_index(before, name@);
                    assert(crate::store::is_open_record(before, k, t.id));
                    assert(self@ == before.remove(k));
                }
                r
            },
        }
    }

    /// The time spent on `name` within `[since, until]`.
    pub fn get(&self, name: &String, since: i64, until: i64) -> (r: Result<TaskStat, PunchTaskError>)
        requires
            self.wf(),
        ensures
            report_post(self@, name@, since as int, until as int, until as int, r),
    {
        task_report(self.tasks(), name, since, until)
    }

    /// One row per distinct name.
    pub fn list(&self) -> (r: Result<Vec<TaskListItem>, PunchTaskError>)
        requires
            self.wf(),
        ensures
            listing_post(self@, r),
    {
        aggregate_by_name(self.tasks())
    }
}

} // verus!
