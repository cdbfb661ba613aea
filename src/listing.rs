use vstd::prelude::*;
use crate::errors::PunchTaskError;
use crate::task::{Task, all_wf};
use crate::window::fits_i64;

verus! {

/// One row per distinct task name, aggregated over all its records.
pub struct TaskListItem {
    pub name: String,
    pub duration: i64,
    pub started_at: i64,
    pub finished_at: Option<i64>,
}

pub open spec fn opt_max(a: Option<i64>, x: i64) -> Option<i64> {
    match a {
        Some(y) => Some(if y >= x { y } else { x }),
        None => Some(x),
    }
}

/// The latest start among the records of the name.
pub open spec fn latest_start(ts: Seq<Task>, name: Seq<char>) -> Option<i64>
    decreases ts.len(),
{
    if ts.len() == 0 {
        None
    } else if ts.last().name@ == name {
        opt_max(latest_start(ts.drop_last(), name), ts.last().started_at)
    } else {
        latest_start(ts.drop_last(), name)
    }
}

/// The latest finish among the finished records of the name.
pub open spec fn latest_finish(ts: Seq<Task>, name: Seq<char>) -> Option<i64>
    decreases ts.len(),
{
    if ts.len() == 0 {
        None
    } else if ts.last().name@ == name && ts.last().finished_at is Some {
        opt_max(latest_finish(ts.drop_last(), name), ts.last().finished_at->0)
    } else {
        latest_finish(ts.drop_last(), name)
    }
}

/// The sum of `finished_at - started_at` over the finished records of the name.
pub open spec fn finished_total(ts: Seq<Task>, name: Seq<char>) -> int
    decreases ts.len(),
{
    if ts.len() == 0 {
        0
    } else if ts.last().name@ == name && ts.last().finished_at is Some {
        finished_total(ts.drop_last(), name) + (ts.last().finished_at->0 - ts.last().started_at)
    } else {
        finished_total(ts.drop_last(), name)
    }
}

pub open spec fn all_finished(ts: Seq<Task>, name: Seq<char>) -> bool {
    forall|i: int| 0 <= i < ts.len() && (#[trigger] ts[i]).name@ == name ==> ts[i].finished_at is Some
}

pub open spec fn has_name(ts: Seq<Task>, name: Seq<char>) -> bool {
    exists|i: int| 0 <= i < ts.len() && (#[trigger] ts[i]).name@ == name
}

/// Some string of `names` holds `name`.
pub open spec fn name_listed(names: Seq<String>, name: Seq<char>) -> bool {
    exists|k: int| 0 <= k < names.len() && (#[trigger] names[k])@ == name
}

/// Some row of `items` is for `name`.
pub open spec fn item_listed(items: Seq<TaskListItem>, name: Seq<char>) -> bool {
    exists|k: int| 0 <= k < items.len() && (#[trigger] items[k]).name@ == name
}

/// The row that `list` reports for the name: the latest start, the latest
/// finish only when every record is finished, and the finished time.
pub open spec fn is_list_item_of(ts: Seq<Task>, item: TaskListItem) -> bool {
    &&& latest_start(ts, item.name@) == Some(item.started_at)
    &&& item.finished_at == if all_finished(ts, item.name@) {
        latest_finish(ts, item.name@)
    } else {
        None
    }
    &&& item.duration == finished_total(ts, item.name@)
}

/// Every name's finished time fits in an `i64`.
pub open spec fn totals_fit(ts: Seq<Task>) -> bool {
    forall|i: int| 0 <= i < ts.len() ==> fits_i64(finished_total(ts, (#[trigger] ts[i]).name@))
}

/// `items` holds one row per distinct name of `ts`, each as `list` reports it.
pub open spec fn is_listing_of(ts: Seq<Task>, items: Seq<TaskListItem>) -> bool {
    &&& forall|k: int| 0 <= k < items.len() ==> is_list_item_of(ts, #[trigger] items[k])
    &&& forall|k: int| 0 <= k < items.len() ==> has_name(ts, (#[trigger] items[k]).name@)
    &&& forall|i: int| 0 <= i < ts.len() ==> item_listed(items, (#[trigger] ts[i]).name@)
    &&& forall|k1: int, k2: int|
        0 <= k1 < items.len() && 0 <= k2 < items.len() && (#[trigger] items[k1]).name@ == (
        #[trigger] items[k2]).name@ ==> k1 == k2
}

/// What `list` returns: every row, or `InternalError` when some name's
/// finished time leaves the `i64` range.
pub open spec fn listing_post(ts: Seq<Task>, r: Result<Vec<TaskListItem>, PunchTaskError>) -> bool {
    if totals_fit(ts) {
        r matches Ok(items) && is_listing_of(ts, items@)
    } else {
        r == Err::<Vec<TaskListItem>, PunchTaskError>(PunchTaskError::InternalError)
    }
}

proof fn lemma_latest_start_some(ts: Seq<Task>, name: Seq<char>, i: int)
    requires
        0 <= i < ts.len(),
        ts[i].name@ == name,
    ensures
        latest_start(ts, name) is Some,
    decreases ts.len(),
{
    if i < ts.len() - 1 {
        assert(ts.drop_last()[i] == ts[i]);
        lemma_latest_start_some(ts.drop_last(), name, i);
    }
}

proof fn lemma_finished_total_monotone(ts: Seq<Task>, name: Seq<char>, i: int)
    requires
        all_wf(ts),
        0 <= i <= ts.len(),
    ensures
        0 <= finished_total(ts.take(i), name) <= finished_total(ts, name),
    decreases ts.len(),
{
    if i < ts.len() {
        assert(ts.drop_last().take(i) =~= ts.take(i));
        assert(all_wf(ts.drop_last())) by {
            assert forall|j: int| 0 <= j < ts.drop_last().len() implies (
            #[trigger] ts.drop_last()[j]).wf() by {
                assert(ts.drop_last()[j] == ts[j]);
            }
        }
        assert(ts.last() == ts[ts.len() - 1]);
        lemma_finished_total_monotone(ts.drop_last(), name, i);
    } else {
        assert(ts.take(i) =~= ts);
        if ts.len() > 0 {
            assert(all_wf(ts.drop_last())) by {
                assert forall|j: int| 0 <= j < ts.drop_last().len() implies (
                #[trigger] ts.drop_last()[j]).wf() by {
                    assert(ts.drop_last()[j] == ts[j]);
                }
            }
            assert(ts.last() == ts[ts.len() - 1]);
            lemma_finished_total_monotone(ts.drop_last(), name, ts.len() - 1);
            assert(ts.drop_last().take(ts.len() - 1) =~= ts.drop_last());
        }
    }
}

/// The distinct names of `tasks`, in order of first appearance.
fn distinct_names(tasks: &Vec<Task>) -> (r: Vec<String>)
    ensures
        forall|k: int| 0 <= k < r@.len() ==> has_name(tasks@, (#[trigger] r@[k])@),
        forall|i: int| 0 <= i < tasks@.len() ==> name_listed(r@, (#[trigger] tasks@[i]).name@),
        forall|k1: int, k2: int|
            0 <= k1 < r@.len() && 0 <= k2 < r@.len() && (#[trigger] r@[k1])@ == (
            #[trigger] r@[k2])@ ==> k1 == k2,
{
    let mut names: Vec<String> = Vec::new();
    let mut i: usize = 0;
    while i < tasks.len()
        invariant
            0 <= i <= tasks@.len(),
            forall|k: int| 0 <= k < names@.len() ==> has_name(tasks@, (#[trigger] names@[k])@),
            forall|j: int| 0 <= j < i ==> name_listed(names@, (#[trigger] tasks@[j]).name@),
            forall|k1: int, k2: int|
                0 <= k1 < names@.len() && 0 <= k2 < names@.len() && (#[trigger] names@[k1])@ == (
                #[trigger] names@[k2])@ ==> k1 == k2,
        decreases tasks@.len() - i,
    {
        let mut seen = false;
        let mut k: usize = 0;
        while k < names.len()
            invariant
                0 <= k <= names@.len(),
                0 <= i < tasks@.len(),
                seen ==> exists|m: int| 0 <= m < names@.len() && (#[trigger] names@[m])@ == tasks@[i as int].name@,
                !seen ==> forall|m: int| 0 <= m < k ==> (#[trigger] names@[m])@ != tasks@[i as int].name@,
            decreases names@.len() - k,
        {
            if names[k] == tasks[i].name {
                seen = true;
            }
            k = k + 1;
        }
        if !seen {
            let ghost before = names@;
            names.push(tasks[i].name.clone());
            proof {
                assert(names@[before.len() as int]@ == tasks@[i as int].name@);
                assert forall|k: int| 0 <= k < names@.len() implies has_name(tasks@, (#[trigger] names@[k])@) by {
                    if k < before.len() {
                        assert(names@[k] == before[k]);
                    } else {
                        assert(tasks@[i as int].name@ == names@[k]@);
                    }
                }
                assert forall|j: int| 0 <= j <= i implies name_listed(names@, (#[trigger] tasks@[j]).name@) by {
                    if j < i {
                        let k = choose|k: int| 0 <= k < before.len() && (#[trigger] before[k])@ == tasks@[j].name@;
                        assert(names@[k] == before[k]);
                    } else {
                        assert(names@[before.len() as int]@ == tasks@[j].name@);
                    }
                }
                assert forall|k1: int, k2: int|
                    0 <= k1 < names@.len() && 0 <= k2 < names@.len() && (#[trigger] names@[k1])@ == (
                    #[trigger] names@[k2])@ implies k1 == k2 by {
                    if k1 < before.len() {
                        assert(names@[k1] == before[k1]);
                    }
                    if k2 < before.len() {
                        assert(names@[k2] == before[k2]);
                    }
                }
            }
        } else {
            proof {
                assert forall|j: int| 0 <= j <= i implies name_listed(names@, (#[trigger] tasks@[j]).name@) by {
                    if j == i {
                        let m = choose|m: int| 0 <= m < names@.len() && (#[trigger] names@[m])@ == tasks@[i as int].name@;
                        assert(names@[m]@ == tasks@[j].name@);
                    }
                }
            }
        }
        i = i + 1;
    }
    names
}

/// The row for one name that occurs in `tasks`, or `None` when its finished
/// time does not fit in an `i64`.
fn aggregate_name(tasks: &Vec<Task>, name: &String) -> (r: Option<TaskListItem>)
    requires
        all_wf(tasks@),
        has_name(tasks@, name@),
    ensures
        fits_i64(finished_total(tasks@, name@)) ==> (r matches Some(item) && item.name@ == name@
            && is_list_item_of(tasks@, item)),
        !fits_i64(finished_total(tasks@, name@)) ==> r is None,
{
    let mut start: Option<i64> = None;
    let mut finish: Option<i64> = None;
    let mut all_done = true;
    let mut total: i128 = 0;
    let mut i: usize = 0;
    while i < tasks.len()
        invariant
            all_wf(tasks@),
            0 <= i <= tasks@.len(),
            start == latest_start(tasks@.take(i as int), name@),
            finish == latest_finish(tasks@.take(i as int), name@),
            all_done == all_finished(tasks@.take(i as int), name@),
            total == finished_total(tasks@.take(i as int), name@),
            0 <= total <= i64::MAX,
        decreases tasks@.len() - i,
    {
        let t = &tasks[i];
        let ghost prefix = tasks@.take(i as int);
        let ghost next_prefix = tasks@.take(i as int + 1);
        proof {
            assert(next_prefix.drop_last() =~= prefix);
            assert(next_prefix.last() == tasks@[i as int]);
            assert(tasks@[i as int].wf());
        }
        if t.name == *name {
            start = match start {
                Some(s) => Some(if s >= t.started_at { s } else { t.started_at }),
                None => Some(t.started_at),
            };
            match t.finished_at {
                Some(f) => {
                    finish = match finish {
                        Some(g) => Some(if g >= f { g } else { f }),
                        None => Some(f),
                    };
                    let next = total + (f as i128 - t.started_at as i128);
                    if next > i64::MAX as i128 {
                        proof {
                            lemma_finished_total_monotone(tasks@, name@, i as int + 1);
                        }
                        return None;
                    }
                    total = next;
                },
                None => {
                    all_done = false;
                },
            }
        }
        proof {
            if all_finished(prefix, name@) && !all_done {
                assert(!(tasks@[i as int].finished_at is Some));
                assert(next_prefix[i as int] == tasks@[i as int]);
            }
            if all_done {
                assert forall|j: int|
                    0 <= j < next_prefix.len() && (#[trigger] next_prefix[j]).name@
                        == name@ implies next_prefix[j].finished_at is Some by {
                    if j < i {
                        assert(prefix[j] == next_prefix[j]);
                    }
                }
            }
            if !all_finished(prefix, name@) {
                let j = choose|j: int|
                    0 <= j < prefix.len() && (#[trigger] prefix[j]).name@ == name@
                        && !(prefix[j].finished_at is Some);
                assert(next_prefix[j] == prefix[j]);
            }
        }
        i = i + 1;
    }
    proof {
        assert(tasks@.take(i as int) =~= tasks@);
        let j = choose|j: int| 0 <= j < tasks@.len() && (#[trigger] tasks@[j]).name@ == name@;
        lemma_latest_start_some(tasks@, name@, j);
    }
    let started_at = match start {
        Some(s) => s,
        None => {
            return None;
        },
    };
    Some(
        TaskListItem {
            name: name.clone(),
            duration: total as i64,
            started_at,
            finished_at: if all_done { finish } else { None },
        },
    )
}

/// Groups the records by name, as `list` reports them.
///
/// Fails with `InternalError` when some name's finished time does not fit in
/// an `i64`.
pub fn aggregate_by_name(tasks: &Vec<Task>) -> (r: Result<Vec<TaskListItem>, PunchTaskError>)
    requires
        all_wf(tasks@),
    ensures
        listing_post(tasks@, r),
{
    let names = distinct_names(tasks);
    let mut items: Vec<TaskListItem> = Vec::new();
    let mut k: usize = 0;
    while k < names.len()
        invariant
            all_wf(tasks@),
            0 <= k <= names@.len(),
            items@.len() == k,
            forall|m: int| 0 <= m < names@.len() ==> has_name(tasks@, (#[trigger] names@[m])@),
            forall|i: int| 0 <= i < tasks@.len() ==> name_listed(names@, (#[trigger] tasks@[i]).name@),
            forall|k1: int, k2: int|
                0 <= k1 < names@.len() && 0 <= k2 < names@.len() && (#[trigger] names@[k1])@ == (
                #[trigger] names@[k2])@ ==> k1 == k2,
            forall|m: int| 0 <= m < k ==> (#[trigger] items@[m]).name@ == names@[m]@,
            forall|m: int| 0 <= m < k ==> is_list_item_of(tasks@, #[trigger] items@[m]),
            forall|m: int| 0 <= m < k ==> fits_i64(finished_total(tasks@, (#[trigger] names@[m])@)),
        decreases names@.len() - k,
    {
        match aggregate_name(tasks, &names[k]) {
            Some(item) => {
                items.push(item);
            },
            None => {
                proof {
                    let i = choose|i: int| 0 <= i < tasks@.len() && (#[trigger] tasks@[i]).name@ == names@[k as int]@;
                    assert(!fits_i64(finished_total(tasks@, tasks@[i].name@)));
                }
                return Err(PunchTaskError::InternalError);
            },
        }
        k = k + 1;
    }
    proof {
        assert forall|i: int| 0 <= i < tasks@.len() implies fits_i64(finished_total(tasks@, (#[trigger] tasks@[i]).name@)) by {
            let m = choose|m: int| 0 <= m < names@.len() && (#[trigger] names@[m])@ == tasks@[i].name@;
        }
        assert forall|i: int| 0 <= i < tasks@.len() implies item_listed(items@, (#[trigger] tasks@[i]).name@) by {
            let m = choose|m: int| 0 <= m < names@.len() && (#[trigger] names@[m])@ == tasks@[i].name@;
            assert(items@[m].name@ == names@[m]@);
        }
        assert forall|k1: int, k2: int|
            0 <= k1 < items@.len() && 0 <= k2 < items@.len() && (#[trigger] items@[k1]).name@ == (
            #[trigger] items@[k2]).name@ implies k1 == k2 by {
            assert(names@[k1]@ == items@[k1].name@);
            assert(names@[k2]@ == items@[k2].name@);
        }
        assert forall|m: int| 0 <= m < items@.len() implies has_name(tasks@, (#[trigger] items@[m]).name@) by {
            assert(names@[m]@ == items@[m].name@);
        }
    }
    Ok(items)
}

} // verus!
