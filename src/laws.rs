use vstd::prelude::*;
use crate::errors::PunchTaskError;
use crate::listing::{TaskListItem, finished_total, is_listing_of};
use crate::local::{cancel_post, punch_in_post, punch_out_post, unfinished_index};
use crate::store::{
    finished_with,
    has_unfinished,
    lemma_unfinished_of_index,
    unfinished_of,
    unique_unfinished,
    valid_records,
};
use crate::server::{TaskModel, has_open_row, is_open_row};
use crate::task::{Task, all_wf};
use crate::window::{
    TaskStat,
    any_selected,
    any_selected_unfinished,
    clipped,
    fits_i64,
    report_post,
    selected,
    spec_max,
    status_text,
    window_total,
};

verus! {

/// Punching in on a name and then punching in on it again fails the second
/// time with `TaskAlreadyInProgress`, leaving the records as the first call
/// left them (unless the first call found the ids used up).
pub proof fn punch_in_twice_fails(
    old: Seq<Task>,
    next_id: int,
    name: Seq<char>,
    now1: i64,
    mid: Seq<Task>,
    r1: Result<i64, PunchTaskError>,
    next_id2: int,
    now2: i64,
    new: Seq<Task>,
    r2: Result<i64, PunchTaskError>,
)
    requires
        next_id <= i32::MAX,
        punch_in_post(old, next_id, name, now1, mid, r1),
        punch_in_post(mid, next_id2, name, now2, new, r2),
    ensures
        r2 == Err::<i64, PunchTaskError>(PunchTaskError::TaskAlreadyInProgress),
        new == mid,
{
    if !has_unfinished(old, name) {
        let k = mid.len() - 1;
        assert(mid[k] == mid.last());
        assert(mid[k].is_unfinished() && mid[k].name@ == name);
    }
}

/// Punching out of a name with no task in progress fails with
/// `InProgressTaskNotFound` and changes nothing.
pub proof fn punch_out_without_task_fails(
    old: Seq<Task>,
    name: Seq<char>,
    now: i64,
    new: Seq<Task>,
    r: Result<Task, PunchTaskError>,
)
    requires
        !has_unfinished(old, name),
        punch_out_post(old, name, now, new, r),
    ensures
        r == Err::<Task, PunchTaskError>(PunchTaskError::InProgressTaskNotFound),
        new == old,
{
}

/// After a cancel, punching in on the same name succeeds (unless the ids are
/// used up).
pub proof fn cancel_then_punch_in_succeeds(
    old: Seq<Task>,
    name: Seq<char>,
    mid: Seq<Task>,
    r1: Result<(), PunchTaskError>,
    next_id: int,
    now: i64,
    new: Seq<Task>,
    r2: Result<i64, PunchTaskError>,
)
    requires
        valid_records(old),
        next_id <= i32::MAX,
        cancel_post(old, name, mid, r1),
        punch_in_post(mid, next_id, name, now, new, r2),
    ensures
        r2 == Ok::<i64, PunchTaskError>(now),
{
    if has_unfinished(old, name) {
        let k = unfinished_index(old, name);
        assert(mid == old.remove(k));
        if has_unfinished(mid, name) {
            let j = choose|j: int| 0 <= j < mid.len() && (#[trigger] mid[j]).is_unfinished() && mid[j].name@ == name;
            let oj = if j < k { j } else { j + 1 };
            assert(old[oj] == mid[j]);
            assert(oj != k);
        }
    }
}

/// When the record at `k` is the only one of its name, the window total is
/// its clipped duration if it overlaps the window, and nothing else.
proof fn lemma_single_record_total(ts: Seq<Task>, k: int, since: int, until: int, open_end: int)
    requires
        0 <= k < ts.len(),
        forall|i: int| 0 <= i < ts.len() && i != k ==> (#[trigger] ts[i]).name@ != ts[k].name@,
    ensures
        window_total(ts, ts[k].name@, since, until, open_end) == if selected(
            ts[k],
            ts[k].name@,
            since,
            until,
        ) {
            clipped(ts[k], since, until, open_end)
        } else {
            0
        },
    decreases ts.len(),
{
    let name = ts[k].name@;
    if k < ts.len() - 1 {
        let d = ts.drop_last();
        assert(d[k] == ts[k]);
        assert forall|i: int| 0 <= i < d.len() && i != k implies (#[trigger] d[i]).name@ != d[k].name@ by {
            assert(d[i] == ts[i]);
        }
        lemma_single_record_total(d, k, since, until, open_end);
        assert(ts.last() == ts[ts.len() - 1]);
    } else {
        lemma_no_record_total(ts.drop_last(), name, since, until, open_end);
    }
}

proof fn lemma_no_record_total(ts: Seq<Task>, name: Seq<char>, since: int, until: int, open_end: int)
    requires
        forall|i: int| 0 <= i < ts.len() ==> (#[trigger] ts[i]).name@ != name,
    ensures
        window_total(ts, name, since, until, open_end) == 0,
    decreases ts.len(),
{
    if ts.len() > 0 {
        let d = ts.drop_last();
        assert forall|i: int| 0 <= i < d.len() implies (#[trigger] d[i]).name@ != name by {
            assert(d[i] == ts[i]);
        }
        assert(ts.last() == ts[ts.len() - 1]);
        lemma_no_record_total(d, name, since, until, open_end);
    }
}

/// The report on the only record of a name, when it overlaps the window.
proof fn lemma_single_record_report(
    ts: Seq<Task>,
    k: int,
    since: int,
    until: int,
    open_end: int,
    r: Result<TaskStat, PunchTaskError>,
)
    requires
        ts.len() <= i64::MAX,
        0 <= k < ts.len(),
        forall|i: int| 0 <= i < ts.len() && i != k ==> (#[trigger] ts[i]).name@ != ts[k].name@,
        selected(ts[k], ts[k].name@, since, until),
        fits_i64(clipped(ts[k], since, until, open_end)),
        report_post(ts, ts[k].name@, since, until, open_end, r),
    ensures
        r matches Ok(stat) && stat.duration == clipped(ts[k], since, until, open_end)
            && stat.status@ == status_text(ts[k].is_unfinished()),
{
    let name = ts[k].name@;
    lemma_single_record_total(ts, k, since, until, open_end);
    assert(any_selected(ts, name, since, until));
    if ts[k].is_unfinished() {
        assert(any_selected_unfinished(ts, name, since, until));
    } else {
        assert(!any_selected_unfinished(ts, name, since, until)) by {
            if any_selected_unfinished(ts, name, since, until) {
                let i = choose|i: int|
                    0 <= i < ts.len() && selected(#[trigger] ts[i], name, since, until)
                        && ts[i].is_unfinished();
                assert(i == k);
            }
        }
    }
}

/// A finished task that lies wholly inside the window is reported complete,
/// with its whole duration.
pub proof fn report_whole_task(
    ts: Seq<Task>,
    k: int,
    since: i64,
    until: i64,
    r: Result<TaskStat, PunchTaskError>,
)
    requires
        all_wf(ts),
        ts.len() <= i64::MAX,
        0 <= k < ts.len(),
        forall|i: int| 0 <= i < ts.len() && i != k ==> (#[trigger] ts[i]).name@ != ts[k].name@,
        ts[k].finished_at is Some,
        since <= ts[k].started_at,
        ts[k].finished_at->0 <= until,
        fits_i64(ts[k].finished_at->0 - ts[k].started_at),
        report_post(ts, ts[k].name@, since as int, until as int, until as int, r),
    ensures
        r matches Ok(stat) && stat.duration == ts[k].finished_at->0 - ts[k].started_at
            && stat.status@ == "complete"@,
{
    assert(ts[k].wf());
    lemma_single_record_report(ts, k, since as int, until as int, until as int, r);
}

/// A finished task that started before the window and ended inside it is
/// reported with the part after `since`.
pub proof fn report_clipped_start(
    ts: Seq<Task>,
    k: int,
    since: i64,
    until: i64,
    r: Result<TaskStat, PunchTaskError>,
)
    requires
        ts.len() <= i64::MAX,
        0 <= k < ts.len(),
        forall|i: int| 0 <= i < ts.len() && i != k ==> (#[trigger] ts[i]).name@ != ts[k].name@,
        ts[k].finished_at is Some,
        ts[k].started_at < since < ts[k].finished_at->0,
        ts[k].finished_at->0 <= until,
        fits_i64(ts[k].finished_at->0 - since),
        report_post(ts, ts[k].name@, since as int, until as int, until as int, r),
    ensures
        r matches Ok(stat) && stat.duration == ts[k].finished_at->0 - since && stat.status@
            == "complete"@,
{
    lemma_single_record_report(ts, k, since as int, until as int, until as int, r);
}

/// A task in progress, reported up to `now`, is in progress with the time
/// from its start (or from `since`, if later) to `now`.
pub proof fn report_task_in_progress(
    ts: Seq<Task>,
    k: int,
    since: i64,
    now: i64,
    r: Result<TaskStat, PunchTaskError>,
)
    requires
        ts.len() <= i64::MAX,
        0 <= k < ts.len(),
        forall|i: int| 0 <= i < ts.len() && i != k ==> (#[trigger] ts[i]).name@ != ts[k].name@,
        ts[k].is_unfinished(),
        ts[k].started_at <= now,
        fits_i64(now - spec_max(ts[k].started_at as int, since as int)),
        report_post(ts, ts[k].name@, since as int, now as int, now as int, r),
    ensures
        r matches Ok(stat) && stat.duration == now - spec_max(
            ts[k].started_at as int,
            since as int,
        ) && stat.status@ == "in progress"@,
{
    lemma_single_record_report(ts, k, since as int, now as int, now as int, r);
}

/// A task in progress adds nothing to its name's listed duration: the
/// listing counts finished records only.
pub proof fn listing_ignores_task_in_progress(
    ts: Seq<Task>,
    t: Task,
    items: Seq<TaskListItem>,
)
    requires
        t.is_unfinished(),
        is_listing_of(ts.push(t), items),
    ensures
        forall|k: int|
            0 <= k < items.len() ==> (#[trigger] items[k]).duration == finished_total(
                ts,
                items[k].name@,
            ),
{
    assert(ts.push(t).drop_last() =~= ts);
    assert forall|k: int| 0 <= k < items.len() implies (#[trigger] items[k]).duration
        == finished_total(ts, items[k].name@) by {
        assert(ts.push(t).last() == t);
    }
}

/// A record inserted in progress is what a lookup of its name then finds.
pub proof fn insert_then_find(old: Seq<Task>, t: Task)
    requires
        valid_records(old),
        !has_unfinished(old, t.name@),
        t.is_unfinished(),
    ensures
        unfinished_of(old.push(t), t.name@) == Some(t),
{
    let ts = old.push(t);
    assert(unique_unfinished(ts)) by {
        assert forall|i: int, j: int|
            0 <= i < ts.len() && 0 <= j < ts.len() && (#[trigger] ts[i]).is_unfinished()
                && (#[trigger] ts[j]).is_unfinished() && ts[i].name@ == ts[j].name@ implies i
            == j by {
            if i < old.len() && j == old.len() {
                assert(old[i] == ts[i]);
            }
            if j < old.len() && i == old.len() {
                assert(old[j] == ts[j]);
            }
            if i < old.len() && j < old.len() {
                assert(old[i] == ts[i]);
                assert(old[j] == ts[j]);
            }
        }
    }
    lemma_unfinished_of_index(ts, old.len() as int);
}

/// Once the record in progress is finished, a lookup of its name finds none.
pub proof fn finish_then_find(ts: Seq<Task>, k: int, f: i64)
    requires
        valid_records(ts),
        0 <= k < ts.len(),
        ts[k].is_unfinished(),
    ensures
        unfinished_of(ts.update(k, finished_with(ts[k], f)), ts[k].name@) is None,
{
    let new = ts.update(k, finished_with(ts[k], f));
    if has_unfinished(new, ts[k].name@) {
        let j = choose|j: int| 0 <= j < new.len() && (#[trigger] new[j]).is_unfinished() && new[j].name@ == ts[k].name@;
        assert(new[j] == ts[j]);
    }
}

/// On the service, once a user's task is inserted in progress, punching in
/// on that name again finds it and fails.
pub proof fn service_punch_in_twice_fails(
    rows: Seq<TaskModel>,
    user: Seq<char>,
    name: Seq<char>,
    inserted: TaskModel,
)
    requires
        inserted.user_github_id@ == user,
        inserted.name@ == name,
        inserted.finished_at is None,
    ensures
        has_open_row(rows.push(inserted), user, name),
{
    assert(is_open_row(rows.push(inserted), rows.len() as int, user, name));
}

/// On the service, once the row that a cancel names is deleted, punching in
/// on that name succeeds again, given that the user had at most one task of
/// that name in progress.
pub proof fn service_cancel_then_punch_in(
    rows: Seq<TaskModel>,
    user: Seq<char>,
    name: Seq<char>,
    k: int,
)
    requires
        forall|i: int, j: int|
            is_open_row(rows, i, user, name) && is_open_row(rows, j, user, name) ==> i == j,
        is_open_row(rows, k, user, name),
    ensures
        !has_open_row(rows.remove(k), user, name),
{
    let rest = rows.remove(k);
    if has_open_row(rest, user, name) {
        let j = choose|j: int| is_open_row(rest, j, user, name);
        let oj = if j < k { j } else { j + 1 };
        assert(rows[oj] == rest[j]);
        assert(is_open_row(rows, oj, user, name));
    }
}

} // verus!
