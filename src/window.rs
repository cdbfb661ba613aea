use vstd::prelude::*;
use crate::errors::PunchTaskError;
use crate::task::Task;

verus! {

/// How much time was spent on one name within a window.
pub struct TaskStat {
    pub name: String,
    pub status: String,
    pub duration: i64,
}

pub open spec fn spec_min(a: int, b: int) -> int {
    if a <= b { a } else { b }
}

pub open spec fn spec_max(a: int, b: int) -> int {
    if a >= b { a } else { b }
}

/// The report status: `in progress` when any selected record is unfinished.
pub open spec fn status_text(in_progress: bool) -> Seq<char> {
    if in_progress { "in progress"@ } else { "complete"@ }
}

/// A record of the name that overlaps `[since, until]` at all.
pub open spec fn selected(t: Task, name: Seq<char>, since: int, until: int) -> bool {
    &&& t.name@ == name
    &&& t.started_at <= until
    &&& match t.finished_at {
        Some(f) => f >= since,
        None => true,
    }
}

/// A record's interval cut to the window: a finished record at `until`, an
/// unfinished one ending at `open_end`.
pub open spec fn clipped(t: Task, since: int, until: int, open_end: int) -> int {
    match t.finished_at {
        Some(f) => spec_min(f as int, until) - spec_max(t.started_at as int, since),
        None => open_end - spec_max(t.started_at as int, since),
    }
}

/// The sum of the clipped durations of the selected records.
pub open spec fn window_total(
    ts: Seq<Task>,
    name: Seq<char>,
    since: int,
    until: int,
    open_end: int,
) -> int
    decreases ts.len(),
{
    if ts.len() == 0 {
        0
    } else {
        window_total(ts.drop_last(), name, since, until, open_end) + if selected(
            ts.last(),
            name,
            since,
            until,
        ) {
            clipped(ts.last(), since, until, open_end)
        } else {
            0
        }
    }
}

pub open spec fn any_selected(ts: Seq<Task>, name: Seq<char>, since: int, until: int) -> bool {
    exists|i: int| 0 <= i < ts.len() && selected(#[trigger] ts[i], name, since, until)
}

pub open spec fn any_selected_unfinished(
    ts: Seq<Task>,
    name: Seq<char>,
    since: int,
    until: int,
) -> bool {
    exists|i: int|
        0 <= i < ts.len() && selected(#[trigger] ts[i], name, since, until) && ts[i].is_unfinished()
}

pub open spec fn fits_i64(x: int) -> bool {
    i64::MIN <= x <= i64::MAX
}

/// What a report on `name` over `[since, until]`, with unfinished records
/// ending at `open_end`, is: `InternalError` for more records than an `i64`
/// counts, `TaskNotFound` when no record overlaps, `InternalError` when the
/// total leaves the `i64` range, and otherwise the total with its status.
pub open spec fn report_post(
    ts: Seq<Task>,
    name: Seq<char>,
    since: int,
    until: int,
    open_end: int,
    r: Result<TaskStat, PunchTaskError>,
) -> bool {
    if ts.len() > i64::MAX {
        r == Err::<TaskStat, PunchTaskError>(PunchTaskError::InternalError)
    } else if !any_selected(ts, name, since, until) {
        r == Err::<TaskStat, PunchTaskError>(PunchTaskError::TaskNotFound)
    } else if !fits_i64(window_total(ts, name, since, until, open_end)) {
        r == Err::<TaskStat, PunchTaskError>(PunchTaskError::InternalError)
    } else {
        r matches Ok(stat) && stat.name@ == name && stat.duration == window_total(
            ts,
            name,
            since,
            until,
            open_end,
        ) && stat.status@ == status_text(any_selected_unfinished(ts, name, since, until))
    }
}

fn min_i64(a: i64, b: i64) -> (r: i64)
    ensures
        r == spec_min(a as int, b as int),
{
    if a <= b { a } else { b }
}

fn max_i64(a: i64, b: i64) -> (r: i64)
    ensures
        r == spec_max(a as int, b as int),
{
    if a >= b { a } else { b }
}

fn is_selected(t: &Task, name: &String, since: i64, until: i64) -> (r: bool)
    ensures
        r == selected(*t, name@, since as int, until as int),
{
    if t.name != *name || t.started_at > until {
        return false;
    }
    match t.finished_at {
        Some(f) => f >= since,
        None => true,
    }
}

/// Every clipped duration is a difference of two `i64` values.
pub open spec fn term_bound() -> int {
    0x1_0000_0000_0000_0000 - 1
}

fn clipped_duration(t: &Task, since: i64, until: i64, open_end: i64) -> (r: i128)
    ensures
        r == clipped(*t, since as int, until as int, open_end as int),
        -term_bound() <= r <= term_bound(),
{
    let start = max_i64(t.started_at, since);
    match t.finished_at {
        Some(f) => min_i64(f, until) as i128 - start as i128,
        None => open_end as i128 - start as i128,
    }
}

/// Totals the time spent on `name` within `[since, until]` over `tasks`,
/// with a record still in progress ending at `open_end`.
pub fn window_report(
    tasks: &Vec<Task>,
    name: &String,
    since: i64,
    until: i64,
    open_end: i64,
) -> (r: Result<TaskStat, PunchTaskError>)
    ensures
        report_post(tasks@, name@, since as int, until as int, open_end as int, r),
{
    if tasks.len() as u64 > i64::MAX as u64 {
        return Err(PunchTaskError::InternalError);
    }
    let ghost s = since as int;
    let ghost u = until as int;
    let ghost e = open_end as int;
    let mut total: i128 = 0;
    let mut found = false;
    let mut in_progress = false;
    let mut i: usize = 0;
    while i < tasks.len()
        invariant
            tasks@.len() <= i64::MAX,
            0 <= i <= tasks@.len(),
            total == window_total(tasks@.take(i as int), name@, s, u, e),
            -(i * term_bound()) <= total <= i * term_bound(),
            found == any_selected(tasks@.take(i as int), name@, s, u),
            in_progress == any_selected_unfinished(tasks@.take(i as int), name@, s, u),
            s == since,
            u == until,
            e == open_end,
        decreases tasks@.len() - i,
    {
        let t = &tasks[i];
        let ghost prefix = tasks@.take(i as int);
        let ghost next_prefix = tasks@.take(i as int + 1);
        assert(next_prefix.drop_last() =~= prefix);
        assert(next_prefix.last() == tasks@[i as int]);
        proof {
            let n = i as int;
            assert((n + 1) * term_bound() == n * term_bound() + term_bound()) by (nonlinear_arith);
            assert((n + 1) * term_bound() <= i64::MAX * term_bound()) by (nonlinear_arith)
                requires
                    n + 1 <= i64::MAX,
                    term_bound() > 0,
            ;
        }
        if is_selected(t, name, since, until) {
            let term = clipped_duration(t, since, until, open_end);
            total = total + term;
            found = true;
            if t.finished_at.is_none() {
                in_progress = true;
            }
        }
        proof {
            if any_selected(next_prefix, name@, s, u) && !selected(tasks@[i as int], name@, s, u) {
                let k = choose|k: int|
                    0 <= k < next_prefix.len() && selected(#[trigger] next_prefix[k], name@, s, u);
                assert(prefix[k] == next_prefix[k]);
            }
            if any_selected(prefix, name@, s, u) {
                let k = choose|k: int| 0 <= k < prefix.len() && selected(#[trigger] prefix[k], name@, s, u);
                assert(next_prefix[k] == prefix[k]);
            }
            if any_selected_unfinished(next_prefix, name@, s, u) && !(selected(
                tasks@[i as int],
                name@,
                s,
                u,
            ) && tasks@[i as int].is_unfinished()) {
                let k = choose|k: int|
                    0 <= k < next_prefix.len() && selected(#[trigger] next_prefix[k], name@, s, u)
                        && next_prefix[k].is_unfinished();
                assert(prefix[k] == next_prefix[k]);
            }
            if any_selected_unfinished(prefix, name@, s, u) {
                let k = choose|k: int|
                    0 <= k < prefix.len() && selected(#[trigger] prefix[k], name@, s, u)
                        && prefix[k].is_unfinished();
                assert(next_prefix[k] == prefix[k]);
            }
        }
        i = i + 1;
    }
    assert(tasks@.take(i as int) =~= tasks@);
    if !found {
        return Err(PunchTaskError::TaskNotFound);
    }
    if total < i64::MIN as i128 || total > i64::MAX as i128 {
        return Err(PunchTaskError::InternalError);
    }
    let status = if in_progress {
        String::from_str("in progress")
    } else {
        String::from_str("complete")
    };
    Ok(TaskStat { name: name.clone(), status, duration: total as i64 })
}

/// Totals the time spent on `name` within `[since, until]` over `tasks`,
/// with a record still in progress ending at `until`.
pub fn task_report(tasks: &Vec<Task>, name: &String, since: i64, until: i64) -> (r: Result<
    TaskStat,
    PunchTaskError,
>)
    ensures
        report_post(tasks@, name@, since as int, until as int, until as int, r),
{
    window_report(tasks, name, since, until, until)
}

} // verus!
