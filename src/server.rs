use vstd::prelude::*;
use crate::api::APITaskInfo;
use crate::auth::{last_value, present, required_var};
use crate::errors::PunchTaskError;
use crate::listing::{TaskListItem, aggregate_by_name, listing_post};
use crate::task::{Task, all_wf, lower_of, lowercase};
use crate::window::{TaskStat, report_post, window_report};

verus! {

/// The settings that the service runs with.
pub struct AppConfigs {
    pub database_url: String,
    pub github_app_name: String,
    pub github_client_id: String,
    pub github_client_secret: String,
    pub jwt_secret: String,
}

impl AppConfigs {
    /// The settings named `DATABASE_URL`, `GITHUB_APP_NAME`,
    /// `GITHUB_CLIENT_ID`, `GITHUB_CLIENT_SECRET` and `JWT_SECRET` among the
    /// variables; the last of a repeated name counts. `None` when any is
    /// missing or empty.
    pub fn from_vars(vars: &Vec<(String, String)>) -> (r: Option<AppConfigs>)
        ensures
            ({
                &&& present(last_value(vars@, "DATABASE_URL"@))
                &&& present(last_value(vars@, "GITHUB_APP_NAME"@))
                &&& present(last_value(vars@, "GITHUB_CLIENT_ID"@))
                &&& present(last_value(vars@, "GITHUB_CLIENT_SECRET"@))
                &&& present(last_value(vars@, "JWT_SECRET"@))
            }) ==> (r matches Some(c) && {
                &&& Some(c.database_url@) == last_value(vars@, "DATABASE_URL"@)
                &&& Some(c.github_app_name@) == last_value(vars@, "GITHUB_APP_NAME"@)
                &&& Some(c.github_client_id@) == last_value(vars@, "GITHUB_CLIENT_ID"@)
                &&& Some(c.github_client_secret@) == last_value(vars@, "GITHUB_CLIENT_SECRET"@)
                &&& Some(c.jwt_secret@) == last_value(vars@, "JWT_SECRET"@)
            }),
            !({
                &&& present(last_value(vars@, "DATABASE_URL"@))
                &&& present(last_value(vars@, "GITHUB_APP_NAME"@))
                &&& present(last_value(vars@, "GITHUB_CLIENT_ID"@))
                &&& present(last_value(vars@, "GITHUB_CLIENT_SECRET"@))
                &&& present(last_value(vars@, "JWT_SECRET"@))
            }) ==> r is None,
    {
        let database_url = required_var(vars, "DATABASE_URL");
        let github_app_name = required_var(vars, "GITHUB_APP_NAME");
        let github_client_id = required_var(vars, "GITHUB_CLIENT_ID");
        let github_client_secret = required_var(vars, "GITHUB_CLIENT_SECRET");
        let jwt_secret = required_var(vars, "JWT_SECRET");
        match (database_url, github_app_name, github_client_id, github_client_secret, jwt_secret) {
            (
                Some(database_url),
                Some(github_app_name),
                Some(github_client_id),
                Some(github_client_secret),
                Some(jwt_secret),
            ) => Some(
                AppConfigs {
                    database_url,
                    github_app_name,
                    github_client_id,
                    github_client_secret,
                    jwt_secret,
                },
            ),
            _ => None,
        }
    }
}

/// A task row of the service, owned by one user.
pub struct TaskModel {
    pub id: i64,
    pub name: String,
    pub user_github_id: String,
    pub started_at: i64,
    pub finished_at: Option<i64>,
}

/// The window that a report request asks for.
pub struct TimeFilterInfo {
    pub since: Option<i64>,
    pub until: Option<i64>,
}

/// A row of the listing as the service sends it.
pub struct TaskListModelForResponse {
    pub name: String,
    pub duration: i64,
    pub started_at: i64,
    pub finished_at: Option<i64>,
}

impl TaskListModelForResponse {
    pub fn from_item(item: TaskListItem) -> (r: TaskListModelForResponse)
        ensures
            r.name == item.name,
            r.duration == item.duration,
            r.started_at == item.started_at,
            r.finished_at == item.finished_at,
    {
        TaskListModelForResponse {
            name: item.name,
            duration: item.duration,
            started_at: item.started_at,
            finished_at: item.finished_at,
        }
    }
}

/// How long a session token stays valid: a year, in seconds.
pub const SESSION_LIFETIME_SECS: u64 = 31556926;

/// The claims of a session token: what it carries, when it was issued and
/// when it expires, in epoch seconds.
pub struct BaseJWTClaims<T> {
    pub claim: T,
    pub iat: u64,
    pub exp: u64,
}

impl<T> BaseJWTClaims<T> {
    /// The claims of a token issued at `now`, valid for a year; `None` when
    /// the expiry is past what a `u64` holds.
    pub fn issued(claim: T, now: u64) -> (r: Option<BaseJWTClaims<T>>)
        ensures
            now + SESSION_LIFETIME_SECS <= u64::MAX ==> (r matches Some(c) && c.claim == claim
                && c.iat == now && c.exp == now + SESSION_LIFETIME_SECS),
            now + SESSION_LIFETIME_SECS > u64::MAX ==> r is None,
    {
        if now > u64::MAX - SESSION_LIFETIME_SECS {
            return None;
        }
        Some(BaseJWTClaims { claim, iat: now, exp: now + SESSION_LIFETIME_SECS })
    }
}

/// The body of a request that names a task.
pub struct BaseTaskInfo {
    pub name: String,
}

/// The row that the service inserts for a task punched in.
pub struct NewTaskModel {
    pub name: String,
    pub user_github_id: String,
    pub started_at: i64,
}

/// How many tasks a user has in progress.
pub struct TasksCount {
    pub count: i64,
}

pub open spec fn owned_by(m: TaskModel, user: Seq<char>) -> bool {
    m.user_github_id@ == user
}

/// A row of the user's that is in progress under that name.
pub open spec fn is_open_row(rows: Seq<TaskModel>, k: int, user: Seq<char>, name: Seq<char>) -> bool {
    &&& 0 <= k < rows.len()
    &&& owned_by(rows[k], user)
    &&& rows[k].name@ == name
    &&& rows[k].finished_at is None
}

pub open spec fn has_open_row(rows: Seq<TaskModel>, user: Seq<char>, name: Seq<char>) -> bool {
    exists|k: int| is_open_row(rows, k, user, name)
}

/// A row seen as a task of its owner; the id plays no part in reports.
pub open spec fn as_task(m: TaskModel) -> Task {
    Task { id: 0, name: m.name, started_at: m.started_at, finished_at: m.finished_at }
}

/// The user's rows as tasks, in order.
pub open spec fn user_tasks(rows: Seq<TaskModel>, user: Seq<char>) -> Seq<Task>
    decreases rows.len(),
{
    if rows.len() == 0 {
        Seq::empty()
    } else if owned_by(rows.last(), user) {
        user_tasks(rows.drop_last(), user).push(as_task(rows.last()))
    } else {
        user_tasks(rows.drop_last(), user)
    }
}

/// The number of the user's rows in progress.
pub open spec fn open_count(rows: Seq<TaskModel>, user: Seq<char>) -> int
    decreases rows.len(),
{
    if rows.len() == 0 {
        0
    } else {
        open_count(rows.drop_last(), user) + if owned_by(rows.last(), user)
            && rows.last().finished_at is None {
            1int
        } else {
            0int
        }
    }
}

impl TaskModel {
    /// The row as the service returns it.
    pub fn to_json(&self) -> (r: APITaskInfo)
        ensures
            r.id == self.id,
            r.name == self.name,
            r.started_at == self.started_at,
            r.finished_at == self.finished_at,
    {
        APITaskInfo {
            id: self.id,
            name: self.name.clone(),
            started_at: self.started_at,
            finished_at: self.finished_at,
        }
    }
}

/// The index of the user's row in progress under `name`.
pub fn find_open_row(rows: &Vec<TaskModel>, user: &String, name: &String) -> (r: Option<usize>)
    ensures
        r matches Some(k) ==> is_open_row(rows@, k as int, user@, name@),
        r is None ==> !has_open_row(rows@, user@, name@),
{
    let mut i: usize = 0;
    while i < rows.len()
        invariant
            0 <= i <= rows@.len(),
            forall|k: int| 0 <= k < i ==> !is_open_row(rows@, k, user@, name@),
        decreases rows@.len() - i,
    {
        let m = &rows[i];
        if m.user_github_id == *user && m.name == *name && m.finished_at.is_none() {
            return Some(i);
        }
        i = i + 1;
    }
    None
}

/// Punches `user` in on the task named in `task`, lowercased, at `now`:
/// the row to insert, unless one of that name is in progress.
pub fn start_new_task(rows: &Vec<TaskModel>, user: &String, task: &BaseTaskInfo, now: i64) -> (r:
    Result<NewTaskModel, PunchTaskError>)
    ensures
        has_open_row(rows@, user@, lower_of(task.name@)) ==> r == Err::<
            NewTaskModel,
            PunchTaskError,
        >(PunchTaskError::TaskAlreadyInProgress),
        !has_open_row(rows@, user@, lower_of(task.name@)) ==> (r matches Ok(n) && n.name@
            == lower_of(task.name@) && n.user_github_id@ == user@ && n.started_at == now),
{
    let name = lowercase(task.name.as_str());
    match find_open_row(rows, user, &name) {
        Some(_) => Err(PunchTaskError::TaskAlreadyInProgress),
        None => Ok(NewTaskModel { name, user_github_id: user.clone(), started_at: now }),
    }
}

/// Punches `user` out of the task named in `task`, lowercased, at `now`:
/// the row as updated. A finish before the row's start is refused.
pub fn finish_task(rows: &Vec<TaskModel>, user: &String, task: &BaseTaskInfo, now: i64) -> (r:
    Result<TaskModel, PunchTaskError>)
    ensures
        !has_open_row(rows@, user@, lower_of(task.name@)) ==> r == Err::<
            TaskModel,
            PunchTaskError,
        >(PunchTaskError::InProgressTaskNotFound),
        has_open_row(rows@, user@, lower_of(task.name@)) ==> exists|k: int|
            is_open_row(rows@, k, user@, lower_of(task.name@)) && if rows@[k].started_at <= now {
                r matches Ok(m) && m.id == rows@[k].id && m.name == rows@[k].name
                    && m.user_github_id == rows@[k].user_github_id && m.started_at
                    == rows@[k].started_at && m.finished_at == Some(now)
            } else {
                r == Err::<TaskModel, PunchTaskError>(PunchTaskError::InternalError)
            },
{
    let name = lowercase(task.name.as_str());
    match find_open_row(rows, user, &name) {
        None => Err(PunchTaskError::InProgressTaskNotFound),
        Some(k) => {
            let m = &rows[k];
            if m.started_at > now {
                return Err(PunchTaskError::InternalError);
            }
            Ok(
                TaskModel {
                    id: m.id,
                    name: m.name.clone(),
                    user_github_id: m.user_github_id.clone(),
                    started_at: m.started_at,
                    finished_at: Some(now),
                },
            )
        },
    }
}

/// Cancels the task of `user` named in `task`, lowercased: the id of the row
/// to delete.
pub fn cancel_task(rows: &Vec<TaskModel>, user: &String, task: &BaseTaskInfo) -> (r: Result<
    i64,
    PunchTaskError,
>)
    ensures
        !has_open_row(rows@, user@, lower_of(task.name@)) ==> r == Err::<i64, PunchTaskError>(
            PunchTaskError::InProgressTaskNotFound,
        ),
        has_open_row(rows@, user@, lower_of(task.name@)) ==> exists|k: int|
            is_open_row(rows@, k, user@, lower_of(task.name@)) && r == Ok::<i64, PunchTaskError>(
                rows@[k].id,
            ),
{
    let name = lowercase(task.name.as_str());
    match find_open_row(rows, user, &name) {
        None => Err(PunchTaskError::InProgressTaskNotFound),
        Some(k) => Ok(rows[k].id),
    }
}

/// The user's rows as tasks.
pub fn tasks_of_user(rows: &Vec<TaskModel>, user: &String) -> (r: Vec<Task>)
    ensures
        r@ == user_tasks(rows@, user@),
{
    let mut out: Vec<Task> = Vec::new();
    let mut i: usize = 0;
    while i < rows.len()
        invariant
            0 <= i <= rows@.len(),
            out@ == user_tasks(rows@.take(i as int), user@),
        decreases rows@.len() - i,
    {
        proof {
            assert(rows@.take(i as int + 1).drop_last() =~= rows@.take(i as int));
            assert(rows@.take(i as int + 1).last() == rows@[i as int]);
        }
        let m = &rows[i];
        if m.user_github_id == *user {
            out.push(
                Task {
                    id: 0,
                    name: m.name.clone(),
                    started_at: m.started_at,
                    finished_at: m.finished_at,
                },
            );
        }
        i = i + 1;
    }
    proof {
        assert(rows@.take(i as int) =~= rows@);
    }
    out
}

fn tasks_well_formed(ts: &Vec<Task>) -> (r: bool)
    ensures
        r == all_wf(ts@),
{
    let mut i: usize = 0;
    while i < ts.len()
        invariant
            0 <= i <= ts@.len(),
            forall|k: int| 0 <= k < i ==> (#[trigger] ts@[k]).wf(),
        decreases ts@.len() - i,
    {
        match ts[i].finished_at {
            Some(f) => if f < ts[i].started_at {
                return false;
            },
            None => {},
        }
        i = i + 1;
    }
    true
}

/// The window of a report: from the epoch where the request gives no
/// `since`; with no `until`, no upper bound for the records selected, and
/// records in progress ending at `right_now`. The result is `since`, the
/// selection's end, and the end of a record in progress.
pub fn report_window(since: Option<i64>, until: Option<i64>, right_now: i64) -> (r: (i64, i64, i64))
    ensures
        r.0 == match since {
            Some(s) => s,
            None => 0,
        },
        r.1 == match until {
            Some(u) => u,
            None => i64::MAX,
        },
        r.2 == match until {
            Some(u) => u,
            None => right_now,
        },
{
    let s = match since {
        Some(s) => s,
        None => 0,
    };
    match until {
        Some(u) => (s, u, u),
        None => (s, i64::MAX, right_now),
    }
}

/// The report on the task `task_name`, lowercased, of `user` over the
/// window that `filter` and `right_now` give (see `report_window`).
pub fn get_task(
    rows: &Vec<TaskModel>,
    user: &String,
    task_name: &String,
    filter: &TimeFilterInfo,
    right_now: i64,
) -> (r: Result<TaskStat, PunchTaskError>)
    ensures
        report_post(
            user_tasks(rows@, user@),
            lower_of(task_name@),
            (match filter.since {
                Some(s) => s,
                None => 0,
            }) as int,
            (match filter.until {
                Some(u) => u,
                None => i64::MAX,
            }) as int,
            (match filter.until {
                Some(u) => u,
                None => right_now,
            }) as int,
            r,
        ),
{
    let name = lowercase(task_name.as_str());
    let (s, u, open_end) = report_window(filter.since, filter.until, right_now);
    let ts = tasks_of_user(rows, user);
    window_report(&ts, &name, s, u, open_end)
}

/// One row per distinct task name of `user`; a row that ends before it
/// starts is an `InternalError`.
pub fn list_tasks(rows: &Vec<TaskModel>, user: &String) -> (r: Result<
    Vec<TaskListItem>,
    PunchTaskError,
>)
    ensures
        !all_wf(user_tasks(rows@, user@)) ==> r == Err::<Vec<TaskListItem>, PunchTaskError>(
            PunchTaskError::InternalError,
        ),
        all_wf(user_tasks(rows@, user@)) ==> listing_post(user_tasks(rows@, user@), r),
{
    let ts = tasks_of_user(rows, user);
    if !tasks_well_formed(&ts) {
        return Err(PunchTaskError::InternalError);
    }
    aggregate_by_name(&ts)
}

/// How many tasks `user` has in progress, at most the largest `i64`.
pub fn status(rows: &Vec<TaskModel>, user: &String) -> (r: TasksCount)
    ensures
        r.count == if open_count(rows@, user@) <= i64::MAX {
            open_count(rows@, user@)
        } else {
            i64::MAX as int
        },
{
    let mut count: i64 = 0;
    let mut i: usize = 0;
    while i < rows.len()
        invariant
            0 <= i <= rows@.len(),
            count == if open_count(rows@.take(i as int), user@) <= i64::MAX {
                open_count(rows@.take(i as int), user@)
            } else {
                i64::MAX as int
            },
        decreases rows@.len() - i,
    {
        proof {
            assert(rows@.take(i as int + 1).drop_last() =~= rows@.take(i as int));
            assert(rows@.take(i as int + 1).last() == rows@[i as int]);
        }
        if rows[i].user_github_id == *user && rows[i].finished_at.is_none() && count < i64::MAX {
            count = count + 1;
        }
        i = i + 1;
    }
    proof {
        assert(rows@.take(i as int) =~= rows@);
    }
    TasksCount { count }
}

} // verus!
