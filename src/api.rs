use vstd::prelude::*;
use crate::errors::{PunchTaskError, RemoteError};
use crate::listing::TaskListItem;
use crate::task::Task;
use crate::window::TaskStat;

verus! {

/// The body of a request that names a task.
pub struct TaskInfoPayload {
    pub name: String,
}

/// A task as the service returns it.
pub struct APITaskInfo {
    pub id: i64,
    pub name: String,
    pub started_at: i64,
    pub finished_at: Option<i64>,
}

/// A window report as the service returns it.
pub struct APITaskStat {
    pub name: String,
    pub status: String,
    pub duration: i64,
}

/// A row of the listing as the service returns it.
pub struct APITaskListItem {
    pub name: String,
    pub duration: i64,
    pub started_at: i64,
    pub finished_at: Option<i64>,
}

#[derive(Debug, PartialEq, Eq, Structural, Clone, Copy)]
pub enum HttpMethod {
    Get,
    Post,
}

/// The task operations that the service offers.
#[derive(Debug, PartialEq, Eq, Structural, Clone, Copy)]
pub enum RemoteOp {
    PunchIn,
    PunchOut,
    Cancel,
    Get,
    List,
}

/// A request for the service: the caller sends it and hands back the reply.
pub struct RemoteRequest {
    pub method: HttpMethod,
    pub url: String,
    pub bearer: Option<String>,
    pub body: Option<TaskInfoPayload>,
    /// The `since` and `until` query parameters.
    pub window: Option<(i64, i64)>,
}

/// A request that did not succeed: the HTTP status, absent when the service
/// was not reached, and the text of the reply.
pub struct ApiFailure {
    pub status: Option<u16>,
    pub message: String,
}

pub open spec fn op_path(op: RemoteOp) -> Seq<char> {
    match op {
        RemoteOp::PunchIn => "/punch/in"@,
        RemoteOp::PunchOut => "/punch/out"@,
        RemoteOp::Cancel => "/punch/cancel"@,
        RemoteOp::Get => "/punch/get/"@,
        RemoteOp::List => "/punch/list"@,
    }
}

pub open spec fn names_a_task(op: RemoteOp) -> bool {
    op == RemoteOp::PunchIn || op == RemoteOp::PunchOut || op == RemoteOp::Cancel
}

/// `req` is the request for `op` on the task `name`: the path under the
/// endpoint, the bearer token, the name in the body (or, for a report, in the
/// path) and the window of a report.
pub open spec fn is_request_for(
    req: RemoteRequest,
    endpoint: Seq<char>,
    token: Seq<char>,
    op: RemoteOp,
    name: Seq<char>,
    since: i64,
    until: i64,
) -> bool {
    &&& req.method == if op == RemoteOp::Get || op == RemoteOp::List {
        HttpMethod::Get
    } else {
        HttpMethod::Post
    }
    &&& req.url@ == endpoint + op_path(op) + if op == RemoteOp::Get {
        name
    } else {
        Seq::<char>::empty()
    }
    &&& req.bearer matches Some(b) && b@ == token
    &&& if names_a_task(op) {
        req.body matches Some(p) && p.name@ == name
    } else {
        req.body is None
    }
    &&& req.window == if op == RemoteOp::Get {
        Some((since, until))
    } else {
        None::<(i64, i64)>
    }
}

/// The failure kind for a reply with that status to `op`.
pub open spec fn failure_kind(op: RemoteOp, status: Option<u16>) -> PunchTaskError {
    match status {
        None => PunchTaskError::InternalError,
        Some(s) => if s == 400 {
            match op {
                RemoteOp::PunchIn => PunchTaskError::TaskAlreadyInProgress,
                RemoteOp::PunchOut => PunchTaskError::InProgressTaskNotFound,
                RemoteOp::Cancel => PunchTaskError::InProgressTaskNotFound,
                _ => PunchTaskError::InternalError,
            }
        } else if s == 401 {
            PunchTaskError::AuthInvalid
        } else if s == 404 {
            PunchTaskError::TaskNotFound
        } else {
            PunchTaskError::InternalError
        },
    }
}

/// The HTTP status with which the service answers `op` when it succeeds.
pub fn success_status(op: RemoteOp) -> (r: u16)
    ensures
        r == if op == RemoteOp::Cancel { 204u16 } else { 200u16 },
{
    match op {
        RemoteOp::Cancel => 204,
        _ => 200,
    }
}

pub fn failure_for(op: RemoteOp, failure: &ApiFailure) -> (r: PunchTaskError)
    ensures
        r == failure_kind(op, failure.status),
{
    match failure.status {
        None => PunchTaskError::InternalError,
        Some(s) => if s == 400 {
            match op {
                RemoteOp::PunchIn => PunchTaskError::TaskAlreadyInProgress,
                RemoteOp::PunchOut => PunchTaskError::InProgressTaskNotFound,
                RemoteOp::Cancel => PunchTaskError::InProgressTaskNotFound,
                _ => PunchTaskError::InternalError,
            }
        } else if s == 401 {
            PunchTaskError::AuthInvalid
        } else if s == 404 {
            PunchTaskError::TaskNotFound
        } else {
            PunchTaskError::InternalError
        },
    }
}

/// The failure `f` of a request for `op`, with its text kept.
pub open spec fn is_failure_of(e: RemoteError, op: RemoteOp, f: ApiFailure) -> bool {
    e.kind == failure_kind(op, f.status) && e.message == f.message
}

fn remote_error(op: RemoteOp, f: ApiFailure) -> (r: RemoteError)
    ensures
        is_failure_of(r, op, f),
{
    let kind = failure_for(op, &f);
    RemoteError { kind, message: f.message }
}

fn path_of(op: RemoteOp) -> (r: &'static str)
    ensures
        r@ == op_path(op),
{
    match op {
        RemoteOp::PunchIn => "/punch/in",
        RemoteOp::PunchOut => "/punch/out",
        RemoteOp::Cancel => "/punch/cancel",
        RemoteOp::Get => "/punch/get/",
        RemoteOp::List => "/punch/list",
    }
}

/// The request for `op` on the task `name`, sent to the service at `endpoint`
/// with `token` as the bearer credential.
pub fn request_for(
    endpoint: &String,
    token: &String,
    op: RemoteOp,
    name: &String,
    since: i64,
    until: i64,
) -> (r: RemoteRequest)
    ensures
        is_request_for(r, endpoint@, token@, op, name@, since, until),
{
    let base = endpoint.clone().concat(path_of(op));
    let is_get = match op {
        RemoteOp::Get => true,
        _ => false,
    };
    let url = if is_get {
        base.concat(name.as_str())
    } else {
        base
    };
    proof {
        if !is_get {
            assert(url@ =~= endpoint@ + op_path(op) + Seq::<char>::empty());
        }
    }
    let method = match op {
        RemoteOp::Get => HttpMethod::Get,
        RemoteOp::List => HttpMethod::Get,
        _ => HttpMethod::Post,
    };
    let body = match op {
        RemoteOp::PunchIn => Some(TaskInfoPayload { name: name.clone() }),
        RemoteOp::PunchOut => Some(TaskInfoPayload { name: name.clone() }),
        RemoteOp::Cancel => Some(TaskInfoPayload { name: name.clone() }),
        _ => None,
    };
    RemoteRequest {
        method,
        url,
        bearer: Some(token.clone()),
        body,
        window: if is_get {
            Some((since, until))
        } else {
            None
        },
    }
}

/// The start time that the service reports for a task punched in.
pub fn punch_in_reply(reply: Result<APITaskInfo, ApiFailure>) -> (r: Result<i64, RemoteError>)
    ensures
        match reply {
            Ok(t) => r == Ok::<i64, RemoteError>(t.started_at),
            Err(f) => r matches Err(e) && is_failure_of(e, RemoteOp::PunchIn, f),
        },
{
    match reply {
        Ok(t) => Ok(t.started_at),
        Err(f) => Err(remote_error(RemoteOp::PunchIn, f)),
    }
}

/// The finished task that the service reports; an id beyond `i32` is refused.
pub fn punch_out_reply(reply: Result<APITaskInfo, ApiFailure>) -> (r: Result<Task, RemoteError>)
    ensures
        match reply {
            Ok(t) => if i32::MIN <= t.id <= i32::MAX {
                r matches Ok(task) && task.id == t.id && task.name == t.name && task.started_at
                    == t.started_at && task.finished_at == t.finished_at
            } else {
                r matches Err(e) && e.kind == PunchTaskError::InternalError && e.message@
                    == "the task id is out of range"@
            },
            Err(f) => r matches Err(e) && is_failure_of(e, RemoteOp::PunchOut, f),
        },
{
    match reply {
        Ok(t) => {
            if t.id < i32::MIN as i64 || t.id > i32::MAX as i64 {
                return Err(
                    RemoteError {
                        kind: PunchTaskError::InternalError,
                        message: String::from_str("the task id is out of range"),
                    },
                );
            }
            Ok(
                Task {
                    id: t.id as i32,
                    name: t.name,
                    started_at: t.started_at,
                    finished_at: t.finished_at,
                },
            )
        },
        Err(f) => Err(remote_error(RemoteOp::PunchOut, f)),
    }
}

pub fn cancel_reply(reply: Result<(), ApiFailure>) -> (r: Result<(), RemoteError>)
    ensures
        match reply {
            Ok(_) => r is Ok,
            Err(f) => r matches Err(e) && is_failure_of(e, RemoteOp::Cancel, f),
        },
{
    match reply {
        Ok(_) => Ok(()),
        Err(f) => Err(remote_error(RemoteOp::Cancel, f)),
    }
}

pub fn get_reply(reply: Result<APITaskStat, ApiFailure>) -> (r: Result<TaskStat, RemoteError>)
    ensures
        match reply {
            Ok(s) => r matches Ok(stat) && stat.name == s.name && stat.status == s.status
                && stat.duration == s.duration,
            Err(f) => r matches Err(e) && is_failure_of(e, RemoteOp::Get, f),
        },
{
    match reply {
        Ok(s) => Ok(TaskStat { name: s.name, status: s.status, duration: s.duration }),
        Err(f) => Err(remote_error(RemoteOp::Get, f)),
    }
}

pub open spec fn same_row(item: TaskListItem, row: APITaskListItem) -> bool {
    &&& item.name == row.name
    &&& item.duration == row.duration
    &&& item.started_at == row.started_at
    &&& item.finished_at == row.finished_at
}

pub fn list_reply(reply: Result<Vec<APITaskListItem>, ApiFailure>) -> (r: Result<
    Vec<TaskListItem>,
    RemoteError,
>)
    ensures
        match reply {
            Ok(rows) => r matches Ok(items) && items@.len() == rows@.len() && forall|k: int|
                0 <= k < rows@.len() ==> same_row(#[trigger] items@[k], rows@[k]),
            Err(f) => r matches Err(e) && is_failure_of(e, RemoteOp::List, f),
        },
{
    match reply {
        Ok(rows) => {
            let mut items: Vec<TaskListItem> = Vec::new();
            let mut i: usize = 0;
            while i < rows.len()
                invariant
                    0 <= i <= rows@.len(),
                    items@.len() == i,
                    forall|k: int| 0 <= k < i ==> same_row(#[trigger] items@[k], rows@[k]),
                decreases rows@.len() - i,
            {
                let row = &rows[i];
                items.push(
                    TaskListItem {
                        name: row.name.clone(),
                        duration: row.duration,
                        started_at: row.started_at,
                        finished_at: row.finished_at,
                    },
                );
                i = i + 1;
            }
            Ok(items)
        },
        Err(f) => Err(remote_error(RemoteOp::List, f)),
    }
}

} // verus!
