use punch::api::{
    cancel_reply, get_reply, list_reply, punch_in_reply, punch_out_reply, request_for,
    success_status, APITaskInfo, APITaskListItem, APITaskStat, ApiFailure, HttpMethod, RemoteOp,
};
use punch::auth::{AppConfigs, AuthManager};
use punch::errors::{PunchTaskError, RemoteError};
use punch::listing::{aggregate_by_name, TaskListItem};
use punch::puncher::{Dispatch, Puncher};
use punch::store::TaskStore;
use punch::task::{NewTask, Task};
use punch::window::{task_report, TaskStat};

fn configs() -> AppConfigs {
    AppConfigs {
        api_endpoint: String::from("https://punch.example"),
        gh_auth_scope: String::from("read:user"),
    }
}

fn local_puncher() -> Puncher {
    Puncher::new(AuthManager::new(None, None), configs(), TaskStore::new())
}

fn remote_puncher() -> Puncher {
    Puncher::new(
        AuthManager::new(Some(String::from("tok")), Some(204)),
        configs(),
        TaskStore::new(),
    )
}

fn done<T>(d: Dispatch<T>) -> Result<T, PunchTaskError> {
    match d {
        Dispatch::Done(r) => r,
        Dispatch::Remote(_) => panic!("expected a local result"),
    }
}

fn task(id: i32, name: &str, started_at: i64, finished_at: Option<i64>) -> Task {
    Task {
        id,
        name: String::from(name),
        started_at,
        finished_at,
    }
}

fn stat(r: Result<TaskStat, PunchTaskError>) -> TaskStat {
    match r {
        Ok(s) => s,
        Err(e) => panic!("unexpected error {:?}", e),
    }
}

fn items(r: Result<Vec<TaskListItem>, PunchTaskError>) -> Vec<TaskListItem> {
    match r {
        Ok(v) => v,
        Err(e) => panic!("unexpected error {:?}", e),
    }
}

#[test]
fn writing_scenario() {
    let mut p = local_puncher();
    assert_eq!(done(p.punch_in_at("writing", 1000)), Ok(1000));
    let t = done(p.punch_out_at("writing", 1500)).unwrap();
    assert_eq!(t.name, "writing");
    assert_eq!(t.started_at, 1000);
    assert_eq!(t.finished_at, Some(1500));
    let s = stat(done(p.get("writing", 0, 2000)));
    assert_eq!(s.name, "writing");
    assert_eq!(s.duration, 500);
    assert_eq!(s.status, "complete");
}

#[test]
fn second_punch_in_fails() {
    let mut p = local_puncher();
    assert_eq!(done(p.punch_in_at("reading", 10)), Ok(10));
    assert_eq!(
        done(p.punch_in_at("reading", 20)),
        Err(PunchTaskError::TaskAlreadyInProgress)
    );
    assert_eq!(p.store.tasks().len(), 1);
}

#[test]
fn punch_in_normalizes_case() {
    let mut p = local_puncher();
    assert_eq!(done(p.punch_in_at("Writing", 10)), Ok(10));
    assert_eq!(p.store.tasks()[0].name, "writing");
    assert_eq!(
        done(p.punch_in_at("WRITING", 20)),
        Err(PunchTaskError::TaskAlreadyInProgress)
    );
}

#[test]
fn punch_out_without_task_fails() {
    let mut p = local_puncher();
    assert_eq!(
        done(p.punch_out_at("idle", 5)).map(|t| t.id),
        Err(PunchTaskError::InProgressTaskNotFound)
    );
    assert_eq!(done(p.punch_in_at("idle", 5)), Ok(5));
    assert!(done(p.punch_out_at("idle", 9)).is_ok());
    assert_eq!(
        done(p.punch_out_at("idle", 12)).map(|t| t.id),
        Err(PunchTaskError::InProgressTaskNotFound)
    );
}

#[test]
fn punch_out_before_start_is_refused() {
    let mut p = local_puncher();
    assert_eq!(done(p.punch_in_at("late", 100)), Ok(100));
    assert_eq!(
        done(p.punch_out_at("late", 99)).map(|t| t.id),
        Err(PunchTaskError::InternalError)
    );
    assert_eq!(p.store.tasks()[0].finished_at, None);
}

#[test]
fn cancel_then_punch_in_succeeds() {
    let mut p = local_puncher();
    assert_eq!(done(p.punch_in_at("chores", 10)), Ok(10));
    assert_eq!(done(p.cancel("chores")), Ok(()));
    assert_eq!(p.store.tasks().len(), 0);
    assert_eq!(done(p.punch_in_at("chores", 30)), Ok(30));
}

#[test]
fn cancel_without_task_fails() {
    let mut p = local_puncher();
    assert_eq!(
        done(p.cancel("nothing")),
        Err(PunchTaskError::InProgressTaskNotFound)
    );
}

#[test]
fn cancel_keeps_finished_records() {
    let mut p = local_puncher();
    assert_eq!(done(p.punch_in_at("gym", 10)), Ok(10));
    assert!(done(p.punch_out_at("gym", 20)).is_ok());
    assert_eq!(done(p.punch_in_at("gym", 30)), Ok(30));
    assert_eq!(done(p.cancel("gym")), Ok(()));
    assert_eq!(p.store.tasks().len(), 1);
    assert_eq!(p.store.tasks()[0].finished_at, Some(20));
}

#[test]
fn get_whole_task_in_window() {
    let tasks = vec![task(1, "a", 100, Some(250)), task(2, "b", 0, Some(1000))];
    let s = stat(task_report(&tasks, &String::from("a"), 50, 300));
    assert_eq!(s.duration, 150);
    assert_eq!(s.status, "complete");
}

#[test]
fn get_clipped_at_since() {
    let tasks = vec![task(1, "a", 100, Some(250))];
    let s = stat(task_report(&tasks, &String::from("a"), 180, 300));
    assert_eq!(s.duration, 70);
    assert_eq!(s.status, "complete");
}

#[test]
fn get_clipped_at_until() {
    let tasks = vec![task(1, "a", 100, Some(250))];
    let s = stat(task_report(&tasks, &String::from("a"), 0, 200));
    assert_eq!(s.duration, 100);
}

#[test]
fn get_in_progress_up_to_now() {
    let tasks = vec![task(1, "a", 100, None)];
    let s = stat(task_report(&tasks, &String::from("a"), 0, 400));
    assert_eq!(s.duration, 300);
    assert_eq!(s.status, "in progress");
    let s = stat(task_report(&tasks, &String::from("a"), 150, 400));
    assert_eq!(s.duration, 250);
    assert_eq!(s.status, "in progress");
}

#[test]
fn get_sums_several_records() {
    let tasks = vec![
        task(1, "a", 0, Some(10)),
        task(2, "a", 20, Some(50)),
        task(3, "a", 60, None),
        task(4, "b", 0, Some(100)),
    ];
    let s = stat(task_report(&tasks, &String::from("a"), 5, 70));
    assert_eq!(s.duration, 5 + 30 + 10);
    assert_eq!(s.status, "in progress");
}

#[test]
fn get_without_overlap_is_not_found() {
    let tasks = vec![task(1, "a", 100, Some(200))];
    assert!(matches!(
        task_report(&tasks, &String::from("a"), 300, 400),
        Err(PunchTaskError::TaskNotFound)
    ));
    assert!(matches!(
        task_report(&tasks, &String::from("z"), 0, 400),
        Err(PunchTaskError::TaskNotFound)
    ));
    assert!(matches!(
        task_report(&Vec::new(), &String::from("a"), 0, 400),
        Err(PunchTaskError::TaskNotFound)
    ));
}

#[test]
fn get_with_reversed_window_is_negative() {
    let tasks = vec![task(1, "a", 100, Some(400))];
    let s = stat(task_report(&tasks, &String::from("a"), 300, 200));
    assert_eq!(s.duration, -100);
}

#[test]
fn get_total_beyond_i64_fails() {
    let tasks = vec![
        task(1, "a", 0, Some(i64::MAX)),
        task(2, "a", 0, Some(i64::MAX)),
    ];
    assert!(matches!(
        task_report(&tasks, &String::from("a"), 0, i64::MAX),
        Err(PunchTaskError::InternalError)
    ));
}

#[test]
fn list_counts_finished_time_only() {
    let mut p = local_puncher();
    assert_eq!(done(p.punch_in_at("a", 0)), Ok(0));
    assert!(done(p.punch_out_at("a", 10)).is_ok());
    assert_eq!(done(p.punch_in_at("b", 5)), Ok(5));
    assert!(done(p.punch_out_at("b", 25)).is_ok());
    assert_eq!(done(p.punch_in_at("a", 30)), Ok(30));
    let rows = items(done(p.list()));
    assert_eq!(rows.len(), 2);
    assert_eq!(rows[0].name, "a");
    assert_eq!(rows[0].duration, 10);
    assert_eq!(rows[0].started_at, 30);
    assert_eq!(rows[0].finished_at, None);
    assert_eq!(rows[1].name, "b");
    assert_eq!(rows[1].duration, 20);
    assert_eq!(rows[1].started_at, 5);
    assert_eq!(rows[1].finished_at, Some(25));
}

#[test]
fn list_of_only_unfinished_has_zero_duration() {
    let tasks = vec![task(1, "a", 7, None)];
    let rows = items(aggregate_by_name(&tasks));
    assert_eq!(rows.len(), 1);
    assert_eq!(rows[0].duration, 0);
    assert_eq!(rows[0].started_at, 7);
    assert_eq!(rows[0].finished_at, None);
}

#[test]
fn list_latest_finish_when_all_finished() {
    let tasks = vec![task(1, "a", 0, Some(40)), task(2, "a", 10, Some(20))];
    let rows = items(aggregate_by_name(&tasks));
    assert_eq!(rows.len(), 1);
    assert_eq!(rows[0].duration, 50);
    assert_eq!(rows[0].started_at, 10);
    assert_eq!(rows[0].finished_at, Some(40));
}

#[test]
fn list_of_empty_store_is_empty() {
    assert!(items(aggregate_by_name(&Vec::new())).is_empty());
}

#[test]
fn list_total_beyond_i64_fails() {
    let tasks = vec![task(1, "a", 0, Some(i64::MAX)), task(2, "a", 0, Some(1))];
    assert!(matches!(
        aggregate_by_name(&tasks),
        Err(PunchTaskError::InternalError)
    ));
}

#[test]
fn insert_then_find_round_trip() {
    let mut s = TaskStore::new();
    let t = s
        .insert(NewTask {
            name: String::from("x"),
            started_at: 3,
        })
        .unwrap();
    let found = s.find_unfinished(&String::from("x")).unwrap();
    assert_eq!(found.id, t.id);
    assert_eq!(found.started_at, 3);
    assert_eq!(found.finished_at, None);
    let f = s.update_finish(t.id, 8).unwrap();
    assert_eq!(f.finished_at, Some(8));
    assert!(s.find_unfinished(&String::from("x")).is_none());
}

#[test]
fn insert_assigns_increasing_ids() {
    let mut s = TaskStore::new();
    let a = s
        .insert(NewTask {
            name: String::from("a"),
            started_at: 1,
        })
        .unwrap();
    let b = s
        .insert(NewTask {
            name: String::from("b"),
            started_at: 2,
        })
        .unwrap();
    assert_eq!(a.id, 1);
    assert_eq!(b.id, 2);
}

#[test]
fn update_and_delete_unknown_id_fail() {
    let mut s = TaskStore::new();
    assert!(matches!(
        s.update_finish(7, 1),
        Err(PunchTaskError::InProgressTaskNotFound)
    ));
    assert_eq!(s.delete(7), Err(PunchTaskError::InProgressTaskNotFound));
}

#[test]
fn ids_used_up_fail_insert() {
    let rows = vec![task(i32::MAX, "a", 0, Some(1))];
    let mut s = TaskStore::from_tasks(rows).unwrap();
    assert!(matches!(
        s.insert(NewTask {
            name: String::from("b"),
            started_at: 2,
        }),
        Err(PunchTaskError::InternalError)
    ));
}

#[test]
fn from_tasks_checks_records() {
    assert!(TaskStore::from_tasks(vec![task(1, "a", 0, None), task(2, "b", 0, None)]).is_ok());
    assert!(matches!(
        TaskStore::from_tasks(vec![task(1, "a", 0, None), task(2, "a", 5, None)]),
        Err(PunchTaskError::InternalError)
    ));
    assert!(matches!(
        TaskStore::from_tasks(vec![task(1, "a", 0, Some(1)), task(1, "b", 5, None)]),
        Err(PunchTaskError::InternalError)
    ));
    assert!(matches!(
        TaskStore::from_tasks(vec![task(1, "a", 10, Some(5))]),
        Err(PunchTaskError::InternalError)
    ));
    let mut s = TaskStore::from_tasks(vec![task(4, "a", 0, Some(1))]).unwrap();
    let t = s
        .insert(NewTask {
            name: String::from("a"),
            started_at: 2,
        })
        .unwrap();
    assert_eq!(t.id, 5);
}

#[test]
fn remote_mode_builds_requests() {
    let mut p = remote_puncher();
    match p.punch_in_at("Writing", 1000) {
        Dispatch::Remote(req) => {
            assert_eq!(req.method, HttpMethod::Post);
            assert_eq!(req.url, "https://punch.example/punch/in");
            assert_eq!(req.bearer, Some(String::from("tok")));
            assert_eq!(req.body.unwrap().name, "writing");
            assert_eq!(req.window, None);
        }
        Dispatch::Done(_) => panic!("expected a request"),
    }
    assert_eq!(p.store.tasks().len(), 0);
    match p.get("writing", 5, 9) {
        Dispatch::Remote(req) => {
            assert_eq!(req.method, HttpMethod::Get);
            assert_eq!(req.url, "https://punch.example/punch/get/writing");
            assert!(req.body.is_none());
            assert_eq!(req.window, Some((5, 9)));
        }
        Dispatch::Done(_) => panic!("expected a request"),
    }
    match p.list() {
        Dispatch::Remote(req) => {
            assert_eq!(req.method, HttpMethod::Get);
            assert_eq!(req.url, "https://punch.example/punch/list");
        }
        Dispatch::Done(_) => panic!("expected a request"),
    }
    match p.cancel("x") {
        Dispatch::Remote(req) => assert_eq!(req.url, "https://punch.example/punch/cancel"),
        Dispatch::Done(_) => panic!("expected a request"),
    }
    match p.punch_out("x") {
        Dispatch::Remote(req) => assert_eq!(req.url, "https://punch.example/punch/out"),
        Dispatch::Done(_) => panic!("expected a request"),
    }
}

#[test]
fn request_for_list_names_no_task() {
    let req = request_for(
        &String::from("http://h"),
        &String::from("t"),
        RemoteOp::List,
        &String::from("ignored"),
        1,
        2,
    );
    assert_eq!(req.url, "http://h/punch/list");
    assert!(req.body.is_none());
    assert_eq!(req.window, None);
}

#[test]
fn rejected_credential_means_local_mode() {
    let mut p = Puncher::new(
        AuthManager::new(Some(String::from("tok")), Some(401)),
        configs(),
        TaskStore::new(),
    );
    assert_eq!(done(p.punch_in_at("a", 1)), Ok(1));
    assert_eq!(p.auth_manager.get_access_token(), None);
    let unreachable = AuthManager::new(Some(String::from("tok")), None);
    assert_eq!(unreachable.get_access_token(), None);
    let accepted = AuthManager::new(Some(String::from("tok")), Some(204));
    assert_eq!(accepted.get_access_token(), Some(String::from("tok")));
}

#[test]
fn verify_login_answers() {
    let a = AuthManager::new(None, None);
    assert!(a.verify_login(Ok(204)).is_ok());
    assert_eq!(
        a.verify_login(Ok(401)).unwrap_err().message,
        "the token is not valid"
    );
    assert_eq!(
        a.verify_login(Err(String::from("timed out"))).unwrap_err().message,
        "failed to verify the token timed out"
    );
    let req = AuthManager::verification_request(&configs(), &String::from("tok"));
    assert_eq!(req.url, "https://punch.example/auth/verify");
    assert_eq!(req.method, HttpMethod::Post);
}

fn failure(status: Option<u16>) -> ApiFailure {
    ApiFailure {
        status,
        message: String::from("boom"),
    }
}

fn failed_with<T>(r: Result<T, RemoteError>, kind: PunchTaskError, message: &str) -> bool {
    match r {
        Ok(_) => false,
        Err(e) => e.kind == kind && e.message == message,
    }
}

#[test]
fn remote_replies_map_to_results() {
    let info = APITaskInfo {
        id: 3,
        name: String::from("w"),
        started_at: 10,
        finished_at: Some(20),
    };
    assert_eq!(punch_in_reply(Ok(info)).ok(), Some(10));
    assert!(failed_with(
        punch_in_reply(Err(failure(Some(400)))),
        PunchTaskError::TaskAlreadyInProgress,
        "boom"
    ));
    assert!(failed_with(
        punch_in_reply(Err(failure(None))),
        PunchTaskError::InternalError,
        "boom"
    ));
    assert!(failed_with(
        punch_in_reply(Err(failure(Some(401)))),
        PunchTaskError::AuthInvalid,
        "boom"
    ));
    let t = punch_out_reply(Ok(APITaskInfo {
        id: 3,
        name: String::from("w"),
        started_at: 10,
        finished_at: Some(20),
    }))
    .ok()
    .unwrap();
    assert_eq!((t.id, t.started_at, t.finished_at), (3, 10, Some(20)));
    assert!(failed_with(
        punch_out_reply(Ok(APITaskInfo {
            id: i64::MAX,
            name: String::from("w"),
            started_at: 10,
            finished_at: None,
        })),
        PunchTaskError::InternalError,
        "the task id is out of range"
    ));
    assert!(failed_with(
        punch_out_reply(Err(failure(Some(400)))),
        PunchTaskError::InProgressTaskNotFound,
        "boom"
    ));
    assert!(cancel_reply(Ok(())).is_ok());
    assert!(failed_with(
        cancel_reply(Err(failure(Some(400)))),
        PunchTaskError::InProgressTaskNotFound,
        "boom"
    ));
    let s = get_reply(Ok(APITaskStat {
        name: String::from("w"),
        status: String::from("complete"),
        duration: 42,
    }))
    .ok()
    .unwrap();
    assert_eq!((s.name.as_str(), s.status.as_str(), s.duration), ("w", "complete", 42));
    assert!(failed_with(
        get_reply(Err(failure(Some(404)))),
        PunchTaskError::TaskNotFound,
        "boom"
    ));
    assert!(failed_with(
        get_reply(Err(failure(Some(500)))),
        PunchTaskError::InternalError,
        "boom"
    ));
    let rows = list_reply(Ok(vec![APITaskListItem {
        name: String::from("w"),
        duration: 5,
        started_at: 1,
        finished_at: None,
    }]))
    .ok()
    .unwrap();
    assert_eq!(rows.len(), 1);
    assert_eq!((rows[0].duration, rows[0].started_at, rows[0].finished_at), (5, 1, None));
    assert!(failed_with(
        list_reply(Err(failure(Some(503)))),
        PunchTaskError::InternalError,
        "boom"
    ));
    assert_eq!(success_status(RemoteOp::Cancel), 204);
    assert_eq!(success_status(RemoteOp::Get), 200);
}

#[test]
fn cancel_keeps_ids_for_next_punch_in() {
    let mut p = local_puncher();
    assert_eq!(done(p.punch_in_at("a", 1)), Ok(1));
    assert_eq!(done(p.cancel("a")), Ok(()));
    assert_eq!(done(p.punch_in_at("a", 2)), Ok(2));
    assert_eq!(p.store.tasks()[0].id, 2);
}

#[test]
fn duplicate_punch_in_reported_before_clock() {
    let mut p = local_puncher();
    assert_eq!(done(p.punch_in_at("dup", 1)), Ok(1));
    assert_eq!(
        done(p.punch_in("dup")),
        Err(PunchTaskError::TaskAlreadyInProgress)
    );
    assert_eq!(
        done(p.punch_out("none")).map(|t| t.id),
        Err(PunchTaskError::InProgressTaskNotFound)
    );
}

#[test]
fn status_codes_of_errors() {
    assert_eq!(PunchTaskError::InternalError.status_code(), 500);
    assert_eq!(PunchTaskError::TaskAlreadyInProgress.status_code(), 400);
    assert_eq!(PunchTaskError::InProgressTaskNotFound.status_code(), 400);
    assert_eq!(PunchTaskError::TaskNotFound.status_code(), 404);
    assert_eq!(PunchTaskError::AuthInvalid.status_code(), 401);
}

#[test]
fn clock_reads_after_epoch() {
    assert!(punch::clock::get_now_ts().is_ok());
    let now = punch::clock::now_secs().unwrap();
    assert!(now > 1_600_000_000);
}

#[test]
fn epoch_secs_fits_i64() {
    assert_eq!(punch::clock::epoch_secs(1_700_000_000), Some(1_700_000_000));
    assert_eq!(punch::clock::epoch_secs(i64::MAX as u64), Some(i64::MAX));
    assert_eq!(punch::clock::epoch_secs(i64::MAX as u64 + 1), None);
}

#[test]
fn punch_in_with_clock_uses_now() {
    let mut p = local_puncher();
    let before = punch::clock::now_secs().unwrap();
    let started = done(p.punch_in("clocked")).unwrap();
    assert!(started >= before);
    let t = done(p.punch_out("clocked")).unwrap();
    assert!(t.finished_at.unwrap() >= started);
}
