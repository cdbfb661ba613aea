use punch::errors::PunchTaskError;
use punch::github::{basic_authorization, token_check_url};
use punch::guard::{bearer_token, AuthError};
use punch::server::{
    cancel_task, finish_task, find_open_row, get_task, list_tasks, report_window,
    start_new_task, status, tasks_of_user, BaseJWTClaims, BaseTaskInfo, TaskListModelForResponse,
    TaskModel, TimeFilterInfo, SESSION_LIFETIME_SECS,
};
use punch::github::{GitHubUser, TokenPayload, TokenVerificationPayload};
use punch::listing::TaskListItem;

fn window(since: Option<i64>, until: Option<i64>) -> TimeFilterInfo {
    TimeFilterInfo { since, until }
}

fn row(id: i64, name: &str, user: &str, started_at: i64, finished_at: Option<i64>) -> TaskModel {
    TaskModel {
        id,
        name: String::from(name),
        user_github_id: String::from(user),
        started_at,
        finished_at,
    }
}

fn body(name: &str) -> BaseTaskInfo {
    BaseTaskInfo {
        name: String::from(name),
    }
}

fn rows() -> Vec<TaskModel> {
    vec![
        row(1, "write", "7", 100, Some(300)),
        row(2, "write", "7", 400, None),
        row(3, "write", "8", 0, None),
        row(4, "read", "8", 50, Some(60)),
    ]
}

#[test]
fn start_new_task_checks_user_and_name() {
    let user = String::from("7");
    assert!(matches!(
        start_new_task(&rows(), &user, &body("Write"), 500),
        Err(PunchTaskError::TaskAlreadyInProgress)
    ));
    let n = start_new_task(&rows(), &user, &body("Read"), 500).ok().unwrap();
    assert_eq!(n.name, "read");
    assert_eq!(n.user_github_id, "7");
    assert_eq!(n.started_at, 500);
}

#[test]
fn finish_task_updates_open_row() {
    let user = String::from("7");
    let m = finish_task(&rows(), &user, &body("write"), 450).ok().unwrap();
    assert_eq!(m.id, 2);
    assert_eq!(m.finished_at, Some(450));
    assert!(matches!(
        finish_task(&rows(), &user, &body("read"), 450),
        Err(PunchTaskError::InProgressTaskNotFound)
    ));
    assert!(matches!(
        finish_task(&rows(), &user, &body("write"), 399),
        Err(PunchTaskError::InternalError)
    ));
    let json = m.to_json();
    assert_eq!((json.id, json.started_at, json.finished_at), (2, 400, Some(450)));
}

#[test]
fn cancel_task_names_the_row() {
    assert_eq!(cancel_task(&rows(), &String::from("8"), &body("WRITE")), Ok(3));
    assert_eq!(
        cancel_task(&rows(), &String::from("9"), &body("write")),
        Err(PunchTaskError::InProgressTaskNotFound)
    );
    assert_eq!(find_open_row(&rows(), &String::from("7"), &String::from("write")), Some(1));
}

#[test]
fn get_task_defaults_window() {
    assert_eq!(report_window(None, None, 900), (0, i64::MAX, 900));
    assert_eq!(report_window(Some(5), Some(6), 900), (5, 6, 6));
    let s = get_task(&rows(), &String::from("7"), &String::from("Write"), &window(None, None), 500)
        .ok()
        .unwrap();
    assert_eq!(s.name, "write");
    assert_eq!(s.duration, 200 + 100);
    assert_eq!(s.status, "in progress");
    let s = get_task(&rows(), &String::from("7"), &String::from("write"), &window(Some(150), Some(350)), 500)
        .ok()
        .unwrap();
    assert_eq!(s.duration, 150);
    assert_eq!(s.status, "complete");
    assert!(matches!(
        get_task(&rows(), &String::from("9"), &String::from("write"), &window(None, None), 500),
        Err(PunchTaskError::TaskNotFound)
    ));
    let s = get_task(&rows(), &String::from("7"), &String::from("write"), &window(Some(150), None), 500)
        .ok()
        .unwrap();
    assert_eq!(s.duration, 150 + 100);
}

#[test]
fn get_task_without_until_selects_later_starts() {
    let ahead = vec![row(1, "x", "7", 10, None)];
    let s = get_task(&ahead, &String::from("7"), &String::from("x"), &window(None, None), 5)
        .ok()
        .unwrap();
    assert_eq!(s.duration, -5);
    assert_eq!(s.status, "in progress");
    let done = vec![row(1, "x", "7", 10, Some(20))];
    let s = get_task(&done, &String::from("7"), &String::from("x"), &window(None, None), 5)
        .ok()
        .unwrap();
    assert_eq!(s.duration, 10);
    assert_eq!(s.status, "complete");
    assert!(matches!(
        get_task(&done, &String::from("7"), &String::from("x"), &window(None, Some(5)), 5),
        Err(PunchTaskError::TaskNotFound)
    ));
}

#[test]
fn list_tasks_is_per_user() {
    let items = list_tasks(&rows(), &String::from("8")).ok().unwrap();
    assert_eq!(items.len(), 2);
    assert_eq!(items[0].name, "write");
    assert_eq!(items[0].duration, 0);
    assert_eq!(items[0].finished_at, None);
    assert_eq!(items[1].name, "read");
    assert_eq!(items[1].duration, 10);
    assert_eq!(items[1].finished_at, Some(60));
    assert_eq!(tasks_of_user(&rows(), &String::from("7")).len(), 2);
}

#[test]
fn status_counts_open_rows() {
    assert_eq!(status(&rows(), &String::from("7")).count, 1);
    assert_eq!(status(&rows(), &String::from("9")).count, 0);
}

#[test]
fn bearer_token_parses_header() {
    assert_eq!(bearer_token(Some("Bearer abc"), "s"), Ok(String::from("abc")));
    assert_eq!(
        bearer_token(Some("Bearer Bearer abc"), "s"),
        Ok(String::from("abc"))
    );
    assert_eq!(bearer_token(Some("Basic abc"), "s"), Err(AuthError::BadRequest));
    assert_eq!(bearer_token(Some("Bear"), "s"), Err(AuthError::BadRequest));
    assert_eq!(bearer_token(None, "s"), Err(AuthError::BadRequest));
    assert_eq!(
        bearer_token(Some("Bearer abc"), ""),
        Err(AuthError::InternalServerError)
    );
    assert_eq!(bearer_token(Some("Bearer "), "s"), Ok(String::new()));
}

#[test]
fn basic_authorization_encodes_credentials() {
    assert_eq!(basic_authorization("id", "secret"), "Basic aWQ6c2VjcmV0");
    assert_eq!(basic_authorization("ü", "x"), "Basic w7w6eA==");
    assert_eq!(basic_authorization("", ""), "Basic Og==");
    assert_eq!(
        token_check_url("abc"),
        "https://api.github.com/applications/abc/token"
    );
}

#[test]
fn basic_authorization_is_padded_base64() {
    let h = basic_authorization("ab", "cdef");
    assert_eq!(h, "Basic YWI6Y2RlZg==");
    assert_eq!(h.len() - 6, 4 * ((7 + 2) / 3));
}

#[test]
fn session_claims_expire_after_a_year() {
    let user = TokenPayload {
        user: GitHubUser { id: 42 },
        token: String::from("gho"),
    };
    let c = BaseJWTClaims::issued(user, 1_000).unwrap();
    assert_eq!(c.iat, 1_000);
    assert_eq!(c.exp, 1_000 + 31_556_926);
    assert_eq!(c.claim.user.id, 42);
    assert_eq!(SESSION_LIFETIME_SECS, 31_556_926);
    assert!(BaseJWTClaims::issued(0u8, u64::MAX - 5).is_none());
}

#[test]
fn payload_conversions_keep_fields() {
    assert_eq!(TokenVerificationPayload::new("tok").access_token, "tok");
    let r = TaskListModelForResponse::from_item(TaskListItem {
        name: String::from("n"),
        duration: 3,
        started_at: 4,
        finished_at: Some(7),
    });
    assert_eq!((r.name.as_str(), r.duration, r.started_at, r.finished_at), ("n", 3, 4, Some(7)));
}
