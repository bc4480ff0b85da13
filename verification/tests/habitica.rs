use todoproxy::habitica_integration::client::{
    request_succeeded, Direction, HabiticaClient, HabiticaError, HttpMethod, RequestBody,
};
use todoproxy::task_updates::HabiticaCall;

fn client() -> HabiticaClient {
    HabiticaClient::new("auth".into(), "script".into(), "user".into(), "key".into())
}

fn pair(a: &str, b: &str) -> (String, String) {
    (a.to_string(), b.to_string())
}

#[test]
fn headers_identify_client_and_user() {
    assert_eq!(
        client().construct_headers(),
        vec![pair("x-client", "auth-script"), pair("x-api-user", "user"), pair("x-api-key", "key")]
    );
}

#[test]
fn user_tasks_request() {
    let r = client().get_user_tasks_request();
    assert_eq!(r.method, HttpMethod::Get);
    assert_eq!(r.url, "https://habitica.com/api/v3/tasks/user");
    assert_eq!(r.headers.len(), 3);
    assert!(matches!(r.body, RequestBody::Empty));
}

#[test]
fn score_requests() {
    let r = client().score_task_request("t1".into(), Direction::Up);
    assert_eq!(r.method, HttpMethod::Post);
    assert_eq!(r.url, "https://habitica.com/api/v3/tasks/t1/score/up");
    let r = client().score_task_request("t1".into(), Direction::Down);
    assert_eq!(r.url, "https://habitica.com/api/v3/tasks/t1/score/down");
}

#[test]
fn update_request_carries_text() {
    let r = client().update_task_request("t2".into(), "new text".into());
    assert_eq!(r.method, HttpMethod::Put);
    assert_eq!(r.url, "https://habitica.com/api/v3/tasks/t2");
    match r.body {
        RequestBody::TaskText(t) => assert_eq!(t, "new text"),
        _ => panic!("expected a text body"),
    }
}

#[test]
fn move_request_renders_location() {
    let r = client().move_task_request("t3".into(), 12);
    assert_eq!(r.method, HttpMethod::Post);
    assert_eq!(r.url, "https://habitica.com/api/v3/tasks/t3/move/to/12");
    let r = client().move_task_request("t3".into(), -1);
    assert_eq!(r.url, "https://habitica.com/api/v3/tasks/t3/move/to/-1");
    let r = client().move_task_request("t3".into(), 0);
    assert_eq!(r.url, "https://habitica.com/api/v3/tasks/t3/move/to/0");
}

#[test]
fn get_delete_insert_requests() {
    let r = client().get_task_request("t4".into());
    assert_eq!((r.method, r.url.as_str()), (HttpMethod::Get, "https://habitica.com/api/v3/tasks/t4"));
    let r = client().delete_task_request("t5".into());
    assert_eq!((r.method, r.url.as_str()), (HttpMethod::Delete, "https://habitica.com/api/v3/tasks/t5"));
    let r = client().insert_todo_request("t6".into(), "do it".into());
    assert_eq!((r.method, r.url.as_str()), (HttpMethod::Post, "https://habitica.com/api/v3/tasks/user"));
    match r.body {
        RequestBody::NewTodo { text, alias } => assert_eq!((text.as_str(), alias.as_str()), ("do it", "t6")),
        _ => panic!("expected a new to-do body"),
    }
}

#[test]
fn call_becomes_its_request() {
    let r = HabiticaCall::MoveTask { id: "m".into(), location: 3 }.to_request(&client());
    assert_eq!(r.url, "https://habitica.com/api/v3/tasks/m/move/to/3");
    let r = HabiticaCall::ScoreTask { id: "s".into(), direction: Direction::Up }.to_request(&client());
    assert_eq!(r.url, "https://habitica.com/api/v3/tasks/s/score/up");
    let r = HabiticaCall::DeleteTask { id: "d".into() }.to_request(&client());
    assert_eq!(r.method, HttpMethod::Delete);
}

#[test]
fn only_200_is_success() {
    assert!(request_succeeded(200));
    assert!(!request_succeeded(201));
    assert!(!request_succeeded(404));
    assert!(!request_succeeded(500));
}

#[test]
fn direction_text() {
    assert_eq!(Direction::Up.to_string(), "up");
    assert_eq!(Direction::Down.to_string(), "down");
}

#[test]
fn unsuccessful_error_text() {
    let e = HabiticaError::UnsuccessfulRequest(404, "not found".into());
    assert_eq!(e.to_string(), "habitica (404): not found");
    let e = HabiticaError::UnsuccessfulRequest(0, String::new());
    assert_eq!(e.to_string(), "habitica (0): ");
}

#[test]
fn transport_error_text_and_conversion() {
    let err = reqwest::Client::new().get("not a url").build().unwrap_err();
    let expected = format!("habitica: {}", err);
    let e: HabiticaError = HabiticaError::from(err);
    assert!(matches!(e, HabiticaError::ReqwestError(_)));
    assert_eq!(e.to_string(), expected);
}
