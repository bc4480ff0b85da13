//! Requests to the Habitica task service and the errors it answers with.
//!
//! The library builds each request (method, address, headers and body) and
//! judges each response by its status; sending them is left to the caller.

use crate::utils::{i64_to_decimal, int_decimal, u16_to_decimal};
use std::collections::HashMap;
use vstd::prelude::*;

verus! {

#[verifier::external_type_specification]
#[verifier::external_body]
pub struct ExReqwestError(reqwest::Error);

/// The credentials and client identification used for every Habitica request.
#[derive(Clone, Debug)]
pub struct HabiticaClient {
    author_id: String,
    script_name: String,
    api_user_id: String,
    api_key: String,
}

pub struct HabiticaClientView {
    pub author_id: Seq<char>,
    pub script_name: Seq<char>,
    pub api_user_id: Seq<char>,
    pub api_key: Seq<char>,
}

impl View for HabiticaClient {
    type V = HabiticaClientView;

    closed spec fn view(&self) -> HabiticaClientView {
        HabiticaClientView {
            author_id: self.author_id@,
            script_name: self.script_name@,
            api_user_id: self.api_user_id@,
            api_key: self.api_key@,
        }
    }
}

/// Which way a task is scored: `up` completes it, `down` undoes that.
#[derive(Clone, Copy, Debug, PartialEq, Eq, Structural)]
pub enum Direction {
    Up,
    Down,
}

pub open spec fn direction_text(d: Direction) -> Seq<char> {
    match d {
        Direction::Up => "up"@,
        Direction::Down => "down"@,
    }
}

impl Direction {
    /// The text of the direction as it appears in a request address.
    pub fn to_string(&self) -> (r: String)
        ensures
            r@ == direction_text(*self),
    {
        match self {
            Direction::Up => String::from_str("up"),
            Direction::Down => String::from_str("down"),
        }
    }
}

/// A Habitica task as the service returns it.
#[derive(Clone, Debug, PartialEq)]
pub struct Task {
    pub id: String,
    pub text: Option<String>,
    pub frequency: Option<String>,
    pub task_type: Option<String>,
    pub notes: Option<String>,
    pub repeat: Option<TaskRepeat>,
    pub every_x: Option<i64>,
    pub next_due: Option<Vec<String>>,
    pub completed: Option<bool>,
    pub is_due: Option<bool>,
    pub checklist: Option<TaskCheckList>,
}

/// The weekdays on which a task repeats.
#[derive(Clone, Debug, PartialEq)]
pub struct TaskRepeat {
    pub days: HashMap<String, bool>,
}

/// The checklist of a task.
#[derive(Clone, Debug, PartialEq)]
pub struct TaskCheckList {
    pub list: Vec<TaskCheckListItem>,
}

/// One item of a checklist.
#[derive(Clone, Debug, PartialEq)]
pub struct TaskCheckListItem {
    pub completed: bool,
    pub text: String,
    pub id: String,
}

/// Why a Habitica request failed: the transport failed, or the service
/// answered with a status other than success, with the answer's text.
#[derive(Debug)]
pub enum HabiticaError {
    ReqwestError(reqwest::Error),
    UnsuccessfulRequest(u16, String),
}

impl From<reqwest::Error> for HabiticaError {
    fn from(value: reqwest::Error) -> (r: Self) {
        HabiticaError::ReqwestError(value)
    }
}

impl vstd::std_specs::convert::FromSpecImpl<reqwest::Error> for HabiticaError {
    open spec fn obeys_from_spec() -> bool {
        true
    }

    open spec fn from_spec(v: reqwest::Error) -> Self {
        HabiticaError::ReqwestError(v)
    }
}

/// `Display` of `reqwest::Error`: its message. Nothing is claimed of the text.
#[verifier::external_body]
fn reqwest_error_text(e: &reqwest::Error) -> String {
    e.to_string()
}

/// The display text of an unsuccessful answer.
pub open spec fn unsuccessful_text(status: u16, text: Seq<char>) -> Seq<char> {
    "habitica ("@ + int_decimal(status as int) + "): "@ + text
}

impl HabiticaError {
    /// The display text of the error: `habitica: <transport error>` or
    /// `habitica (<status>): <answer>`.
    pub fn to_string(&self) -> (r: String)
        ensures
            match self {
                HabiticaError::ReqwestError(_) => "habitica: "@.is_prefix_of(r@),
                HabiticaError::UnsuccessfulRequest(status, text) => r@ == unsuccessful_text(
                    *status,
                    text@,
                ),
            },
    {
        match self {
            HabiticaError::ReqwestError(e) => {
                let mut r = String::from_str("habitica: ");
                r.append(reqwest_error_text(e).as_str());
                r
            },
            HabiticaError::UnsuccessfulRequest(status, text) => {
                let mut r = String::from_str("habitica (");
                r.append(u16_to_decimal(*status).as_str());
                r.append("): ");
                r.append(text.as_str());
                r
            },
        }
    }
}

/// The HTTP method of a request.
#[derive(Clone, Copy, Debug, PartialEq, Eq, Structural)]
pub enum HttpMethod {
    Get,
    Post,
    Put,
    Delete,
}

/// The JSON body of a request.
#[derive(Clone, Debug)]
pub enum RequestBody {
    /// No body.
    Empty,
    /// `{"text": <text>}`: the new text of a task.
    TaskText(String),
    /// `{"text": <text>, "type": "todo", "alias": <alias>}`: a new to-do.
    NewTodo { text: String, alias: String },
}

pub enum RequestBodyView {
    Empty,
    TaskText(Seq<char>),
    NewTodo { text: Seq<char>, alias: Seq<char> },
}

impl View for RequestBody {
    type V = RequestBodyView;

    open spec fn view(&self) -> RequestBodyView {
        match self {
            RequestBody::Empty => RequestBodyView::Empty,
            RequestBody::TaskText(t) => RequestBodyView::TaskText(t@),
            RequestBody::NewTodo { text, alias } => RequestBodyView::NewTodo {
                text: text@,
                alias: alias@,
            },
        }
    }
}

/// A request to the Habitica service, ready to be sent.
#[derive(Clone, Debug)]
pub struct HabiticaRequest {
    pub method: HttpMethod,
    pub url: String,
    pub headers: Vec<(String, String)>,
    pub body: RequestBody,
}

pub struct HabiticaRequestView {
    pub method: HttpMethod,
    pub url: Seq<char>,
    pub headers: Seq<(Seq<char>, Seq<char>)>,
    pub body: RequestBodyView,
}

pub open spec fn pairs_view(v: Seq<(String, String)>) -> Seq<(Seq<char>, Seq<char>)> {
    v.map_values(|p: (String, String)| (p.0@, p.1@))
}

impl View for HabiticaRequest {
    type V = HabiticaRequestView;

    open spec fn view(&self) -> HabiticaRequestView {
        HabiticaRequestView {
            method: self.method,
            url: self.url@,
            headers: pairs_view(self.headers@),
            body: self.body@,
        }
    }
}

/// The headers that identify the client and authenticate the user.
pub open spec fn headers_spec(c: HabiticaClientView) -> Seq<(Seq<char>, Seq<char>)> {
    seq![
        ("x-client"@, c.author_id + "-"@ + c.script_name),
        ("x-api-user"@, c.api_user_id),
        ("x-api-key"@, c.api_key),
    ]
}

/// The address of all tasks of the user.
pub open spec fn user_tasks_url() -> Seq<char> {
    "https://habitica.com/api/v3/tasks/user"@
}

/// The address of one task.
pub open spec fn task_url(task_id: Seq<char>) -> Seq<char> {
    "https://habitica.com/api/v3/tasks/"@ + task_id
}

/// A request with the client's headers.
pub open spec fn request_spec(
    c: HabiticaClientView,
    method: HttpMethod,
    url: Seq<char>,
    body: RequestBodyView,
) -> HabiticaRequestView {
    HabiticaRequestView { method, url, headers: headers_spec(c), body }
}

/// Whether an answer with this status is a success: only `200` is.
pub open spec fn is_success(status: u16) -> bool {
    status == 200
}

/// Whether an answer with this status is a success: only `200` is.
pub fn request_succeeded(status: u16) -> (r: bool)
    ensures
        r == is_success(status),
        r == (status == 200),
{
    status == 200
}

/// The error that an answer with this status and text stands for: none for a
/// success, otherwise an unsuccessful request carrying both.
pub fn answer_error(status: u16, text: String) -> (r: Option<HabiticaError>)
    ensures
        is_success(status) ==> r is None,
        !is_success(status) ==> r == Some(HabiticaError::UnsuccessfulRequest(status, text)),
        status == 200 ==> r is None,
        status != 200 ==> r == Some(HabiticaError::UnsuccessfulRequest(status, text)),
{
    if request_succeeded(status) {
        None
    } else {
        Some(HabiticaError::UnsuccessfulRequest(status, text))
    }
}

impl HabiticaClient {
    /// A client for the given script author, script and Habitica user.
    pub fn new(author_id: String, script_name: String, api_user_id: String, api_key: String) -> (r:
        Self)
        ensures
            r@ == (HabiticaClientView {
                author_id: author_id@,
                script_name: script_name@,
                api_user_id: api_user_id@,
                api_key: api_key@,
            }),
    {
        HabiticaClient { author_id, script_name, api_user_id, api_key }
    }

    /// The identification and authentication headers of every request:
    /// `x-client: <author>-<script>`, `x-api-user` and `x-api-key`.
    pub fn construct_headers(&self) -> (r: Vec<(String, String)>)
        ensures
            pairs_view(r@) == headers_spec(self@),
    {
        let mut client = self.author_id.clone();
        client.append("-");
        client.append(self.script_name.as_str());
        let mut headers: Vec<(String, String)> = Vec::new();
        headers.push((String::from_str("x-client"), client));
        headers.push((String::from_str("x-api-user"), self.api_user_id.clone()));
        headers.push((String::from_str("x-api-key"), self.api_key.clone()));
        assert(pairs_view(headers@) =~= headers_spec(self@));
        headers
    }

    fn task_address(task_id: &String) -> (r: String)
        ensures
            r@ == task_url(task_id@),
    {
        let mut url = String::from_str("https://habitica.com/api/v3/tasks/");
        url.append(task_id.as_str());
        url
    }

    /// The request for all tasks of the user.
    pub fn get_user_tasks_request(&self) -> (r: HabiticaRequest)
        ensures
            r@ == request_spec(self@, HttpMethod::Get, user_tasks_url(), RequestBodyView::Empty),
    {
        HabiticaRequest {
            method: HttpMethod::Get,
            url: String::from_str("https://habitica.com/api/v3/tasks/user"),
            headers: self.construct_headers(),
            body: RequestBody::Empty,
        }
    }

    /// The request that scores a task up (completes it) or down.
    pub fn score_task_request(&self, task_id: String, direction: Direction) -> (r: HabiticaRequest)
        ensures
            r@ == request_spec(
                self@,
                HttpMethod::Post,
                task_url(task_id@) + "/score/"@ + direction_text(direction),
                RequestBodyView::Empty,
            ),
    {
        let mut url = Self::task_address(&task_id);
        url.append("/score/");
        url.append(direction.to_string().as_str());
        HabiticaRequest {
            method: HttpMethod::Post,
            url,
            headers: self.construct_headers(),
            body: RequestBody::Empty,
        }
    }

    /// The request that sets the text of a task.
    pub fn update_task_request(&self, task_id: String, text: String) -> (r: HabiticaRequest)
        ensures
            r@ == request_spec(
                self@,
                HttpMethod::Put,
                task_url(task_id@),
                RequestBodyView::TaskText(text@),
            ),
    {
        HabiticaRequest {
            method: HttpMethod::Put,
            url: Self::task_address(&task_id),
            headers: self.construct_headers(),
            body: RequestBody::TaskText(text),
        }
    }

    /// The request that moves a task to a position in the user's list.
    pub fn move_task_request(&self, task_id: String, location: i64) -> (r: HabiticaRequest)
        ensures
            r@ == request_spec(
                self@,
                HttpMethod::Post,
                task_url(task_id@) + "/move/to/"@ + int_decimal(location as int),
                RequestBodyView::Empty,
            ),
    {
        let mut url = Self::task_address(&task_id);
        url.append("/move/to/");
        url.append(i64_to_decimal(location).as_str());
        HabiticaRequest {
            method: HttpMethod::Post,
            url,
            headers: self.construct_headers(),
            body: RequestBody::Empty,
        }
    }

    /// The request for one task.
    pub fn get_task_request(&self, task_id: String) -> (r: HabiticaRequest)
        ensures
            r@ == request_spec(self@, HttpMethod::Get, task_url(task_id@), RequestBodyView::Empty),
    {
        HabiticaRequest {
            method: HttpMethod::Get,
            url: Self::task_address(&task_id),
            headers: self.construct_headers(),
            body: RequestBody::Empty,
        }
    }

    /// The request that creates a to-do with the given text, known by `id`.
    pub fn insert_todo_request(&self, id: String, text: String) -> (r: HabiticaRequest)
        ensures
            r@ == request_spec(
                self@,
                HttpMethod::Post,
                user_tasks_url(),
                RequestBodyView::NewTodo { text: text@, alias: id@ },
            ),
    {
        HabiticaRequest {
            method: HttpMethod::Post,
            url: String::from_str("https://habitica.com/api/v3/tasks/user"),
            headers: self.construct_headers(),
            body: RequestBody::NewTodo { text, alias: id },
        }
    }

    /// The request that deletes a task.
    pub fn delete_task_request(&self, task_id: String) -> (r: HabiticaRequest)
        ensures
            r@ == request_spec(
                self@,
                HttpMethod::Delete,
                task_url(task_id@),
                RequestBodyView::Empty,
            ),
    {
        HabiticaRequest {
            method: HttpMethod::Delete,
            url: Self::task_address(&task_id),
            headers: self.construct_headers(),
            body: RequestBody::Empty,
        }
    }
}

} // verus!
