//! Response bodies and updates of the task endpoints.

use crate::api::TaskStatus;
use vstd::prelude::*;

verus! {

broadcast use vstd::string::group_string_axioms;

/// Errors the task endpoints answer with.
#[derive(Clone, Copy, Debug, PartialEq, Eq, Structural)]
pub enum AppError {
    DecodeError,
    InternalServerError,
    Unauthorized,
    BadRequest,
    NotFound,
    InvalidBase64,
    Unknown,
}

/// The HTTP status that answers an error.
pub open spec fn status_code_spec(e: AppError) -> u16 {
    match e {
        AppError::DecodeError => 502,
        AppError::InternalServerError => 500,
        AppError::Unauthorized => 401,
        AppError::BadRequest => 400,
        AppError::InvalidBase64 => 400,
        AppError::NotFound => 404,
        AppError::Unknown => 500,
    }
}

/// The display text of an error: its variant's name.
pub open spec fn error_text(e: AppError) -> Seq<char> {
    match e {
        AppError::DecodeError => "DecodeError"@,
        AppError::InternalServerError => "InternalServerError"@,
        AppError::Unauthorized => "Unauthorized"@,
        AppError::BadRequest => "BadRequest"@,
        AppError::NotFound => "NotFound"@,
        AppError::InvalidBase64 => "InvalidBase64"@,
        AppError::Unknown => "Unknown"@,
    }
}

impl AppError {
    /// The HTTP status that answers the error.
    pub fn status_code(&self) -> (r: u16)
        ensures
            r == status_code_spec(*self),
    {
        match self {
            AppError::DecodeError => 502,
            AppError::InternalServerError => 500,
            AppError::Unauthorized => 401,
            AppError::BadRequest => 400,
            AppError::InvalidBase64 => 400,
            AppError::NotFound => 404,
            AppError::Unknown => 500,
        }
    }

    /// The display text of the error: its variant's name.
    pub fn to_string(&self) -> (r: String)
        ensures
            r@ == error_text(*self),
    {
        match self {
            AppError::DecodeError => "DecodeError".to_string(),
            AppError::InternalServerError => "InternalServerError".to_string(),
            AppError::Unauthorized => "Unauthorized".to_string(),
            AppError::BadRequest => "BadRequest".to_string(),
            AppError::NotFound => "NotFound".to_string(),
            AppError::InvalidBase64 => "InvalidBase64".to_string(),
            AppError::Unknown => "Unknown".to_string(),
        }
    }
}

/// A live task as stored by the service.
#[derive(Clone, Debug)]
pub struct LiveTask {
    pub task_id: i64,
    pub creation_time: i64,
    pub creator_user_id: i64,
    pub value: String,
}

/// A finished task as stored by the service.
#[derive(Clone, Debug)]
pub struct FinishedTask {
    pub finished_task_id: i64,
    pub creation_time: i64,
    pub creator_user_id: i64,
    pub value: String,
    pub status: TaskStatus,
}

/// A live task was created.
#[derive(Clone, Debug)]
pub struct LiveTaskNewCreateUpdate {
    pub value: String,
    pub position: Option<i64>,
}

/// A finished task was brought back.
#[derive(Clone, Debug)]
pub struct LiveTaskNewRestoreUpdate {
    pub finished_task_id: i64,
}

/// A live task's text changed.
#[derive(Clone, Debug)]
pub struct LiveTaskEditUpdate {
    pub live_task_id: i64,
    pub value: String,
}

/// A live task was deleted.
#[derive(Clone, Debug)]
pub struct LiveTaskDeleteUpdate {
    pub live_task_id: i64,
}

/// A live task was moved onto the place of another.
#[derive(Clone, Debug)]
pub struct LiveTaskDelInsertUpdate {
    pub live_task_id_del: i64,
    pub live_task_id_ins: i64,
}

/// A live task was finished.
#[derive(Clone, Debug)]
pub struct FinishedTaskNewUpdate {
    pub live_task_id: i64,
    pub status: TaskStatus,
}

/// A change to one live task.
pub enum LiveTaskUpdate {
    Delete(LiveTaskDeleteUpdate),
    Update(String),
    Insert(i64, LiveTask),
}

} // verus!
