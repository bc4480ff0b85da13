//! Request bodies of the task endpoints.

use crate::api::TaskStatus;
use vstd::prelude::*;

verus! {

/// Create a live task, optionally at a position.
#[derive(Clone, Debug)]
pub struct LiveTaskNewCreateProps {
    pub api_key: String,
    pub value: String,
    pub position: Option<i64>,
}

/// Bring a finished task back as a live task, optionally at a position.
#[derive(Clone, Debug)]
pub struct LiveTaskNewRestoreProps {
    pub api_key: String,
    pub finished_task_id: i64,
    pub position: Option<i64>,
}

/// Change the text of a live task.
#[derive(Clone, Debug)]
pub struct LiveTaskEditProps {
    pub api_key: String,
    pub live_task_id: i64,
    pub value: String,
}

/// Delete a live task.
#[derive(Clone, Debug)]
pub struct LiveTaskDeleteProps {
    pub api_key: String,
    pub live_task_id: i64,
}

/// Move a live task up onto the place of another.
#[derive(Clone, Debug)]
pub struct LiveTaskRotateUpProps {
    pub api_key: String,
    pub live_task_id_src: i64,
    pub live_task_id_dst: i64,
}

/// Finish a live task with a status.
#[derive(Clone, Debug)]
pub struct FinishedTaskNewProps {
    pub api_key: String,
    pub live_task_id: i64,
    pub status: TaskStatus,
}

} // verus!
