//! Messages sent by clients.

use crate::api::TaskStatus;
use vstd::prelude::*;

verus! {

/// First message of a websocket connection: who is connecting.
#[derive(Clone, Debug)]
pub struct WebsocketInitMessage {
    pub api_key: String,
}

/// A task created by another service on behalf of a user.
#[derive(Clone, Debug)]
pub struct ManagedTaskNew {
    pub id: String,
    pub value: String,
    pub source: String,
    pub deadline: Option<u64>,
}

/// The end of a task created by another service.
#[derive(Clone, Debug)]
pub struct ManagedTaskFinish {
    pub id: String,
    pub status: TaskStatus,
}

} // verus!
