//! Rows of the service's database.

use vstd::prelude::*;

verus! {

/// A user's link to a Habitica account.
#[derive(Clone, Debug)]
pub struct HabiticaIntegration {
    pub habitica_integration_id: i64,
    pub creation_time: i64,
    pub creator_user_id: i64,
    pub user_id: String,
    pub api_key: String,
}

/// A stored snapshot of a user's tasks, as JSON.
#[derive(Clone, Debug)]
pub struct Checkpoint {
    pub checkpoint_id: i64,
    pub creation_time: i64,
    pub creator_user_id: i64,
    pub jsonval: String,
}

/// A stored operation applied after a checkpoint, as JSON.
#[derive(Clone, Debug)]
pub struct Operation {
    pub operation_id: i64,
    pub creation_time: i64,
    pub checkpoint_id: i64,
    pub jsonval: String,
}

} // verus!
