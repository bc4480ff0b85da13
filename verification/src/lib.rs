//! Verified core of a todo-list proxy that mirrors a user's live and finished
//! tasks, applies websocket operations to them and plans the matching calls to
//! the Habitica task service.

pub mod api;
pub mod db_types;
pub mod habitica_integration;
pub mod handlers;
pub mod request;
pub mod response;
pub mod task_updates;
pub mod utils;
pub mod task_laws;
