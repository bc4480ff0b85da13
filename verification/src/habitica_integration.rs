//! The Habitica task service.

pub mod client;
