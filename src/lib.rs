//! Watching one remote workflow run until it completes, and emitting
//! exactly one notification about how it ended.
//!
//! The library holds the decisions: how a status response is normalized,
//! which request a poll sends, and the poll scheduler's state machine,
//! which guarantees that the notification is produced at most once.
//! The timer, the HTTP calls and the process environment live outside it.

pub mod outcome;
pub mod request;
pub mod run;
pub mod scheduler;
pub mod status;
