//! Transaction listing core of the Cheesy Money desktop application.
//!
//! The crate follows a layered layout: `domain` holds the entity, the
//! repository seam and the use case; `infrastructure` holds the in-memory
//! repository; `errors`, `state` and `commands` hold what the IPC boundary
//! hands to the front end.
pub mod commands;
pub mod domain;
pub mod errors;
pub mod infrastructure;
pub mod state;
