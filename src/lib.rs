//! Session controller of a terminal client for a change-management service.
//!
//! The library holds the session state, the focus state machine, the key
//! dispatcher and the cascading refresh orchestrator. It performs no I/O:
//! a key press or a call's outcome goes in, and the next call to make comes
//! out (see `cascade::Step`).
pub mod api_models;
pub mod app;
pub mod cascade;
pub mod endpoints;
pub mod event_handler;
pub mod laws;
pub mod schemas;
pub mod text;
pub mod view;

pub use api_models::{ApiError, ChangeSet, ChangeSetSummary, SchemaSummary, WhoamiResponse};
pub use app::App;
