//! Turns an editor's document events (open, change, save) into heartbeats for
//! an ActivityWatch server.
//!
//! The crate holds the decisions and leaves the transport to its caller: which
//! events are reported and which are suppressed, what a heartbeat carries, and
//! how the record of the last report moves on.

pub mod activity;
pub mod event;
pub mod extension;
pub mod json;
pub mod languages;
pub mod locate;
pub mod payload;
pub mod project;
pub mod startup;
pub mod text;
pub mod time;
pub mod watcher;
