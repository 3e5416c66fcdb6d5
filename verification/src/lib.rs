//! Verified core of the adapter between a Codex app-server and a terminal pager.
//!
//! The app-server speaks JSON lines; the pager speaks the Agent Client Protocol. Everything that
//! decides or computes stands here; processes, channels and timers belong to the caller.

pub mod agent;
pub mod calls;
pub mod dialog;
pub mod events;
pub mod guarantees;
pub mod json;
pub mod logo;
pub mod models;
pub mod questions;
pub mod rpc;
pub mod sessions;
pub mod string_map;
pub mod text;
pub mod time;
pub mod updates;
