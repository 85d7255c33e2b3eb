//! Core logic of an application self-update flow.
//!
//! The flow has two operations: a check that maps the updater's answer into a
//! payload for the UI (`payload`), and an install flow that reacts to updater
//! events with progress notifications, a completion notification and a restart
//! request (`install`). All network access, signature verification and
//! installation is the host runtime's business; this crate holds the decisions
//! and proves how notifications relate to the events that caused them.

pub mod install;
pub mod payload;
