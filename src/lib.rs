//! A repository state reconciliation engine for a desktop Git client.
//!
//! The library turns plain snapshots of a repository (walked commits, branch
//! tips, status entries, file deltas, hunk lines) into the view model that a
//! client displays, and decides, as a state machine, which recomputation the
//! host must perform next after each user action or file-system change.
pub mod text;
pub mod model;
pub mod history;
pub mod changes;
pub mod render;
pub mod watch;
pub mod coordinator;
