//! Task orchestration and git-workspace isolation: the verified core.
//!
//! Each module models one component. Effects (git, processes, storage,
//! transport) stay with the caller; the library decides what they do and
//! what comes of their outcomes.

pub mod status;
pub mod text;
pub mod slug;
pub mod diff;
pub mod plan;
pub mod task;
pub mod worktree;
pub mod orchestrator;
pub mod project;
pub mod chat;
