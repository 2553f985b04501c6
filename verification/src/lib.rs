//! Core logic of a small Windows desktop launcher.
//!
//! The library locates a target executable through a prioritized,
//! persistent search strategy and launches resolved targets, either a
//! configurable number of times or as a concurrent batch of shortcut
//! files.  All decisions are made here, in verified code, as state
//! machines and pure functions over plain values; the surrounding
//! program performs the registry reads, dialogs, file checks and
//! process spawns that the machines ask for, and feeds the answers
//! back as events.

pub mod batch;
pub mod launch;
pub mod session;
pub mod sources;
pub mod text;
