//! What the operations of the library are for.
//!
//! Each law relates what goes into an operation to what comes out of it.

pub mod checks;
pub mod details;
pub mod edits;
pub mod language;
pub mod management;
pub mod models;
pub mod notebooks;
pub mod overlays;
pub mod storage;
pub mod supervision;
pub mod texts;
pub mod tooling;
pub mod trusting;
pub mod worktrees;
