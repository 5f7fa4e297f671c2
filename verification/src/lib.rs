//! Verified core of a coding agent: output truncation, path handling, tool
//! formatting, project trust and workflow orchestration.

pub mod json;
pub mod laws;
pub mod lexical_path;
pub mod render;
pub mod sort;
pub mod text;
pub mod text_map;
pub mod tools;
pub mod truncate;
pub mod trust;
pub mod workflow;
pub mod workflow_worktree;
