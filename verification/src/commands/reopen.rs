//! The reopen command: reopens completed task(s).

use vstd::prelude::*;
use crate::commands::bulk::TaskResult;

verus! {

/// Options for the reopen command.
#[derive(Debug)]
pub struct ReopenOptions {
    /// Task IDs (full IDs or prefixes).
    pub task_ids: Vec<String>,
    /// Skip confirmation for multiple tasks.
    pub force: bool,
}

/// Result of reopening a single task.
pub type ReopenResult = TaskResult;

} // verus!
