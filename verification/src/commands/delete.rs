//! The delete command: deletes task(s).

use vstd::prelude::*;
use crate::commands::bulk::TaskResult;

verus! {

/// Options for the delete command.
#[derive(Debug)]
pub struct DeleteOptions {
    /// Task IDs (full IDs or prefixes).
    pub task_ids: Vec<String>,
    /// Skip confirmation prompt.
    pub force: bool,
}

/// Result of deleting a single task.
pub type DeleteResult = TaskResult;

} // verus!
