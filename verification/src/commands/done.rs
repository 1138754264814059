//! The done command: completes task(s).

use vstd::prelude::*;
use crate::commands::bulk::TaskResult;
use crate::commands::lookup::{find_by_id_or_prefix, found_spec, open_item_flags, open_items};
use crate::commands::Result;
use crate::model::{Cache, Item};

verus! {

/// Options for the done command.
#[derive(Debug)]
pub struct DoneOptions {
    /// Task IDs (full IDs or prefixes).
    pub task_ids: Vec<String>,
    /// Complete all future occurrences (for recurring tasks).
    pub all_occurrences: bool,
    /// Skip confirmation for multiple tasks.
    pub force: bool,
}

/// Result of completing a single task.
pub type DoneResult = TaskResult;

/// The sync command that completes a task: `item_close` moves a recurring
/// task to its next occurrence, `item_complete` completes it for good.
pub fn done_command_type(all_occurrences: bool) -> (r: &'static str)
    ensures
        r@ == (if all_occurrences {
            "item_complete"@
        } else {
            "item_close"@
        }),
{
    if all_occurrences {
        "item_complete"
    } else {
        "item_close"
    }
}

/// Finds an open (not deleted, not completed) task by full ID or unique prefix.
pub fn find_item_by_id_or_prefix<'a>(cache: &'a Cache, id: &str) -> (r: Result<&'a Item>)
    ensures
        found_spec(cache.items@, open_items(cache.items@), id@, "task"@, "tasks"@, "Task not found"@, r),
{
    let live = open_item_flags(&cache.items);
    find_by_id_or_prefix(&cache.items, &live, id, "task", "tasks", "Task not found")
}

} // verus!
