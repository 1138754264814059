//! The show command: details of one task.

use vstd::prelude::*;
use crate::commands::lookup::{
    find_by_id_or_prefix, found_spec, item_content_of, present_item_flags, present_items,
    project_name_by_id, project_name_of, section_name_by_id, section_name_of,
};
use crate::commands::Result;
use crate::model::{Cache, Item, Note, Reminder};
use crate::text::str_eq;

verus! {

/// Options for the show command.
#[derive(Debug)]
pub struct ShowOptions {
    /// Task ID (full ID or prefix).
    pub task_id: String,
    /// Include comments.
    pub comments: bool,
    /// Include reminders.
    pub reminders: bool,
}

/// Result data for the show command.
pub struct ShowResult<'a> {
    /// The task item.
    pub item: &'a Item,
    /// The project name.
    pub project_name: Option<String>,
    /// The section name.
    pub section_name: Option<String>,
    /// Labels (as names).
    pub labels: Vec<String>,
    /// Comments on the item.
    pub comments: Vec<&'a Note>,
    /// Reminders of the item.
    pub reminders: Vec<&'a Reminder>,
    /// Subtasks of the item.
    pub subtasks: Vec<&'a Item>,
}

/// The values behind a sequence of references.
pub open spec fn derefs<T>(s: Seq<&T>) -> Seq<T> {
    s.map_values(|x: &T| *x)
}

/// Finds a task that is not deleted by full ID or unique prefix.
pub fn find_item_by_id_or_prefix<'a>(cache: &'a Cache, id: &str) -> (r: Result<&'a Item>)
    ensures
        found_spec(cache.items@, present_items(cache.items@), id@, "task"@, "tasks"@, "Task not found"@, r),
{
    let live = present_item_flags(&cache.items);
    find_by_id_or_prefix(&cache.items, &live, id, "task", "tasks", "Task not found")
}

/// The live comments of a task.
pub open spec fn task_comments(notes: Seq<Note>, item_id: Seq<char>) -> Seq<Note> {
    notes.filter(|n: Note| n.item_id@ == item_id && !n.is_deleted)
}

/// The live reminders of a task.
pub open spec fn task_reminders(reminders: Seq<Reminder>, item_id: Seq<char>) -> Seq<Reminder> {
    reminders.filter(|r: Reminder| r.item_id@ == item_id && !r.is_deleted)
}

/// The open subtasks of a task.
pub open spec fn open_subtasks(items: Seq<Item>, item_id: Seq<char>) -> Seq<Item> {
    items.filter(
        |i: Item|
            (i.parent_id matches Some(p) && p@ == item_id) && !i.is_deleted && !i.checked,
    )
}

/// Gathers what the show command prints about a task.
pub fn build_show_result<'a>(cache: &'a Cache, item: &'a Item, opts: &ShowOptions) -> (r: ShowResult<'a>)
    ensures
        *r.item == *item,
        r.project_name matches Some(n) ==> project_name_of(cache.projects@, item.project_id@) == Some(n@),
        r.project_name is None ==> project_name_of(cache.projects@, item.project_id@) is None,
        (match item.section_id {
            Some(sid) => (r.section_name matches Some(n) ==> section_name_of(cache.sections@, sid@) == Some(n@))
                && (r.section_name is None ==> section_name_of(cache.sections@, sid@) is None),
            None => r.section_name is None,
        }),
        r.labels@ == item.labels@,
        derefs(r.comments@) == (if opts.comments {
            task_comments(cache.notes@, item.id@)
        } else {
            Seq::empty()
        }),
        derefs(r.reminders@) == (if opts.reminders {
            task_reminders(cache.reminders@, item.id@)
        } else {
            Seq::empty()
        }),
        derefs(r.subtasks@) == open_subtasks(cache.items@, item.id@),
{
    let project_name = project_name_by_id(&cache.projects, item.project_id.as_str());
    let section_name = match &item.section_id {
        Some(sid) => section_name_by_id(&cache.sections, sid.as_str()),
        None => None,
    };
    let mut comments: Vec<&'a Note> = Vec::new();
    if opts.comments {
        let mut i: usize = 0;
        while i < cache.notes.len()
            invariant
                i <= cache.notes.len(),
                derefs(comments@) == task_comments(cache.notes@.take(i as int), item.id@),
            decreases cache.notes.len() - i,
        {
            let n = &cache.notes[i];
            proof {
                assert(cache.notes@.take(i + 1) =~= cache.notes@.take(i as int).push(cache.notes@[i as int]));
                cache.notes@.take(i as int).lemma_filter_push(
                    cache.notes@[i as int],
                    |n: Note| n.item_id@ == item.id@ && !n.is_deleted,
                );
            }
            if str_eq(n.item_id.as_str(), item.id.as_str()) && !n.is_deleted {
                comments.push(n);
                assert(derefs(comments@) =~= derefs(comments@.drop_last()).push(*n));
            }
            i = i + 1;
        }
        assert(cache.notes@.take(cache.notes@.len() as int) =~= cache.notes@);
    } else {
        assert(derefs(comments@) =~= Seq::<Note>::empty());
    }
    let mut reminders: Vec<&'a Reminder> = Vec::new();
    if opts.reminders {
        let mut i: usize = 0;
        while i < cache.reminders.len()
            invariant
                i <= cache.reminders.len(),
                derefs(reminders@) == task_reminders(cache.reminders@.take(i as int), item.id@),
            decreases cache.reminders.len() - i,
        {
            let x = &cache.reminders[i];
            proof {
                assert(cache.reminders@.take(i + 1) =~= cache.reminders@.take(i as int).push(
                    cache.reminders@[i as int],
                ));
                cache.reminders@.take(i as int).lemma_filter_push(
                    cache.reminders@[i as int],
                    |r: Reminder| r.item_id@ == item.id@ && !r.is_deleted,
                );
            }
            if str_eq(x.item_id.as_str(), item.id.as_str()) && !x.is_deleted {
                reminders.push(x);
                assert(derefs(reminders@) =~= derefs(reminders@.drop_last()).push(*x));
            }
            i = i + 1;
        }
        assert(cache.reminders@.take(cache.reminders@.len() as int) =~= cache.reminders@);
    } else {
        assert(derefs(reminders@) =~= Seq::<Reminder>::empty());
    }
    let mut subtasks: Vec<&'a Item> = Vec::new();
    let mut i: usize = 0;
    while i < cache.items.len()
        invariant
            i <= cache.items.len(),
            derefs(subtasks@) == open_subtasks(cache.items@.take(i as int), item.id@),
        decreases cache.items.len() - i,
    {
        let x = &cache.items[i];
        proof {
            assert(cache.items@.take(i + 1) =~= cache.items@.take(i as int).push(cache.items@[i as int]));
            cache.items@.take(i as int).lemma_filter_push(
                cache.items@[i as int],
                |i: Item|
                    (i.parent_id matches Some(p) && p@ == item.id@) && !i.is_deleted && !i.checked,
            );
        }
        let is_child = match &x.parent_id {
            Some(p) => str_eq(p.as_str(), item.id.as_str()),
            None => false,
        };
        if is_child && !x.is_deleted && !x.checked {
            subtasks.push(x);
            assert(derefs(subtasks@) =~= derefs(subtasks@.drop_last()).push(*x));
        }
        i = i + 1;
    }
    assert(cache.items@.take(cache.items@.len() as int) =~= cache.items@);
    ShowResult {
        item,
        project_name,
        section_name,
        labels: item.labels.clone(),
        comments,
        reminders,
        subtasks,
    }
}

} // verus!
