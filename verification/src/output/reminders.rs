//! Reminder output: the table, and the records behind the JSON output.

use vstd::prelude::*;
use crate::commands::comments::str_opt;
use crate::commands::entities::opt_chars;
use crate::commands::lookup::{item_by_id, item_content_of};
use crate::commands::reminders::{ReminderAddResult, ReminderDeleteResult};
use crate::model::{Cache, Reminder, reminder_type_name};
use crate::output::helpers::{
    context_line, format_reminder, header_line, opt_str, push_context, push_header, reminder_text,
    truncate_id, truncate_id_spec,
};
use crate::output::tasks::{DueOutput, due_output_of, opt_due_output};
use crate::text::{pad_right, push_padded, push_str, string_of};

verus! {

/// JSON record of the reminders list.
pub struct RemindersListOutput<'a> {
    pub reminders: Vec<ReminderListOutput<'a>>,
}

/// JSON record of one reminder, with the content of its task when the
/// cache has it.
pub struct ReminderListOutput<'a> {
    pub id: &'a str,
    pub item_id: &'a str,
    pub task_name: Option<&'a str>,
    pub reminder_type: &'a str,
    pub due: Option<DueOutput<'a>>,
    pub minute_offset: Option<i32>,
}

/// `o` is the record of reminder `r`, with the cache's tasks `cache`.
pub open spec fn reminder_output_of(o: ReminderListOutput, r: Reminder, cache: Cache) -> bool {
    &&& o.id@ == r.id@
    &&& o.item_id@ == r.item_id@
    &&& str_opt(o.task_name) == item_content_of(cache.items@, r.item_id@)
    &&& o.reminder_type@ == reminder_type_name(r.reminder_type)
    &&& (r.due is None ==> o.due is None)
    &&& (r.due matches Some(d) ==> o.due matches Some(x) && due_output_of(x, d))
    &&& o.minute_offset == r.minute_offset
}

/// The record of one reminder.
pub fn reminder_list_output<'a>(r: &'a Reminder, cache: &'a Cache) -> (o: ReminderListOutput<'a>)
    ensures
        reminder_output_of(o, *r, *cache),
{
    let task_name = match item_by_id(&cache.items, r.item_id.as_str()) {
        Some(i) => Some(i.content.as_str()),
        None => None,
    };
    ReminderListOutput {
        id: r.id.as_str(),
        item_id: r.item_id.as_str(),
        task_name,
        reminder_type: r.reminder_type.as_str(),
        due: opt_due_output(&r.due),
        minute_offset: r.minute_offset,
    }
}

/// The record of a reminders list: one record per reminder, in order.
pub fn reminders_list_output<'a>(reminders: &[&'a Reminder], cache: &'a Cache) -> (o: RemindersListOutput<'a>)
    ensures
        o.reminders@.len() == reminders@.len(),
        forall|k: int|
            0 <= k < reminders@.len() ==> reminder_output_of(#[trigger] o.reminders@[k], *reminders@[k], *cache),
{
    let mut out: Vec<ReminderListOutput<'a>> = Vec::new();
    let mut i: usize = 0;
    while i < reminders.len()
        invariant
            i <= reminders@.len(),
            out@.len() == i,
            forall|k: int| 0 <= k < i ==> reminder_output_of(#[trigger] out@[k], *reminders@[k], *cache),
        decreases reminders.len() - i,
    {
        out.push(reminder_list_output(reminders[i], cache));
        i = i + 1;
    }
    RemindersListOutput { reminders: out }
}

/// The column header of the reminders table.
pub open spec fn reminders_header() -> Seq<char> {
    "ID       Type         When"@
}

/// One row of the reminders table: ID, kind, and when it fires.
pub open spec fn reminder_row(r: Reminder) -> Seq<char> {
    pad_right(truncate_id_spec(r.id@), 8) + " "@ + pad_right(reminder_type_name(r.reminder_type), 12) + " "@
        + reminder_text(r) + "\n"@
}

/// The rows of the reminders table.
pub open spec fn reminder_rows(rs: Seq<&Reminder>) -> Seq<char>
    decreases rs.len(),
{
    if rs.len() == 0 {
        Seq::empty()
    } else {
        reminder_rows(rs.drop_last()) + reminder_row(*rs.last())
    }
}

/// The reminders table: a notice when there are none, else the context
/// line when a task name is given, the header, and a row per reminder.
pub open spec fn reminders_table(rs: Seq<&Reminder>, task_name: Option<Seq<char>>, use_colors: bool) -> Seq<char> {
    if rs.len() == 0 {
        "No reminders found.\n"@
    } else {
        (match task_name {
            Some(n) => context_line("Reminders for: "@ + n, use_colors),
            None => Seq::empty(),
        }) + header_line(reminders_header(), use_colors) + reminder_rows(rs)
    }
}

fn reminder_row_text(r: &Reminder) -> (s: String)
    ensures
        s@ == reminder_row(*r),
{
    let mut s = String::new();
    let idp = truncate_id(r.id.as_str());
    push_padded(&mut s, idp.as_str(), 8);
    push_str(&mut s, " ");
    push_padded(&mut s, r.reminder_type.as_str(), 12);
    push_str(&mut s, " ");
    let desc = format_reminder(r);
    push_str(&mut s, desc.as_str());
    push_str(&mut s, "\n");
    s
}

/// Formats reminders as a table.
pub fn format_reminders_table(reminders: &[&Reminder], task_name: Option<&str>, use_colors: bool) -> (s: String)
    ensures
        s@ == reminders_table(reminders@, str_opt(task_name), use_colors),
{
    if reminders.len() == 0 {
        return string_of("No reminders found.\n");
    }
    let mut s = String::new();
    if let Some(n) = task_name {
        push_context(&mut s, "Reminders for: ", n, use_colors);
    }
    push_header(&mut s, "ID       Type         When", use_colors);
    let ghost head = s@;
    let mut i: usize = 0;
    while i < reminders.len()
        invariant
            i <= reminders@.len(),
            s@ == head + reminder_rows(reminders@.take(i as int)),
        decreases reminders.len() - i,
    {
        let row = reminder_row_text(reminders[i]);
        push_str(&mut s, row.as_str());
        assert(reminders@.take(i + 1).drop_last() =~= reminders@.take(i as int));
        i = i + 1;
    }
    assert(reminders@.take(reminders.len() as int) =~= reminders@);
    s
}

/// JSON record of a created reminder.
pub struct CreatedReminderOutput<'a> {
    pub id: &'a str,
    pub task_id: &'a str,
    pub task_name: Option<&'a str>,
    pub reminder_type: &'a str,
    pub due: Option<&'a str>,
    pub minute_offset: Option<i32>,
}

/// The record of a created reminder.
pub fn created_reminder_output<'a>(result: &'a ReminderAddResult) -> (r: CreatedReminderOutput<'a>)
    ensures
        r.id@ == result.id@,
        r.task_id@ == result.task_id@,
        str_opt(r.task_name) == opt_chars(result.task_name),
        r.reminder_type@ == reminder_type_name(result.reminder_type),
        str_opt(r.due) == opt_chars(result.due),
        r.minute_offset == result.minute_offset,
{
    CreatedReminderOutput {
        id: result.id.as_str(),
        task_id: result.task_id.as_str(),
        task_name: opt_str(&result.task_name),
        reminder_type: result.reminder_type.as_str(),
        due: opt_str(&result.due),
        minute_offset: result.minute_offset,
    }
}

/// JSON record of a deleted reminder.
pub struct DeletedReminderOutput<'a> {
    pub id: &'a str,
    pub task_id: &'a str,
    pub task_name: Option<&'a str>,
    pub reminder_type: &'a str,
    pub status: &'static str,
}

/// The record of a deleted reminder, with status `deleted`.
pub fn deleted_reminder_output<'a>(result: &'a ReminderDeleteResult) -> (r: DeletedReminderOutput<'a>)
    ensures
        r.id@ == result.id@,
        r.task_id@ == result.task_id@,
        str_opt(r.task_name) == opt_chars(result.task_name),
        r.reminder_type@ == reminder_type_name(result.reminder_type),
        r.status@ == "deleted"@,
{
    DeletedReminderOutput {
        id: result.id.as_str(),
        task_id: result.task_id.as_str(),
        task_name: opt_str(&result.task_name),
        reminder_type: result.reminder_type.as_str(),
        status: "deleted",
    }
}

} // verus!
