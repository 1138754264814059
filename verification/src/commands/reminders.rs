//! `td reminders`: listing, adding and deleting a task's reminders.

use vstd::prelude::*;
use crate::commands::{CommandError, Result};
use crate::commands::entities::{
    SyncReply, copy_opt, created_as, created_id, live_flags, live_of, new_temp_id, not_deleted_items, opt_chars,
    resolve_task_id, task_ref_spec,
};
use crate::commands::lookup::{Listed, find_by_id_or_prefix, found_spec, item_content_by_id, item_content_of};
use crate::commands::show::{derefs, task_reminders};
use crate::model::{Cache, Due, Item, Reminder, ReminderType};
use crate::output::helpers::{truncate_id, truncate_id_spec};
use crate::resolve::Keyed;
use crate::text::{int_text, push_i64, push_str, str_eq, string_of};

verus! {

/// Options for the reminders list command.
#[derive(Debug)]
pub struct RemindersListOptions {
    /// The task whose reminders are listed (ID or prefix).
    pub task: Option<String>,
}

impl Default for RemindersListOptions {
    fn default() -> (r: Self)
        ensures
            r.task is None,
    {
        RemindersListOptions { task: None }
    }
}

/// The message when no task is given to list reminders of.
pub open spec fn task_required() -> Seq<char> {
    "--task is required to list reminders."@
}

/// The task whose reminders are listed, or the error when none is given.
pub fn listed_task(opts: &RemindersListOptions) -> (r: Result<&String>)
    ensures
        match opts.task {
            Some(t) => r matches Ok(x) && *x == t,
            None => r matches Err(CommandError::Config(m)) && m@ == task_required(),
        },
{
    match &opts.task {
        Some(t) => Ok(t),
        None => Err(CommandError::Config(string_of("--task is required to list reminders."))),
    }
}

/// The live reminders of a task, in cache order.
pub fn filter_reminders<'a>(cache: &'a Cache, task_id: &str) -> (r: Vec<&'a Reminder>)
    ensures
        derefs(r@) == task_reminders(cache.reminders@, task_id@),
{
    let mut out: Vec<&'a Reminder> = Vec::new();
    let mut i: usize = 0;
    while i < cache.reminders.len()
        invariant
            i <= cache.reminders.len(),
            derefs(out@) == task_reminders(cache.reminders@.take(i as int), task_id@),
        decreases cache.reminders.len() - i,
    {
        let x = &cache.reminders[i];
        proof {
            assert(cache.reminders@.take(i + 1) =~= cache.reminders@.take(i as int).push(cache.reminders@[i as int]));
            cache.reminders@.take(i as int).lemma_filter_push(
                cache.reminders@[i as int],
                |r: Reminder| r.item_id@ == task_id@ && !r.is_deleted,
            );
        }
        if !x.is_deleted && str_eq(x.item_id.as_str(), task_id) {
            out.push(x);
            assert(derefs(out@) =~= derefs(out@.drop_last()).push(*x));
        }
        i = i + 1;
    }
    assert(cache.reminders@.take(cache.reminders@.len() as int) =~= cache.reminders@);
    out
}

/// How long before the due time a relative reminder fires.
pub open spec fn offset_text(m: int) -> Seq<char> {
    if m == 0 {
        "at time of due date"@
    } else if m < 60 {
        int_text(m) + " minutes before"@
    } else if m == 60 {
        "1 hour before"@
    } else if m < 1440 {
        if m / 60 == 1 {
            "1 hour before"@
        } else {
            int_text(m / 60) + " hours before"@
        }
    } else if m / 1440 == 1 {
        "1 day before"@
    } else {
        int_text(m / 1440) + " days before"@
    }
}

/// Formats a reminder offset in minutes.
pub fn format_offset(minutes: i32) -> (r: String)
    ensures
        r@ == offset_text(minutes as int),
{
    if minutes == 0 {
        string_of("at time of due date")
    } else if minutes < 60 {
        let mut s = String::new();
        push_i64(&mut s, minutes as i64);
        push_str(&mut s, " minutes before");
        s
    } else if minutes == 60 {
        string_of("1 hour before")
    } else if minutes < 1440 {
        let hours = minutes / 60;
        if hours == 1 {
            string_of("1 hour before")
        } else {
            let mut s = String::new();
            push_i64(&mut s, hours as i64);
            push_str(&mut s, " hours before");
            s
        }
    } else {
        let days = minutes / 1440;
        if days == 1 {
            string_of("1 day before")
        } else {
            let mut s = String::new();
            push_i64(&mut s, days as i64);
            push_str(&mut s, " days before");
            s
        }
    }
}

/// A short description of a reminder.
pub open spec fn reminder_description(t: ReminderType, minute_offset: Option<i32>, due: Option<Due>) -> Seq<char> {
    match t {
        ReminderType::Relative => match minute_offset {
            Some(o) => offset_text(o as int),
            None => "relative reminder"@,
        },
        ReminderType::Absolute => match due {
            Some(d) => "at "@ + d.date@,
            None => "absolute reminder"@,
        },
        ReminderType::Location => "location-based reminder"@,
    }
}

/// Describes a reminder in a few words.
pub fn format_reminder_description(reminder_type: ReminderType, minute_offset: Option<i32>, due: Option<&Due>) -> (r:
    String)
    ensures
        r@ == reminder_description(
            reminder_type,
            minute_offset,
            match due {
                Some(d) => Some(*d),
                None => None,
            },
        ),
{
    match reminder_type {
        ReminderType::Relative => match minute_offset {
            Some(o) => format_offset(o),
            None => string_of("relative reminder"),
        },
        ReminderType::Absolute => match due {
            Some(d) => {
                let mut s = string_of("at ");
                push_str(&mut s, d.date.as_str());
                s
            },
            None => string_of("absolute reminder"),
        },
        ReminderType::Location => string_of("location-based reminder"),
    }
}

impl Keyed for Reminder {
    open spec fn key(&self) -> Seq<char> {
        self.id@
    }

    fn key_str(&self) -> (r: &str) {
        self.id.as_str()
    }
}

impl Listed for Reminder {
    open spec fn line(&self) -> Seq<char> {
        truncate_id_spec(self.id@) + "  "@ + reminder_description(self.reminder_type, self.minute_offset, self.due)
    }

    fn line_string(&self) -> (r: String) {
        let mut r = truncate_id(self.id.as_str());
        push_str(&mut r, "  ");
        let d = format_reminder_description(
            self.reminder_type,
            self.minute_offset,
            match &self.due {
                Some(d) => Some(d),
                None => None,
            },
        );
        push_str(&mut r, d.as_str());
        r
    }
}

/// Finds a reminder that is not deleted by full ID or unique prefix.
pub fn find_reminder_by_id_or_prefix<'a>(cache: &'a Cache, id: &str) -> (r: Result<&'a Reminder>)
    ensures
        found_spec(cache.reminders@, live_of(cache.reminders@), id@, "reminder"@, "reminders"@, "Reminder not found"@, r),
{
    let live = live_flags(&cache.reminders);
    find_by_id_or_prefix(&cache.reminders, &live, id, "reminder", "reminders", "Reminder not found")
}

/// Options for the reminders add command.
#[derive(Debug)]
pub struct RemindersAddOptions {
    /// The task (ID or prefix).
    pub task: String,
    /// Absolute due date/time.
    pub due: Option<String>,
    /// Minutes before the task's due time.
    pub offset: Option<i32>,
}

/// Result of a successful reminder add operation.
#[derive(Debug)]
pub struct ReminderAddResult {
    /// The real ID of the created reminder.
    pub id: String,
    /// The task ID.
    pub task_id: String,
    /// The task content.
    pub task_name: Option<String>,
    /// The reminder type.
    pub reminder_type: ReminderType,
    /// Due date for absolute reminders.
    pub due: Option<String>,
    /// Minute offset for relative reminders.
    pub minute_offset: Option<i32>,
}

/// The arguments of a `reminder_add` command: an absolute reminder at
/// `due`, else a relative one `minute_offset` minutes before the due time.
#[derive(Debug)]
pub struct ReminderAdd {
    pub temp_id: String,
    pub item_id: String,
    pub reminder_type: ReminderType,
    pub due: Option<String>,
    pub minute_offset: Option<i32>,
    /// The task's content, for the report.
    pub task_name: Option<String>,
}

/// The message for a reminder with neither a due time nor an offset.
pub open spec fn reminder_needs_time() -> Seq<char> {
    "Either --due or --offset is required to create a reminder."@
}

/// What `td reminders add` sends: a due time makes an absolute reminder, an
/// offset (without one) a relative one.
pub open spec fn reminder_add_spec(items: Seq<Item>, o: RemindersAddOptions, t: Result<String>, r: Result<ReminderAdd>) -> bool {
    if o.due is None && o.offset is None {
        r matches Err(CommandError::Config(m)) && m@ == reminder_needs_time()
    } else {
        &&& task_ref_spec(items, o.task@, t)
        &&& match t {
            Err(e) => r == Err::<ReminderAdd, CommandError>(e),
            Ok(id) => r matches Ok(a) && a.item_id@ == id@ && opt_chars(a.task_name) == item_content_of(items, id@)
                && (if o.due is Some {
                a.reminder_type == ReminderType::Absolute && opt_chars(a.due) == opt_chars(o.due) && a.minute_offset
                    == o.offset
            } else {
                a.reminder_type == ReminderType::Relative && a.due is None && a.minute_offset == o.offset
            }),
        }
    }
}

/// Plans `td reminders add` against the cache.
pub fn plan_reminder_add(cache: &Cache, opts: &RemindersAddOptions) -> (r: Result<ReminderAdd>)
    ensures
        exists|t: Result<String>| #[trigger] reminder_add_spec(cache.items@, *opts, t, r),
{
    if opts.due.is_none() && opts.offset.is_none() {
        let r: Result<ReminderAdd> = Err(
            CommandError::Config(string_of("Either --due or --offset is required to create a reminder.")),
        );
        assert(reminder_add_spec(cache.items@, *opts, vstd::pervasive::arbitrary(), r));
        return r;
    }
    let t = resolve_task_id(cache, opts.task.as_str());
    let ghost gt = t;
    let r = match t {
        Err(e) => Err(e),
        Ok(id) => {
            let name = item_content_by_id(&cache.items, id.as_str());
            let (kind, due) = match &opts.due {
                Some(d) => (ReminderType::Absolute, Some(string_of(d.as_str()))),
                None => (ReminderType::Relative, None),
            };
            Ok(
                ReminderAdd {
                    temp_id: new_temp_id(),
                    item_id: id,
                    reminder_type: kind,
                    due,
                    minute_offset: opts.offset,
                    task_name: name,
                },
            )
        },
    };
    assert(reminder_add_spec(cache.items@, *opts, gt, r));
    r
}

/// The created reminder, from the API's reply to its `reminder_add` command.
pub fn reminder_added(cmd: &ReminderAdd, reply: &SyncReply) -> (r: Result<ReminderAddResult>)
    ensures
        created_as(
            *reply,
            cmd.temp_id@,
            "Reminder"@,
            match r {
                Ok(x) => Ok(x.id@),
                Err(e) => Err(e),
            },
        ),
        r matches Ok(x) ==> x.task_id@ == cmd.item_id@ && opt_chars(x.task_name) == opt_chars(cmd.task_name)
            && x.reminder_type == cmd.reminder_type && opt_chars(x.due) == opt_chars(cmd.due) && x.minute_offset
            == cmd.minute_offset,
{
    match created_id(reply, cmd.temp_id.as_str(), "Reminder") {
        Ok(id) => Ok(
            ReminderAddResult {
                id,
                task_id: string_of(cmd.item_id.as_str()),
                task_name: copy_opt(&cmd.task_name),
                reminder_type: cmd.reminder_type,
                due: copy_opt(&cmd.due),
                minute_offset: cmd.minute_offset,
            },
        ),
        Err(e) => Err(e),
    }
}

/// Options for the reminders delete command.
#[derive(Debug)]
pub struct RemindersDeleteOptions {
    /// Reminder ID (full ID or prefix).
    pub reminder_id: String,
    /// Skip confirmation.
    pub force: bool,
}

/// Result of a successful reminder delete operation.
#[derive(Debug)]
pub struct ReminderDeleteResult {
    /// The reminder ID.
    pub id: String,
    /// The task ID.
    pub task_id: String,
    /// The task content.
    pub task_name: Option<String>,
    /// The reminder type.
    pub reminder_type: ReminderType,
}

/// The deletion of a found reminder: without `--force` (and not quiet) it
/// is cancelled; else it goes ahead for that reminder.
pub fn plan_reminder_delete(cache: &Cache, x: &Reminder, opts: &RemindersDeleteOptions, quiet: bool) -> (r: Result<
    ReminderDeleteResult,
>)
    ensures
        !opts.force && !quiet ==> (r matches Err(CommandError::Config(m)) && m@ == crate::commands::labels::cancelled_message()),
        opts.force || quiet ==> (r matches Ok(d) && d.id@ == x.id@ && d.task_id@ == x.item_id@ && opt_chars(d.task_name)
            == item_content_of(cache.items@, x.item_id@) && d.reminder_type == x.reminder_type),
{
    if !opts.force && !quiet {
        return Err(CommandError::Config(string_of("Operation cancelled. Use --force to confirm.")));
    }
    Ok(
        ReminderDeleteResult {
            id: string_of(x.id.as_str()),
            task_id: string_of(x.item_id.as_str()),
            task_name: item_content_by_id(&cache.items, x.item_id.as_str()),
            reminder_type: x.reminder_type,
        },
    )
}

} // verus!
