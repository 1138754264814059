//! Task output: the tables, and the records behind the JSON output.

use vstd::prelude::*;
use crate::commands::add::AddResult;
use crate::commands::comments::str_opt;
use crate::commands::entities::{copy_opt, opt_chars};
use crate::commands::lookup::{project_by_id, project_name_of};
use crate::commands::quick::QuickResult;
use crate::commands::show::ShowResult;
use crate::model::{Cache, Due, Item, Note, Project, Reminder, ReminderType};
use crate::output::helpers::{opt_str, priority_in_range};
use crate::text::{string_of, views};

verus! {

/// JSON record of the list command.
pub struct ListOutput<'a> {
    pub tasks: Vec<TaskOutput<'a>>,
    pub cursor: Option<String>,
    pub has_more: bool,
}

/// JSON record of one task.
pub struct TaskOutput<'a> {
    pub id: &'a str,
    pub content: &'a str,
    pub description: &'a str,
    pub priority: u8,
    pub due: Option<&'a str>,
    pub project_id: &'a str,
    pub project_name: Option<&'a str>,
    pub section_id: Option<&'a str>,
    pub labels: &'a [String],
}

/// The user priority (1 highest) of an API priority (4 highest), as the
/// record holds it.
pub open spec fn user_priority(api_priority: i32) -> u8 {
    (5 - api_priority) as u8
}

/// The due date of a task, if any.
pub open spec fn due_date_of(item: Item) -> Option<Seq<char>> {
    match item.due {
        Some(d) => Some(d.date@),
        None => None,
    }
}

/// `o` is the record of task `item`, among `projects`.
pub open spec fn task_output_of(o: TaskOutput, item: Item, projects: Seq<Project>) -> bool {
    &&& o.id@ == item.id@
    &&& o.content@ == item.content@
    &&& o.description@ == item.description@
    &&& o.priority == user_priority(item.priority)
    &&& str_opt(o.due) == due_date_of(item)
    &&& o.project_id@ == item.project_id@
    &&& str_opt(o.project_name) == project_name_of(projects, item.project_id@)
    &&& str_opt(o.section_id) == opt_chars(item.section_id)
    &&& views(o.labels@) == views(item.labels@)
}

fn due_date_str<'a>(item: &'a Item) -> (r: Option<&'a str>)
    ensures
        str_opt(r) == due_date_of(*item),
{
    match &item.due {
        Some(d) => Some(d.date.as_str()),
        None => None,
    }
}

fn user_priority_of(api_priority: i32) -> (r: u8)
    requires
        priority_in_range(api_priority as int),
    ensures
        r == user_priority(api_priority),
{
    (5 - api_priority) as u8
}

/// The record of one task.
pub fn task_output<'a>(item: &'a Item, cache: &'a Cache) -> (r: TaskOutput<'a>)
    requires
        priority_in_range(item.priority as int),
    ensures
        task_output_of(r, *item, cache.projects@),
{
    let project_name = match project_by_id(&cache.projects, item.project_id.as_str()) {
        Some(p) => Some(p.name.as_str()),
        None => None,
    };
    TaskOutput {
        id: item.id.as_str(),
        content: item.content.as_str(),
        description: item.description.as_str(),
        priority: user_priority_of(item.priority),
        due: due_date_str(item),
        project_id: item.project_id.as_str(),
        project_name,
        section_id: opt_str(&item.section_id),
        labels: item.labels.as_slice(),
    }
}

/// The record of the list command: one record per task, in order, and no
/// further page.
pub fn list_output<'a>(items: &[&'a Item], cache: &'a Cache) -> (r: ListOutput<'a>)
    requires
        forall|k: int| 0 <= k < items@.len() ==> priority_in_range(#[trigger] items@[k].priority as int),
    ensures
        r.tasks@.len() == items@.len(),
        forall|k: int| 0 <= k < items@.len() ==> task_output_of(#[trigger] r.tasks@[k], *items@[k], cache.projects@),
        r.cursor is None,
        !r.has_more,
{
    let mut out: Vec<TaskOutput<'a>> = Vec::new();
    let mut i: usize = 0;
    while i < items.len()
        invariant
            i <= items@.len(),
            out@.len() == i,
            forall|k: int| 0 <= k < items@.len() ==> priority_in_range(#[trigger] items@[k].priority as int),
            forall|k: int| 0 <= k < i ==> task_output_of(#[trigger] out@[k], *items@[k], cache.projects@),
        decreases items.len() - i,
    {
        out.push(task_output(items[i], cache));
        i = i + 1;
    }
    ListOutput { tasks: out, cursor: None, has_more: false }
}

/// JSON record of a created task.
pub struct CreatedItemOutput<'a> {
    pub id: &'a str,
    pub content: &'a str,
    pub project_id: &'a str,
    pub project_name: Option<&'a str>,
}

/// The record of a created task.
pub fn created_item_output<'a>(result: &'a AddResult) -> (r: CreatedItemOutput<'a>)
    ensures
        r.id@ == result.id@,
        r.content@ == result.content@,
        r.project_id@ == result.project_id@,
        str_opt(r.project_name) == opt_chars(result.project_name),
{
    CreatedItemOutput {
        id: result.id.as_str(),
        content: result.content.as_str(),
        project_id: result.project_id.as_str(),
        project_name: opt_str(&result.project_name),
    }
}

/// JSON record of a quick add.
pub struct QuickAddOutput<'a> {
    pub id: &'a str,
    pub content: &'a str,
    pub project_id: &'a str,
    pub project_name: Option<&'a str>,
    pub due: Option<&'a str>,
    pub priority: u8,
    pub labels: &'a Vec<String>,
}

/// The record of a quick add.
pub fn quick_add_output<'a>(result: &'a QuickResult) -> (r: QuickAddOutput<'a>)
    ensures
        r.id@ == result.id@,
        r.content@ == result.content@,
        r.project_id@ == result.project_id@,
        str_opt(r.project_name) == opt_chars(result.project_name),
        str_opt(r.due) == opt_chars(result.due_string),
        r.priority == result.priority,
        views(r.labels@) == views(result.labels@),
{
    QuickAddOutput {
        id: result.id.as_str(),
        content: result.content.as_str(),
        project_id: result.project_id.as_str(),
        project_name: opt_str(&result.project_name),
        due: opt_str(&result.due_string),
        priority: result.priority,
        labels: &result.labels,
    }
}

/// JSON record of a due date, borrowed.
pub struct DueOutput<'a> {
    pub date: &'a str,
    pub datetime: Option<&'a str>,
    pub string: Option<&'a str>,
    pub is_recurring: bool,
}

/// `o` is the record of due date `d`.
pub open spec fn due_output_of(o: DueOutput, d: Due) -> bool {
    &&& o.date@ == d.date@
    &&& str_opt(o.datetime) == opt_chars(d.datetime)
    &&& str_opt(o.string) == opt_chars(d.string)
    &&& o.is_recurring == d.is_recurring
}

/// The record of a due date.
pub fn due_output<'a>(d: &'a Due) -> (r: DueOutput<'a>)
    ensures
        due_output_of(r, *d),
{
    DueOutput {
        date: d.date.as_str(),
        datetime: opt_str(&d.datetime),
        string: opt_str(&d.string),
        is_recurring: d.is_recurring,
    }
}

/// The record of an optional due date.
pub fn opt_due_output<'a>(d: &'a Option<Due>) -> (r: Option<DueOutput<'a>>)
    ensures
        *d is None ==> r is None,
        *d matches Some(x) ==> r matches Some(o) && due_output_of(o, x),
{
    match d {
        Some(x) => Some(due_output(x)),
        None => None,
    }
}

/// JSON record of a due date, owned.
pub struct DueOutputOwned {
    pub date: String,
    pub datetime: Option<String>,
    pub string: Option<String>,
    pub is_recurring: bool,
}

/// `o` is the owned record of due date `d`.
pub open spec fn due_owned_of(o: DueOutputOwned, d: Due) -> bool {
    &&& o.date@ == d.date@
    &&& opt_chars(o.datetime) == opt_chars(d.datetime)
    &&& opt_chars(o.string) == opt_chars(d.string)
    &&& o.is_recurring == d.is_recurring
}

/// The owned record of a due date.
pub fn due_output_owned(d: &Due) -> (r: DueOutputOwned)
    ensures
        due_owned_of(r, *d),
{
    DueOutputOwned {
        date: string_of(d.date.as_str()),
        datetime: copy_opt(&d.datetime),
        string: copy_opt(&d.string),
        is_recurring: d.is_recurring,
    }
}

/// JSON record of a comment of a task.
pub struct CommentOutput<'a> {
    pub id: &'a str,
    pub content: &'a str,
    pub posted_at: Option<&'a str>,
}

/// `o` is the record of comment `n`.
pub open spec fn comment_output_of(o: CommentOutput, n: Note) -> bool {
    o.id@ == n.id@ && o.content@ == n.content@ && str_opt(o.posted_at) == opt_chars(n.posted_at)
}

/// JSON record of a reminder of a task.
pub struct ReminderOutput {
    pub id: String,
    pub reminder_type: ReminderType,
    pub due: Option<DueOutputOwned>,
    pub minute_offset: Option<i32>,
}

/// `o` is the record of reminder `r`.
pub open spec fn reminder_output_of(o: ReminderOutput, r: Reminder) -> bool {
    &&& o.id@ == r.id@
    &&& o.reminder_type == r.reminder_type
    &&& (r.due is None ==> o.due is None)
    &&& (r.due matches Some(d) ==> o.due matches Some(x) && due_owned_of(x, d))
    &&& o.minute_offset == r.minute_offset
}

/// JSON record of a subtask.
pub struct SubtaskOutput<'a> {
    pub id: &'a str,
    pub content: &'a str,
    pub checked: bool,
}

/// JSON record of a task's details.
pub struct TaskDetailsOutput<'a> {
    pub id: &'a str,
    pub content: &'a str,
    pub description: &'a str,
    pub priority: u8,
    pub due: Option<DueOutput<'a>>,
    pub project_id: &'a str,
    pub project_name: Option<&'a str>,
    pub section_id: Option<&'a str>,
    pub section_name: Option<&'a str>,
    pub parent_id: Option<&'a str>,
    pub labels: &'a [String],
    pub checked: bool,
    pub created_at: Option<&'a str>,
    pub comments: Vec<CommentOutput<'a>>,
    pub reminders: Vec<ReminderOutput>,
    pub subtasks: Vec<SubtaskOutput<'a>>,
}

/// `o` is the record of the details in `r`: the task's fields, the names
/// found for its project and section, its labels, and one record per
/// comment, reminder and subtask, in order.
pub open spec fn task_details_of(o: TaskDetailsOutput, r: ShowResult) -> bool {
    let item = *r.item;
    &&& o.id@ == item.id@
    &&& o.content@ == item.content@
    &&& o.description@ == item.description@
    &&& o.priority == user_priority(item.priority)
    &&& (item.due is None ==> o.due is None)
    &&& (item.due matches Some(d) ==> o.due matches Some(x) && due_output_of(x, d))
    &&& o.project_id@ == item.project_id@
    &&& str_opt(o.project_name) == opt_chars(r.project_name)
    &&& str_opt(o.section_id) == opt_chars(item.section_id)
    &&& str_opt(o.section_name) == opt_chars(r.section_name)
    &&& str_opt(o.parent_id) == opt_chars(item.parent_id)
    &&& views(o.labels@) == views(r.labels@)
    &&& o.checked == item.checked
    &&& str_opt(o.created_at) == opt_chars(item.added_at)
    &&& o.comments@.len() == r.comments@.len()
    &&& (forall|k: int| 0 <= k < r.comments@.len() ==> comment_output_of(#[trigger] o.comments@[k], *r.comments@[k]))
    &&& o.reminders@.len() == r.reminders@.len()
    &&& (forall|k: int|
        0 <= k < r.reminders@.len() ==> reminder_output_of(#[trigger] o.reminders@[k], *r.reminders@[k]))
    &&& o.subtasks@.len() == r.subtasks@.len()
    &&& (forall|k: int|
        0 <= k < r.subtasks@.len() ==> (#[trigger] o.subtasks@[k]).id@ == r.subtasks@[k].id@
            && o.subtasks@[k].content@ == r.subtasks@[k].content@ && o.subtasks@[k].checked
            == r.subtasks@[k].checked)
}

fn reminder_output(r: &Reminder) -> (o: ReminderOutput)
    ensures
        reminder_output_of(o, *r),
{
    let due = match &r.due {
        Some(d) => Some(due_output_owned(d)),
        None => None,
    };
    ReminderOutput { id: string_of(r.id.as_str()), reminder_type: r.reminder_type, due, minute_offset: r.minute_offset }
}

/// The record of a task's details.
pub fn task_details_output<'a>(r: &'a ShowResult<'a>) -> (o: TaskDetailsOutput<'a>)
    requires
        priority_in_range(r.item.priority as int),
    ensures
        task_details_of(o, *r),
{
    let item = r.item;
    let mut comments: Vec<CommentOutput<'a>> = Vec::new();
    let mut i: usize = 0;
    while i < r.comments.len()
        invariant
            i <= r.comments@.len(),
            comments@.len() == i,
            forall|k: int| 0 <= k < i ==> comment_output_of(#[trigger] comments@[k], *r.comments@[k]),
        decreases r.comments.len() - i,
    {
        let n: &'a Note = r.comments[i];
        comments.push(CommentOutput { id: n.id.as_str(), content: n.content.as_str(), posted_at: opt_str(&n.posted_at) });
        i = i + 1;
    }
    let mut reminders: Vec<ReminderOutput> = Vec::new();
    let mut j: usize = 0;
    while j < r.reminders.len()
        invariant
            j <= r.reminders@.len(),
            reminders@.len() == j,
            forall|k: int| 0 <= k < j ==> reminder_output_of(#[trigger] reminders@[k], *r.reminders@[k]),
        decreases r.reminders.len() - j,
    {
        reminders.push(reminder_output(r.reminders[j]));
        j = j + 1;
    }
    let mut subtasks: Vec<SubtaskOutput<'a>> = Vec::new();
    let mut m: usize = 0;
    while m < r.subtasks.len()
        invariant
            m <= r.subtasks@.len(),
            subtasks@.len() == m,
            forall|k: int|
                0 <= k < m ==> (#[trigger] subtasks@[k]).id@ == r.subtasks@[k].id@ && subtasks@[k].content@
                    == r.subtasks@[k].content@ && subtasks@[k].checked == r.subtasks@[k].checked,
        decreases r.subtasks.len() - m,
    {
        let x: &'a Item = r.subtasks[m];
        subtasks.push(SubtaskOutput { id: x.id.as_str(), content: x.content.as_str(), checked: x.checked });
        m = m + 1;
    }
    TaskDetailsOutput {
        id: item.id.as_str(),
        content: item.content.as_str(),
        description: item.description.as_str(),
        priority: user_priority_of(item.priority),
        due: opt_due_output(&item.due),
        project_id: item.project_id.as_str(),
        project_name: opt_str(&r.project_name),
        section_id: opt_str(&item.section_id),
        section_name: opt_str(&r.section_name),
        parent_id: opt_str(&item.parent_id),
        labels: r.labels.as_slice(),
        checked: item.checked,
        created_at: opt_str(&item.added_at),
        comments,
        reminders,
        subtasks,
    }
}

} // verus!

verus! {

use crate::dates::{CalDate, MAX_DAY, MIN_DAY, find_char, find_char_in, format_datetime, lemma_find_char, local_today};
use crate::output::comments::stamp_shown;
use crate::output::helpers::{
    at_labels, due_verbose_text, format_due_verbose_on, format_labels, format_labels_spec, format_priority,
    format_priority_spec, format_priority_verbose, format_priority_verbose_spec, format_reminder, header_line, inner_day, push_header, reminder_text, truncate_id, truncate_id_spec, truncate_spec,
    truncate_str,
};
use crate::output::projects::{shown_due, shown_due_text};
use crate::style::{bold, bold_text};
use crate::text::{
    chars_of, decimal, is_ascii_text, pad_right, push_padded, push_range, push_str, push_u64,
};

/// The column header of the tasks table.
pub open spec fn items_header() -> Seq<char> {
    "ID       Pri  Due          Project         Labels          Content"@
}

/// The project column of the tasks table: the project's name cut to 15
/// bytes, or nothing.
pub open spec fn item_project_column(item: Item, projects: Seq<Project>) -> Seq<char> {
    match project_name_of(projects, item.project_id@) {
        Some(n) => truncate_spec(n, 15),
        None => Seq::empty(),
    }
}

/// One row of the tasks table on day `today`: ID, priority, due date,
/// project, labels and content.
pub open spec fn item_row(item: Item, projects: Seq<Project>, use_colors: bool, today: int) -> Seq<char> {
    pad_right(truncate_id_spec(item.id@), 8) + " "@ + pad_right(format_priority_spec(item.priority as int, use_colors), 4)
        + " "@ + pad_right(shown_due(item, use_colors, today), 12) + " "@ + pad_right(
        item_project_column(item, projects),
        15,
    ) + " "@ + pad_right(format_labels_spec(item.labels@, 15), 15) + " "@ + item.content@ + "\n"@
}

/// The rows of the tasks table.
pub open spec fn item_rows(items: Seq<&Item>, projects: Seq<Project>, use_colors: bool, today: int) -> Seq<char>
    decreases items.len(),
{
    if items.len() == 0 {
        Seq::empty()
    } else {
        item_rows(items.drop_last(), projects, use_colors, today) + item_row(*items.last(), projects, use_colors, today)
    }
}

/// The tasks table on day `today`: a notice when there are none, else the
/// header and a row per task, in the order given.
pub open spec fn items_table(items: Seq<&Item>, projects: Seq<Project>, use_colors: bool, today: int) -> Seq<char> {
    if items.len() == 0 {
        "No tasks found.\n"@
    } else {
        header_line(items_header(), use_colors) + item_rows(items, projects, use_colors, today)
    }
}

/// A task whose row can be printed: its ID, project name and labels can be
/// cut where the table cuts them, and its priority has a user priority.
pub open spec fn item_printable(item: Item, projects: Seq<Project>) -> bool {
    &&& priority_in_range(item.priority as int)
}

fn item_row_text(item: &Item, cache: &Cache, use_colors: bool, today: &CalDate) -> (s: String)
    requires
        item_printable(*item, cache.projects@),
    ensures
        s@ == item_row(*item, cache.projects@, use_colors, today.num()),
{
    let mut s = String::new();
    let idp = truncate_id(item.id.as_str());
    push_padded(&mut s, idp.as_str(), 8);
    push_str(&mut s, " ");
    let pr = format_priority(item.priority, use_colors);
    push_padded(&mut s, pr.as_str(), 4);
    push_str(&mut s, " ");
    let due = shown_due_text(item, use_colors, today);
    push_padded(&mut s, due.as_str(), 12);
    push_str(&mut s, " ");
    let project = match project_by_id(&cache.projects, item.project_id.as_str()) {
        Some(p) => truncate_str(p.name.as_str(), 15),
        None => String::new(),
    };
    push_padded(&mut s, project.as_str(), 15);
    push_str(&mut s, " ");
    let labels = format_labels(item.labels.as_slice(), 15);
    push_padded(&mut s, labels.as_str(), 15);
    push_str(&mut s, " ");
    push_str(&mut s, item.content.as_str());
    push_str(&mut s, "\n");
    s
}

/// Formats tasks as a table, on day `today`.
pub fn format_items_table_on(items: &[&Item], cache: &Cache, use_colors: bool, today: &CalDate) -> (s: String)
    requires
        forall|k: int| 0 <= k < items@.len() ==> item_printable(*#[trigger] items@[k], cache.projects@),
    ensures
        s@ == items_table(items@, cache.projects@, use_colors, today.num()),
{
    if items.len() == 0 {
        return string_of("No tasks found.\n");
    }
    let mut s = String::new();
    push_header(&mut s, "ID       Pri  Due          Project         Labels          Content", use_colors);
    let ghost head = s@;
    let mut i: usize = 0;
    while i < items.len()
        invariant
            i <= items@.len(),
            forall|k: int| 0 <= k < items@.len() ==> item_printable(*#[trigger] items@[k], cache.projects@),
            s@ == head + item_rows(items@.take(i as int), cache.projects@, use_colors, today.num()),
        decreases items.len() - i,
    {
        let row = item_row_text(items[i], cache, use_colors, today);
        push_str(&mut s, row.as_str());
        assert(items@.take(i + 1).drop_last() =~= items@.take(i as int));
        i = i + 1;
    }
    assert(items@.take(items.len() as int) =~= items@);
    s
}

/// Formats tasks as a table, as of today's local date.
pub fn format_items_table(items: &[&Item], cache: &Cache, use_colors: bool) -> (s: String)
    requires
        forall|k: int| 0 <= k < items@.len() ==> item_printable(*#[trigger] items@[k], cache.projects@),
    ensures
        exists|today: int| s@ == #[trigger] items_table(items@, cache.projects@, use_colors, today),
{
    let today = local_today();
    format_items_table_on(items, cache, use_colors, &today)
}

/// The lines of `s` from offset `from` on, as `str::lines` splits them,
/// each written `  <line>\n`.
pub open spec fn indented_lines(s: Seq<char>, from: int) -> Seq<char>
    decreases s.len() - from,
{
    if from < 0 || from >= s.len() {
        Seq::empty()
    } else {
        let i = find_char(s, '\n', from);
        if i >= s.len() {
            "  "@ + s.subrange(from, s.len() as int) + "\n"@
        } else {
            proof {
                lemma_find_char(s, '\n', from);
            }
            let line = if i > from && s[i - 1] == '\r' {
                s.subrange(from, i - 1)
            } else {
                s.subrange(from, i)
            };
            "  "@ + line + "\n"@ + indented_lines(s, i + 1)
        }
    }
}

/// Appends each line of `s`, indented by two spaces.
pub fn push_indented_lines(out: &mut String, s: &str)
    ensures
        final(out)@ == old(out)@ + indented_lines(s@, 0),
{
    let v = chars_of(s);
    let mut from: usize = 0;
    while from < v.len()
        invariant
            v@ == s@,
            from <= v@.len(),
            out@ + indented_lines(s@, from as int) == old(out)@ + indented_lines(s@, 0),
        decreases v.len() - from,
    {
        let ghost before = out@;
        let i = find_char_in(&v, '\n', from);
        proof {
            lemma_find_char(v@, '\n', from as int);
        }
        push_str(out, "  ");
        if i >= v.len() {
            push_range(out, &v, from, v.len());
            push_str(out, "\n");
            assert(out@ =~= before + indented_lines(s@, from as int));
            assert(indented_lines(s@, v.len() as int) == Seq::<char>::empty());
            assert(out@ + indented_lines(s@, v.len() as int) =~= out@);
            from = v.len();
        } else {
            if i > from && v[i - 1] == '\r' {
                push_range(out, &v, from, i - 1);
            } else {
                push_range(out, &v, from, i);
            }
            push_str(out, "\n");
            assert(before + indented_lines(s@, from as int) =~= out@ + indented_lines(s@, i + 1));
            from = i + 1;
        }
    }
}

/// How the details show a due date on day `today` (as it is on chrono's
/// last day, which has no day after it).
pub open spec fn verbose_due_at(due: Due, use_colors: bool, today: int) -> Seq<char> {
    if today < MAX_DAY {
        due_verbose_text(due, use_colors, today)
    } else {
        due.date@
    }
}

fn verbose_due_text_at(due: &Due, use_colors: bool, today: &CalDate) -> (r: String)
    ensures
        r@ == verbose_due_at(*due, use_colors, today.num()),
{
    if today.day_number() == MAX_DAY {
        string_of(due.date.as_str())
    } else {
        format_due_verbose_on(due, use_colors, today)
    }
}

/// Labels written `@a, @b, @c`.
pub open spec fn comma_labels(labels: Seq<String>) -> Seq<char>
    decreases labels.len(),
{
    if labels.len() == 0 {
        Seq::empty()
    } else if labels.len() == 1 {
        "@"@ + labels[0]@
    } else {
        comma_labels(labels.drop_last()) + ", @"@ + labels.last()@
    }
}

/// `label value\n` for an optional value.
pub open spec fn opt_field(label: Seq<char>, v: Option<String>) -> Seq<char> {
    match v {
        Some(x) => label + x@ + "\n"@,
        None => Seq::empty(),
    }
}

/// The head of the task details on day `today`, with `created` shown as
/// the creation time: content, ID, project, section, priority, due date,
/// labels, creation time and description.
pub open spec fn details_head(r: ShowResult, use_colors: bool, today: int, created: Seq<char>) -> Seq<char> {
    details_ids(r, use_colors) + details_dates(r, use_colors, today) + details_tail(r, created)
}

/// Content, ID, project, section and priority.
pub open spec fn details_ids(r: ShowResult, use_colors: bool) -> Seq<char> {
    let item = *r.item;
    (if use_colors {
        bold_text("Task:"@)
    } else {
        "Task:"@
    }) + " "@ + item.content@ + "
"@ + "ID: "@ + item.id@ + "
"@ + opt_field("Project: "@, r.project_name)
        + opt_field("Section: "@, r.section_name) + "Priority: "@ + format_priority_verbose_spec(
        item.priority as int,
        use_colors,
    ) + "
"@
}

/// The due date and the labels.
pub open spec fn details_dates(r: ShowResult, use_colors: bool, today: int) -> Seq<char> {
    (match r.item.due {
        Some(d) => "Due: "@ + verbose_due_at(d, use_colors, today) + "
"@,
        None => Seq::empty(),
    }) + (if r.labels@.len() > 0 {
        "Labels: "@ + comma_labels(r.labels@) + "
"@
    } else {
        Seq::empty()
    })
}

/// The creation time and the description.
pub open spec fn details_tail(r: ShowResult, created: Seq<char>) -> Seq<char> {
    (if r.item.added_at is Some {
        "Created: "@ + created + "
"@
    } else {
        Seq::empty()
    }) + (if r.item.description@.len() > 0 {
        "Description:\n"@ + indented_lines(r.item.description@, 0)
    } else {
        Seq::empty()
    })
}

/// The subtask lines: `  [x] content` or `  [ ] content`.
pub open spec fn subtask_lines(xs: Seq<&Item>) -> Seq<char>
    decreases xs.len(),
{
    if xs.len() == 0 {
        Seq::empty()
    } else {
        subtask_lines(xs.drop_last()) + "  "@ + (if xs.last().checked {
            "[x]"@
        } else {
            "[ ]"@
        }) + " "@ + xs.last().content@ + "\n"@
    }
}

/// One comment of the details, with `stamp` shown as its time: the time in
/// brackets when there is one, the lines of its text, and a blank line.
pub open spec fn comment_block(n: Note, stamp: Seq<char>) -> Seq<char> {
    (if stamp.len() > 0 {
        "  ["@ + stamp + "]\n"@
    } else {
        Seq::empty()
    }) + indented_lines(n.content@, 0) + "\n"@
}

/// The comment blocks, `stamps[k]` shown as the time of comment `k`.
pub open spec fn comment_blocks(ns: Seq<&Note>, stamps: Seq<Seq<char>>) -> Seq<char>
    decreases ns.len(),
{
    if ns.len() == 0 {
        Seq::empty()
    } else {
        comment_blocks(ns.drop_last(), stamps) + comment_block(*ns.last(), stamps[ns.len() - 1])
    }
}

/// The reminder lines: `  - <when>`.
pub open spec fn reminder_lines(rs: Seq<&Reminder>) -> Seq<char>
    decreases rs.len(),
{
    if rs.len() == 0 {
        Seq::empty()
    } else {
        reminder_lines(rs.drop_last()) + "  - "@ + reminder_text(*rs.last()) + "\n"@
    }
}

/// A titled part with a count: nothing when `n` is zero.
pub open spec fn counted_part(title: Seq<char>, n: nat, body: Seq<char>) -> Seq<char> {
    if n == 0 {
        Seq::empty()
    } else {
        "\n"@ + title + " ("@ + decimal(n) + "):\n"@ + body
    }
}

/// The task details on day `today`, with `created` shown as the creation
/// time and `stamps[k]` as the time of comment `k`.
pub open spec fn item_details(
    r: ShowResult,
    use_colors: bool,
    today: int,
    created: Seq<char>,
    stamps: Seq<Seq<char>>,
) -> Seq<char> {
    details_head(r, use_colors, today, created) + counted_part(
        "Subtasks"@,
        r.subtasks@.len(),
        subtask_lines(r.subtasks@),
    ) + counted_part("Comments"@, r.comments@.len(), comment_blocks(r.comments@, stamps)) + counted_part(
        "Reminders"@,
        r.reminders@.len(),
        reminder_lines(r.reminders@),
    )
}

fn push_comma_labels(out: &mut String, labels: &Vec<String>)
    ensures
        final(out)@ == old(out)@ + comma_labels(labels@),
{
    let mut i: usize = 0;
    while i < labels.len()
        invariant
            i <= labels@.len(),
            out@ == old(out)@ + comma_labels(labels@.take(i as int)),
        decreases labels.len() - i,
    {
        let ghost before = out@;
        if i > 0 {
            push_str(out, ", @");
        } else {
            push_str(out, "@");
        }
        push_str(out, labels[i].as_str());
        let ghost t = labels@.take(i + 1);
        assert(t.drop_last() =~= labels@.take(i as int));
        assert(out@ =~= old(out)@ + comma_labels(t));
        i = i + 1;
    }
    assert(labels@.take(labels@.len() as int) =~= labels@);
}

fn details_ids_text(r: &ShowResult, use_colors: bool) -> (s: String)
    requires
        priority_in_range(r.item.priority as int),
    ensures
        s@ == details_ids(*r, use_colors),
{
    let item = r.item;
    let mut s = if use_colors {
        bold("Task:")
    } else {
        string_of("Task:")
    };
    push_str(&mut s, " ");
    push_str(&mut s, item.content.as_str());
    push_str(&mut s, "\n");
    push_str(&mut s, "ID: ");
    push_str(&mut s, item.id.as_str());
    push_str(&mut s, "\n");
    let ghost a = s@;
    if let Some(p) = &r.project_name {
        push_str(&mut s, "Project: ");
        push_str(&mut s, p.as_str());
        push_str(&mut s, "\n");
    }
    assert(s@ =~= a + opt_field("Project: "@, r.project_name));
    let ghost b = s@;
    if let Some(x) = &r.section_name {
        push_str(&mut s, "Section: ");
        push_str(&mut s, x.as_str());
        push_str(&mut s, "\n");
    }
    assert(s@ =~= b + opt_field("Section: "@, r.section_name));
    push_str(&mut s, "Priority: ");
    let pv = format_priority_verbose(item.priority, use_colors);
    push_str(&mut s, pv.as_str());
    push_str(&mut s, "\n");
    assert(s@ =~= details_ids(*r, use_colors));
    s
}

fn details_dates_text(r: &ShowResult, use_colors: bool, today: &CalDate) -> (s: String)
    ensures
        s@ == details_dates(*r, use_colors, today.num()),
{
    let mut s = String::new();
    if let Some(d) = &r.item.due {
        push_str(&mut s, "Due: ");
        let dv = verbose_due_text_at(d, use_colors, today);
        push_str(&mut s, dv.as_str());
        push_str(&mut s, "\n");
    }
    let ghost a = s@;
    if r.labels.len() > 0 {
        push_str(&mut s, "Labels: ");
        push_comma_labels(&mut s, &r.labels);
        push_str(&mut s, "\n");
    }
    assert(s@ =~= details_dates(*r, use_colors, today.num()));
    s
}

fn details_tail_text(r: &ShowResult, created: &str) -> (s: String)
    ensures
        s@ == details_tail(*r, created@),
{
    let mut s = String::new();
    if r.item.added_at.is_some() {
        push_str(&mut s, "Created: ");
        push_str(&mut s, created);
        push_str(&mut s, "\n");
    }
    let ghost a = s@;
    if r.item.description.unicode_len() > 0 {
        push_str(&mut s, "Description:\n");
        push_indented_lines(&mut s, r.item.description.as_str());
    }
    assert(s@ =~= details_tail(*r, created@));
    s
}

fn details_head_text(r: &ShowResult, use_colors: bool, today: &CalDate, created: &str) -> (s: String)
    requires
        priority_in_range(r.item.priority as int),
    ensures
        s@ == details_head(*r, use_colors, today.num(), created@),
{
    let mut s = details_ids_text(r, use_colors);
    let b = details_dates_text(r, use_colors, today);
    push_str(&mut s, b.as_str());
    let c = details_tail_text(r, created);
    push_str(&mut s, c.as_str());
    assert(s@ =~= details_head(*r, use_colors, today.num(), created@));
    s
}

fn push_counted_head(out: &mut String, title: &str, n: usize)
    ensures
        final(out)@ == old(out)@ + "\n"@ + title@ + " ("@ + decimal(n as nat) + "):\n"@,
{
    push_str(out, "\n");
    push_str(out, title);
    push_str(out, " (");
    push_u64(out, n as u64);
    push_str(out, "):\n");
}

fn subtasks_text(xs: &Vec<&Item>) -> (s: String)
    ensures
        s@ == counted_part("Subtasks"@, xs@.len(), subtask_lines(xs@)),
{
    let mut s = String::new();
    if xs.len() == 0 {
        return s;
    }
    push_counted_head(&mut s, "Subtasks", xs.len());
    let ghost head = s@;
    let mut i: usize = 0;
    while i < xs.len()
        invariant
            i <= xs@.len(),
            s@ == head + subtask_lines(xs@.take(i as int)),
        decreases xs.len() - i,
    {
        push_str(&mut s, "  ");
        if xs[i].checked {
            push_str(&mut s, "[x]");
        } else {
            push_str(&mut s, "[ ]");
        }
        push_str(&mut s, " ");
        push_str(&mut s, xs[i].content.as_str());
        push_str(&mut s, "\n");
        assert(xs@.take(i + 1).drop_last() =~= xs@.take(i as int));
        i = i + 1;
    }
    assert(xs@.take(xs.len() as int) =~= xs@);
    s
}

fn comments_text(ns: &Vec<&Note>, stamps: &Vec<String>) -> (s: String)
    requires
        stamps@.len() == ns@.len(),
    ensures
        s@ == counted_part("Comments"@, ns@.len(), comment_blocks(ns@, stamps@.map_values(|p: String| p@))),
{
    let ghost ps = stamps@.map_values(|p: String| p@);
    let mut s = String::new();
    if ns.len() == 0 {
        return s;
    }
    push_counted_head(&mut s, "Comments", ns.len());
    let ghost head = s@;
    let mut i: usize = 0;
    while i < ns.len()
        invariant
            i <= ns@.len(),
            stamps@.len() == ns@.len(),
            ps == stamps@.map_values(|p: String| p@),
            s@ == head + comment_blocks(ns@.take(i as int), ps),
        decreases ns.len() - i,
    {
        let ghost before = s@;
        if stamps[i].unicode_len() > 0 {
            push_str(&mut s, "  [");
            push_str(&mut s, stamps[i].as_str());
            push_str(&mut s, "]\n");
        }
        push_indented_lines(&mut s, ns[i].content.as_str());
        push_str(&mut s, "\n");
        assert(s@ =~= before + comment_block(*ns@[i as int], ps[i as int]));
        assert(ns@.take(i + 1).drop_last() =~= ns@.take(i as int));
        i = i + 1;
    }
    assert(ns@.take(ns.len() as int) =~= ns@);
    s
}

fn reminders_text(rs: &Vec<&Reminder>) -> (s: String)
    ensures
        s@ == counted_part("Reminders"@, rs@.len(), reminder_lines(rs@)),
{
    let mut s = String::new();
    if rs.len() == 0 {
        return s;
    }
    push_counted_head(&mut s, "Reminders", rs.len());
    let ghost head = s@;
    let mut i: usize = 0;
    while i < rs.len()
        invariant
            i <= rs@.len(),
            s@ == head + reminder_lines(rs@.take(i as int)),
        decreases rs.len() - i,
    {
        push_str(&mut s, "  - ");
        let d = format_reminder(rs[i]);
        push_str(&mut s, d.as_str());
        push_str(&mut s, "\n");
        assert(rs@.take(i + 1).drop_last() =~= rs@.take(i as int));
        i = i + 1;
    }
    assert(rs@.take(rs.len() as int) =~= rs@);
    s
}

/// Formats task details as a table on day `today`, with `created` shown as
/// the creation time and `stamps[k]` as the time of comment `k`.
pub fn format_item_details_table_with(
    result: &ShowResult,
    use_colors: bool,
    today: &CalDate,
    created: &str,
    stamps: &Vec<String>,
) -> (s: String)
    requires
        priority_in_range(result.item.priority as int),
        stamps@.len() == result.comments@.len(),
    ensures
        s@ == item_details(*result, use_colors, today.num(), created@, stamps@.map_values(|p: String| p@)),
{
    let mut s = details_head_text(result, use_colors, today, created);
    let a = subtasks_text(&result.subtasks);
    push_str(&mut s, a.as_str());
    let b = comments_text(&result.comments, stamps);
    push_str(&mut s, b.as_str());
    let c = reminders_text(&result.reminders);
    push_str(&mut s, c.as_str());
    s
}

/// Formats task details as a table, as of today's local date, times shown
/// in local time.
pub fn format_item_details_table(result: &ShowResult, use_colors: bool) -> (s: String)
    requires
        priority_in_range(result.item.priority as int),
    ensures
        exists|today: int, created: Seq<char>, stamps: Seq<Seq<char>>|
            stamps.len() == result.comments@.len() && stamp_shown(result.item.added_at, created) && (forall|k: int|
                0 <= k < stamps.len() ==> stamp_shown(result.comments@[k].posted_at, #[trigger] stamps[k])) && s@
                == item_details(*result, use_colors, today, created, stamps),
{
    let today = local_today();
    let created = match &result.item.added_at {
        Some(t) => format_datetime(t.as_str()),
        None => String::new(),
    };
    let mut stamps: Vec<String> = Vec::new();
    let mut i: usize = 0;
    while i < result.comments.len()
        invariant
            i <= result.comments@.len(),
            stamps@.len() == i,
            forall|k: int| 0 <= k < i ==> stamp_shown(result.comments@[k].posted_at, #[trigger] stamps@[k]@),
        decreases result.comments.len() - i,
    {
        let p = match &result.comments[i].posted_at {
            Some(t) => format_datetime(t.as_str()),
            None => String::new(),
        };
        stamps.push(p);
        i = i + 1;
    }
    let s = format_item_details_table_with(result, use_colors, &today, created.as_str(), &stamps);
    let ghost ps = stamps@.map_values(|p: String| p@);
    assert forall|k: int| 0 <= k < ps.len() implies stamp_shown(result.comments@[k].posted_at, #[trigger] ps[k]) by {}
    assert(stamp_shown(result.item.added_at, created@));
    s
}

} // verus!
