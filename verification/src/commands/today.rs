//! `td today`: the agenda of overdue, today's and upcoming tasks, and how
//! it is printed.

use vstd::prelude::*;
use crate::commands::list::{arrange, kept, lemma_derefs_permuted, permuted};
use crate::commands::lookup::{project_name_of, project_name_by_id};
use crate::commands::show::derefs;
use crate::dates::{CalDate, MAX_DAY, MIN_DAY, date_number, date_text, local_today, short_date, time_of_day, time_of_day_spec};
use crate::model::{Cache, Due, Item, Project};
use crate::output::helpers::{format_priority, format_priority_spec, priority_in_range, truncate_spec, truncate_str};
use crate::sort::{KeyView, SortKey, before, is_stable_order, key_eq, key_lt, key_views};
use crate::style::{bold, bold_text, cyan, cyan_text, dimmed, dimmed_text, red, red_text, yellow, yellow_text};
use crate::text::{chars_of, decimal, int_text, pad_right, push_i64, push_padded, push_str, push_u64, string_of};

verus! {

/// Options for the today command.
#[derive(Debug)]
pub struct TodayOptions {
    /// Include overdue tasks.
    pub include_overdue: bool,
    /// Include tasks due within N days.
    pub include_upcoming: Option<u32>,
}

/// The agenda: tasks by category.
pub struct TodayResult<'a> {
    /// Overdue tasks.
    pub overdue: Vec<&'a Item>,
    /// Tasks due today.
    pub today: Vec<&'a Item>,
    /// Upcoming tasks (within N days).
    pub upcoming: Vec<&'a Item>,
    /// Number of days for upcoming tasks.
    pub upcoming_days: Option<u32>,
}

/// Where a task goes in the agenda.
#[derive(PartialEq, Eq, Structural, Clone, Copy)]
pub enum Bucket {
    Skip,
    Overdue,
    Today,
    Upcoming,
}

/// The category of a task on day `today`: open tasks with a readable due
/// date before today are overdue (if shown), on today are today's, and up to
/// `include_upcoming` days later are upcoming.
pub open spec fn bucket(item: Item, today: int, opts: TodayOptions) -> Bucket {
    if item.is_deleted || item.checked {
        Bucket::Skip
    } else {
        match item.due {
            None => Bucket::Skip,
            Some(d) => match date_number(d.date@) {
                None => Bucket::Skip,
                Some(n) => if n < today {
                    if opts.include_overdue {
                        Bucket::Overdue
                    } else {
                        Bucket::Skip
                    }
                } else if n == today {
                    Bucket::Today
                } else {
                    match opts.include_upcoming {
                        Some(k) => if n <= today + k {
                            Bucket::Upcoming
                        } else {
                            Bucket::Skip
                        },
                        None => Bucket::Skip,
                    }
                },
            },
        }
    }
}

/// The tasks of one category, in cache order.
pub open spec fn in_bucket(items: Seq<Item>, today: int, opts: TodayOptions, b: Bucket) -> Seq<Item> {
    kept(items, |k: int, i: Item| bucket(i, today, opts) == b, items.len() as int)
}

/// Order by due date, then higher priority first.
pub open spec fn due_key(item: Item) -> KeyView {
    match item.due {
        Some(d) => (0u8, d.date@, (-item.priority) as i64),
        None => (0u8, Seq::empty(), (-item.priority) as i64),
    }
}

/// Order by higher priority first.
pub open spec fn priority_key(item: Item) -> KeyView {
    (0u8, Seq::empty(), (-item.priority) as i64)
}

/// `shown` is `sel` sorted stably by `key`.
pub open spec fn sorted_by(sel: Seq<Item>, key: spec_fn(Item) -> KeyView, shown: Seq<Item>) -> bool {
    exists|perm: Seq<int>|
        is_stable_order(sel.map_values(key), perm) && shown == #[trigger] permuted(sel, perm)
}

/// The agenda of the cache on day `today`.
pub open spec fn agenda(cache: Cache, opts: TodayOptions, today: int, r: TodayResult) -> bool {
    &&& sorted_by(in_bucket(cache.items@, today, opts, Bucket::Overdue), |i: Item| due_key(i), derefs(r.overdue@))
    &&& sorted_by(in_bucket(cache.items@, today, opts, Bucket::Today), |i: Item| priority_key(i), derefs(r.today@))
    &&& sorted_by(in_bucket(cache.items@, today, opts, Bucket::Upcoming), |i: Item| due_key(i), derefs(r.upcoming@))
    &&& r.upcoming_days == opts.include_upcoming
}

/// The upcoming window ends within chrono's calendar.
pub open spec fn window_fits(opts: TodayOptions, today: int) -> bool {
    opts.include_upcoming matches Some(k) ==> today + k <= MAX_DAY
}

fn due_sort_key(item: &Item) -> (k: SortKey)
    ensures
        k.kv() == due_key(*item),
{
    match &item.due {
        Some(d) => SortKey { group: 0, text: chars_of(d.date.as_str()), num: -(item.priority as i64) },
        None => SortKey { group: 0, text: Vec::new(), num: -(item.priority as i64) },
    }
}

fn priority_sort_key(item: &Item) -> (k: SortKey)
    ensures
        k.kv() == priority_key(*item),
{
    SortKey { group: 0, text: Vec::new(), num: -(item.priority as i64) }
}

/// Sorts tasks stably by the keys given for them.
fn sort_by_key_list<'a>(
    items: Vec<&'a Item>,
    keys: &Vec<SortKey>,
    Ghost(key): Ghost<spec_fn(Item) -> KeyView>,
) -> (r: Vec<&'a Item>)
    requires
        keys.len() == items.len(),
        forall|j: int| 0 <= j < keys.len() ==> (#[trigger] keys@[j]).kv() == key(derefs(items@)[j]),
    ensures
        sorted_by(derefs(items@), key, derefs(r@)),
{
    assert(key_views(keys@) =~= derefs(items@).map_values(key));
    let r = arrange(items, keys);
    let ghost perm = choose|perm: Seq<int>| is_stable_order(key_views(keys@), perm) && r@ == #[trigger] permuted(items@, perm);
    proof {
        lemma_derefs_permuted(items@, perm);
    }
    assert(is_stable_order(derefs(items@).map_values(key), perm) && derefs(r@) == permuted(derefs(items@), perm));
    r
}

/// Categorizes the open tasks of the cache on day `today`.
pub fn categorize_on<'a>(cache: &'a Cache, opts: &TodayOptions, today: &CalDate) -> (r: TodayResult<'a>)
    requires
        window_fits(*opts, today.num()),
    ensures
        agenda(*cache, *opts, today.num(), r),
{
    let today_n = today.day_number();
    let ghost t = today.num();
    let mut overdue: Vec<&'a Item> = Vec::new();
    let mut due_today: Vec<&'a Item> = Vec::new();
    let mut upcoming: Vec<&'a Item> = Vec::new();
    let mut ko: Vec<SortKey> = Vec::new();
    let mut kt: Vec<SortKey> = Vec::new();
    let mut ku: Vec<SortKey> = Vec::new();
    let ghost items = cache.items@;
    assert(derefs(overdue@) =~= Seq::<Item>::empty());
    assert(derefs(due_today@) =~= Seq::<Item>::empty());
    assert(derefs(upcoming@) =~= Seq::<Item>::empty());
    let mut k: usize = 0;
    while k < cache.items.len()
        invariant
            k <= cache.items.len(),
            items == cache.items@,
            today_n as int == t,
            derefs(overdue@) == kept(items, |k: int, i: Item| bucket(i, t, *opts) == Bucket::Overdue, k as int),
            derefs(due_today@) == kept(items, |k: int, i: Item| bucket(i, t, *opts) == Bucket::Today, k as int),
            derefs(upcoming@) == kept(items, |k: int, i: Item| bucket(i, t, *opts) == Bucket::Upcoming, k as int),
            ko.len() == overdue.len(),
            kt.len() == due_today.len(),
            ku.len() == upcoming.len(),
            forall|j: int| 0 <= j < ko.len() ==> (#[trigger] ko@[j]).kv() == due_key(derefs(overdue@)[j]),
            forall|j: int| 0 <= j < kt.len() ==> (#[trigger] kt@[j]).kv() == priority_key(derefs(due_today@)[j]),
            forall|j: int| 0 <= j < ku.len() ==> (#[trigger] ku@[j]).kv() == due_key(derefs(upcoming@)[j]),
        decreases cache.items.len() - k,
    {
        let item = &cache.items[k];
        let mut b = Bucket::Skip;
        if !item.is_deleted && !item.checked {
            if let Some(d) = &item.due {
                if let Some(dd) = CalDate::parse(d.date.as_str()) {
                    let n = dd.day_number();
                    if n < today_n {
                        if opts.include_overdue {
                            b = Bucket::Overdue;
                        }
                    } else if n == today_n {
                        b = Bucket::Today;
                    } else if let Some(days) = opts.include_upcoming {
                        if (n as i64) <= (today_n as i64) + (days as i64) {
                            b = Bucket::Upcoming;
                        }
                    }
                }
            }
        }
        assert(b == bucket(items[k as int], t, *opts));
        let ghost (o0, t0, u0) = (overdue@, due_today@, upcoming@);
        match b {
            Bucket::Overdue => {
                overdue.push(item);
                ko.push(due_sort_key(item));
                assert(derefs(overdue@) =~= derefs(o0).push(*item));
            },
            Bucket::Today => {
                due_today.push(item);
                kt.push(priority_sort_key(item));
                assert(derefs(due_today@) =~= derefs(t0).push(*item));
            },
            Bucket::Upcoming => {
                upcoming.push(item);
                ku.push(due_sort_key(item));
                assert(derefs(upcoming@) =~= derefs(u0).push(*item));
            },
            Bucket::Skip => {},
        }
        k = k + 1;
    }
    let overdue = sort_by_key_list(overdue, &ko, Ghost(|i: Item| due_key(i)));
    let due_today = sort_by_key_list(due_today, &kt, Ghost(|i: Item| priority_key(i)));
    let upcoming = sort_by_key_list(upcoming, &ku, Ghost(|i: Item| due_key(i)));
    TodayResult { overdue, today: due_today, upcoming, upcoming_days: opts.include_upcoming }
}

/// The agenda on day `today`, or `None` where its upcoming window would end
/// past chrono's last date.
pub open spec fn categorized(cache: Cache, opts: TodayOptions, today: int, r: Option<TodayResult>) -> bool {
    match r {
        Some(res) => window_fits(opts, today) && agenda(cache, opts, today, res),
        None => !window_fits(opts, today),
    }
}

/// Categorizes the open tasks of the cache as of today's local date; `None`
/// where the upcoming window would end past chrono's last date.
pub fn categorize_tasks<'a>(cache: &'a Cache, opts: &TodayOptions) -> (r: Option<TodayResult<'a>>)
    ensures
        exists|today: int| #[trigger] categorized(*cache, *opts, today, r),
{
    let today = local_today();
    let n = today.day_number();
    if let Some(days) = opts.include_upcoming {
        if (n as i64) + (days as i64) > MAX_DAY as i64 {
            assert(categorized(*cache, *opts, today.num(), None));
            return None;
        }
    }
    let r = categorize_on(cache, opts, &today);
    assert(categorized(*cache, *opts, today.num(), Some(r)));
    Some(r)
}

} // verus!

verus! {

/// The date part of a due date in the agenda, for day `n` seen on day `today`.
pub open spec fn agenda_date_text(n: int, today: int) -> Seq<char> {
    if n == today {
        "Today"@
    } else if n == today + 1 {
        "Tomorrow"@
    } else if n < today {
        if today - n == 1 {
            "Yesterday"@
        } else {
            int_text(today - n) + " days ago"@
        }
    } else {
        date_text(n, "%b %d"@)
    }
}

/// Overdue dates in red, today's in yellow, when colours are on.
pub open spec fn due_colored(n: int, today: int, s: Seq<char>, use_colors: bool) -> Seq<char> {
    if use_colors && n < today {
        red_text(s)
    } else if use_colors && n == today {
        yellow_text(s)
    } else {
        s
    }
}

/// `text` followed by ` HH:MM` where the due has a time of day.
pub open spec fn with_time(text: Seq<char>, datetime: Option<String>) -> Seq<char> {
    match datetime {
        Some(dt) => match time_of_day_spec(dt@) {
            Some(hm) => text + " "@ + hm,
            None => text,
        },
        None => text,
    }
}

/// How a due date shows in the agenda on day `today`.
pub open spec fn due_for_today_spec(due: Option<Due>, use_colors: bool, today: int) -> Seq<char> {
    match due {
        None => Seq::empty(),
        Some(d) => match date_number(d.date@) {
            None => d.date@,
            Some(n) => due_colored(n, today, with_time(agenda_date_text(n, today), d.datetime), use_colors),
        },
    }
}

/// Colours a due text for day `n` seen on day `today`.
fn color_due(n: i32, today: i32, s: String, use_colors: bool) -> (r: String)
    ensures
        r@ == due_colored(n as int, today as int, s@, use_colors),
{
    if use_colors && n < today {
        red(s.as_str())
    } else if use_colors && n == today {
        yellow(s.as_str())
    } else {
        s
    }
}

/// Formats a due date for the agenda on day `today`.
pub fn format_due_for_today(due: Option<&Due>, use_colors: bool, today: &CalDate) -> (r: String)
    requires
        today.num() < MAX_DAY,
    ensures
        r@ == due_for_today_spec(
            match due {
                Some(d) => Some(*d),
                None => None,
            },
            use_colors,
            today.num(),
        ),
{
    let d = match due {
        None => {
            return String::new();
        },
        Some(d) => d,
    };
    let dd = match CalDate::parse(d.date.as_str()) {
        None => {
            return d.date.clone();
        },
        Some(dd) => dd,
    };
    let n = dd.day_number();
    let t = today.day_number();
    let mut text = if n == t {
        string_of("Today")
    } else if n as i64 == t as i64 + 1 {
        string_of("Tomorrow")
    } else if n < t {
        let days: i64 = t as i64 - n as i64;
        if days == 1 {
            string_of("Yesterday")
        } else {
            let mut s = String::new();
            push_i64(&mut s, days);
            push_str(&mut s, " days ago");
            s
        }
    } else {
        short_date(&dd)
    };
    assert(text@ == agenda_date_text(n as int, t as int));
    if let Some(dt) = &d.datetime {
        if let Some(hm) = time_of_day(dt.as_str()) {
            push_str(&mut text, " ");
            push_str(&mut text, hm.as_str());
        }
    }
    color_due(n, t, text, use_colors)
}

/// What a task needs for its agenda line to be printed: a priority whose
/// user priority is an `i32`, and a project name that can be cut at 17 bytes.
pub open spec fn line_printable(item: Item, projects: Seq<Project>) -> bool {
    &&& priority_in_range(item.priority as int)
}

/// The project column of an agenda line.
pub open spec fn project_column(item: Item, projects: Seq<Project>, use_colors: bool) -> Seq<char> {
    let name = match project_name_of(projects, item.project_id@) {
        Some(n) => truncate_spec(n, 20),
        None => Seq::empty(),
    };
    if use_colors {
        dimmed_text(name)
    } else {
        name
    }
}

/// One line of the agenda: `  <priority>  <due, 12 wide> <content, 35 wide> <project>`.
pub open spec fn task_line_spec(item: Item, projects: Seq<Project>, use_colors: bool, today: int) -> Seq<char> {
    "  "@ + format_priority_spec(item.priority as int, use_colors) + "  "@ + pad_right(
        due_for_today_spec(item.due, use_colors, today),
        12,
    ) + " "@ + pad_right(item.content@, 35) + " "@ + project_column(item, projects, use_colors) + "\n"@
}

/// Formats a single task line for the agenda.
pub fn format_task_line(item: &Item, cache: &Cache, use_colors: bool, today: &CalDate) -> (r: String)
    requires
        today.num() < MAX_DAY,
        line_printable(*item, cache.projects@),
    ensures
        r@ == task_line_spec(*item, cache.projects@, use_colors, today.num()),
{
    let priority = format_priority(item.priority, use_colors);
    let due = format_due_for_today(
        match &item.due {
            Some(d) => Some(d),
            None => None,
        },
        use_colors,
        today,
    );
    let name = match project_name_by_id(&cache.projects, item.project_id.as_str()) {
        Some(n) => truncate_str(n.as_str(), 20),
        None => String::new(),
    };
    let project = if use_colors {
        dimmed(name.as_str())
    } else {
        name
    };
    let mut r = string_of("  ");
    push_str(&mut r, priority.as_str());
    push_str(&mut r, "  ");
    push_padded(&mut r, due.as_str(), 12);
    push_str(&mut r, " ");
    push_padded(&mut r, item.content.as_str(), 35);
    push_str(&mut r, " ");
    push_str(&mut r, project.as_str());
    push_str(&mut r, "\n");
    r
}

/// The agenda lines of a list of tasks.
pub open spec fn task_lines(items: Seq<Item>, projects: Seq<Project>, use_colors: bool, today: int) -> Seq<char>
    decreases items.len(),
{
    if items.len() == 0 {
        Seq::empty()
    } else {
        task_lines(items.drop_last(), projects, use_colors, today) + task_line_spec(
            items.last(),
            projects,
            use_colors,
            today,
        )
    }
}

/// Appends the agenda lines of `items`.
fn push_task_lines(out: &mut String, items: &Vec<&Item>, cache: &Cache, use_colors: bool, today: &CalDate)
    requires
        today.num() < MAX_DAY,
        forall|j: int| 0 <= j < items.len() ==> line_printable(#[trigger] *items@[j], cache.projects@),
    ensures
        final(out)@ == old(out)@ + task_lines(derefs(items@), cache.projects@, use_colors, today.num()),
{
    let mut i: usize = 0;
    while i < items.len()
        invariant
            i <= items.len(),
            today.num() < MAX_DAY,
            forall|j: int| 0 <= j < items.len() ==> line_printable(#[trigger] *items@[j], cache.projects@),
            out@ == old(out)@ + task_lines(derefs(items@).take(i as int), cache.projects@, use_colors, today.num()),
        decreases items.len() - i,
    {
        let line = format_task_line(items[i], cache, use_colors, today);
        push_str(out, line.as_str());
        assert(derefs(items@).take(i + 1).drop_last() =~= derefs(items@).take(i as int));
        i = i + 1;
    }
    assert(derefs(items@).take(items.len() as int) =~= derefs(items@));
}

/// Section colours.
#[derive(PartialEq, Eq, Structural, Clone, Copy)]
pub enum Tint {
    Red,
    Yellow,
    Cyan,
}

/// A section title, bold and tinted when colours are on.
pub open spec fn styled_title(h: Seq<char>, tint: Tint, use_colors: bool) -> Seq<char> {
    if use_colors {
        bold_text(
            match tint {
                Tint::Red => red_text(h),
                Tint::Yellow => yellow_text(h),
                Tint::Cyan => cyan_text(h),
            },
        )
    } else {
        h
    }
}

/// A section of the agenda: nothing for no tasks, else its title, its
/// lines, and (but for the last section) an empty line.
pub open spec fn section_part(
    title: Seq<char>,
    tint: Tint,
    items: Seq<Item>,
    projects: Seq<Project>,
    use_colors: bool,
    today: int,
    trailing: bool,
) -> Seq<char> {
    if items.len() == 0 {
        Seq::empty()
    } else {
        styled_title(title, tint, use_colors) + "\n"@ + task_lines(items, projects, use_colors, today) + (if trailing {
            "\n"@
        } else {
            Seq::empty()
        })
    }
}

/// The header of the agenda, with the count of its tasks.
pub open spec fn header_part(total: nat, use_colors: bool) -> Seq<char> {
    let header = "Today's Tasks ("@ + decimal(total) + (if total == 1 {
        " task)"@
    } else {
        " tasks)"@
    });
    (if use_colors {
        bold_text(header)
    } else {
        header
    }) + "\n\n"@
}

/// The header of the upcoming section.
pub open spec fn upcoming_title(days: Option<u32>) -> Seq<char> {
    match days {
        Some(d) => "UPCOMING (next "@ + decimal(d as nat) + " days)"@,
        None => "UPCOMING"@,
    }
}

/// The agenda as a table.
pub open spec fn today_table_spec(
    overdue: Seq<Item>,
    today_items: Seq<Item>,
    upcoming: Seq<Item>,
    upcoming_days: Option<u32>,
    projects: Seq<Project>,
    use_colors: bool,
    today: int,
) -> Seq<char> {
    let total = overdue.len() + today_items.len() + upcoming.len();
    if total == 0 {
        "No tasks for today.\n"@
    } else {
        header_part(total, use_colors) + section_part("OVERDUE"@, Tint::Red, overdue, projects, use_colors, today, true)
            + section_part("DUE TODAY"@, Tint::Yellow, today_items, projects, use_colors, today, true)
            + section_part(upcoming_title(upcoming_days), Tint::Cyan, upcoming, projects, use_colors, today, false)
    }
}

/// Every task of the agenda can be printed.
pub open spec fn agenda_printable(r: TodayResult, projects: Seq<Project>) -> bool {
    &&& forall|j: int| 0 <= j < r.overdue.len() ==> line_printable(#[trigger] *r.overdue@[j], projects)
    &&& forall|j: int| 0 <= j < r.today.len() ==> line_printable(#[trigger] *r.today@[j], projects)
    &&& forall|j: int| 0 <= j < r.upcoming.len() ==> line_printable(#[trigger] *r.upcoming@[j], projects)
}

fn agenda_header(total: u64, use_colors: bool) -> (r: String)
    ensures
        r@ == header_part(total as nat, use_colors),
{
    let mut header = string_of("Today's Tasks (");
    push_u64(&mut header, total);
    if total == 1 {
        push_str(&mut header, " task)");
    } else {
        push_str(&mut header, " tasks)");
    }
    let mut out = if use_colors {
        bold(header.as_str())
    } else {
        header
    };
    push_str(&mut out, "\n\n");
    out
}

fn agenda_section(
    title: &str,
    tint: Tint,
    items: &Vec<&Item>,
    cache: &Cache,
    use_colors: bool,
    today: &CalDate,
    trailing: bool,
) -> (r: String)
    requires
        today.num() < MAX_DAY,
        forall|j: int| 0 <= j < items.len() ==> line_printable(#[trigger] *items@[j], cache.projects@),
    ensures
        r@ == section_part(title@, tint, derefs(items@), cache.projects@, use_colors, today.num(), trailing),
{
    if items.len() == 0 {
        return String::new();
    }
    let mut out = if use_colors {
        let c = match tint {
            Tint::Red => red(title),
            Tint::Yellow => yellow(title),
            Tint::Cyan => cyan(title),
        };
        bold(c.as_str())
    } else {
        string_of(title)
    };
    push_str(&mut out, "\n");
    push_task_lines(&mut out, items, cache, use_colors, today);
    if trailing {
        push_str(&mut out, "\n");
    }
    out
}

/// Formats the agenda as a human-readable table, as of day `today`.
pub fn format_today_table(result: &TodayResult, cache: &Cache, use_colors: bool, today: &CalDate) -> (r: String)
    requires
        today.num() < MAX_DAY,
        agenda_printable(*result, cache.projects@),
        result.overdue.len() + result.today.len() + result.upcoming.len() <= u64::MAX,
    ensures
        r@ == today_table_spec(
            derefs(result.overdue@),
            derefs(result.today@),
            derefs(result.upcoming@),
            result.upcoming_days,
            cache.projects@,
            use_colors,
            today.num(),
        ),
{
    let total: u64 = result.overdue.len() as u64 + result.today.len() as u64 + result.upcoming.len() as u64;
    if total == 0 {
        return string_of("No tasks for today.\n");
    }
    let mut out = agenda_header(total, use_colors);
    let s1 = agenda_section("OVERDUE", Tint::Red, &result.overdue, cache, use_colors, today, true);
    push_str(&mut out, s1.as_str());
    let s2 = agenda_section("DUE TODAY", Tint::Yellow, &result.today, cache, use_colors, today, true);
    push_str(&mut out, s2.as_str());
    let title = match result.upcoming_days {
        Some(d) => {
            let mut t = string_of("UPCOMING (next ");
            push_u64(&mut t, d as u64);
            push_str(&mut t, " days)");
            t
        },
        None => string_of("UPCOMING"),
    };
    let s3 = agenda_section(title.as_str(), Tint::Cyan, &result.upcoming, cache, use_colors, today, false);
    push_str(&mut out, s3.as_str());
    out
}

} // verus!

verus! {

use crate::commands::comments::str_opt;
use crate::commands::entities::opt_chars;
use crate::commands::lookup::project_by_id;
use crate::output::helpers::opt_str;
use crate::output::tasks::{due_date_of, user_priority};
use crate::text::views;

/// JSON record of one task of the agenda.
pub struct TodayTaskOutput<'a> {
    pub id: &'a str,
    pub content: &'a str,
    pub priority: u8,
    pub due: Option<&'a str>,
    pub due_time: Option<&'a str>,
    pub project_id: &'a str,
    pub project_name: Option<&'a str>,
    pub labels: &'a [String],
}

/// JSON record of the agenda: its three groups, and how many tasks they
/// hold together.
pub struct TodayOutput<'a> {
    pub overdue: Vec<TodayTaskOutput<'a>>,
    pub today: Vec<TodayTaskOutput<'a>>,
    pub upcoming: Vec<TodayTaskOutput<'a>>,
    pub total_count: usize,
}

/// The due time of a task, if it has one.
pub open spec fn due_time_of(item: Item) -> Option<Seq<char>> {
    match item.due {
        Some(d) => opt_chars(d.datetime),
        None => None,
    }
}

/// `o` is the record of agenda task `item`, among `projects`.
pub open spec fn today_task_of(o: TodayTaskOutput, item: Item, projects: Seq<Project>) -> bool {
    &&& o.id@ == item.id@
    &&& o.content@ == item.content@
    &&& o.priority == user_priority(item.priority)
    &&& str_opt(o.due) == due_date_of(item)
    &&& str_opt(o.due_time) == due_time_of(item)
    &&& o.project_id@ == item.project_id@
    &&& str_opt(o.project_name) == project_name_of(projects, item.project_id@)
    &&& views(o.labels@) == views(item.labels@)
}

/// `os` holds the records of `items`, in order.
pub open spec fn today_tasks_of(os: Seq<TodayTaskOutput>, items: Seq<&Item>, projects: Seq<Project>) -> bool {
    os.len() == items.len() && forall|k: int| 0 <= k < items.len() ==> today_task_of(#[trigger] os[k], *items[k], projects)
}

fn today_task_output<'a>(item: &'a Item, cache: &'a Cache) -> (r: TodayTaskOutput<'a>)
    requires
        priority_in_range(item.priority as int),
    ensures
        today_task_of(r, *item, cache.projects@),
{
    let project_name = match project_by_id(&cache.projects, item.project_id.as_str()) {
        Some(p) => Some(p.name.as_str()),
        None => None,
    };
    let (due, due_time) = match &item.due {
        Some(d) => (Some(d.date.as_str()), opt_str(&d.datetime)),
        None => (None, None),
    };
    TodayTaskOutput {
        id: item.id.as_str(),
        content: item.content.as_str(),
        priority: (5 - item.priority) as u8,
        due,
        due_time,
        project_id: item.project_id.as_str(),
        project_name,
        labels: item.labels.as_slice(),
    }
}

fn today_tasks_output<'a>(items: &Vec<&'a Item>, cache: &'a Cache) -> (r: Vec<TodayTaskOutput<'a>>)
    requires
        forall|k: int| 0 <= k < items@.len() ==> priority_in_range(#[trigger] items@[k].priority as int),
    ensures
        today_tasks_of(r@, items@, cache.projects@),
{
    let mut out: Vec<TodayTaskOutput<'a>> = Vec::new();
    let mut i: usize = 0;
    while i < items.len()
        invariant
            i <= items@.len(),
            out@.len() == i,
            forall|k: int| 0 <= k < items@.len() ==> priority_in_range(#[trigger] items@[k].priority as int),
            forall|k: int| 0 <= k < i ==> today_task_of(#[trigger] out@[k], *items@[k], cache.projects@),
        decreases items.len() - i,
    {
        out.push(today_task_output(items[i], cache));
        i = i + 1;
    }
    out
}

/// The record of the agenda: one record per task in each group, in order,
/// and the number of tasks in all three.
pub fn today_output<'a>(result: &'a TodayResult<'a>, cache: &'a Cache) -> (r: TodayOutput<'a>)
    requires
        forall|k: int| 0 <= k < result.overdue@.len() ==> priority_in_range(#[trigger] result.overdue@[k].priority as int),
        forall|k: int| 0 <= k < result.today@.len() ==> priority_in_range(#[trigger] result.today@[k].priority as int),
        forall|k: int|
            0 <= k < result.upcoming@.len() ==> priority_in_range(#[trigger] result.upcoming@[k].priority as int),
        result.overdue@.len() + result.today@.len() + result.upcoming@.len() <= usize::MAX,
    ensures
        today_tasks_of(r.overdue@, result.overdue@, cache.projects@),
        today_tasks_of(r.today@, result.today@, cache.projects@),
        today_tasks_of(r.upcoming@, result.upcoming@, cache.projects@),
        r.total_count == result.overdue@.len() + result.today@.len() + result.upcoming@.len(),
{
    TodayOutput {
        overdue: today_tasks_output(&result.overdue, cache),
        today: today_tasks_output(&result.today, cache),
        upcoming: today_tasks_output(&result.upcoming, cache),
        total_count: result.overdue.len() + result.today.len() + result.upcoming.len(),
    }
}

} // verus!

verus! {

use crate::commands::list::lemma_kept_sat;

proof fn lemma_sorted_bucket(sel: Seq<Item>, key: spec_fn(Item) -> KeyView, shown: Seq<Item>, today: int, opts: TodayOptions, b: Bucket)
    requires
        sorted_by(sel, key, shown),
        forall|j: int| 0 <= j < sel.len() ==> bucket(#[trigger] sel[j], today, opts) == b,
    ensures
        forall|j: int| 0 <= j < shown.len() ==> bucket(#[trigger] shown[j], today, opts) == b,
{
    let perm = choose|perm: Seq<int>| is_stable_order(sel.map_values(key), perm) && shown == #[trigger] permuted(sel, perm);
    assert forall|j: int| 0 <= j < shown.len() implies bucket(#[trigger] shown[j], today, opts) == b by {
        assert(0 <= perm[j] < sel.map_values(key).len());
        assert(shown[j] == sel[perm[j]]);
    }
}

/// Each task of the agenda sits in the group its due date puts it in: the
/// overdue ones are open and due before today, today's are due today, the
/// upcoming ones within the window; so no task is in two groups.
pub proof fn law_agenda_groups(cache: Cache, opts: TodayOptions, today: int, r: TodayResult)
    requires
        agenda(cache, opts, today, r),
    ensures
        forall|j: int| 0 <= j < r.overdue@.len() ==> bucket(#[trigger] derefs(r.overdue@)[j], today, opts) == Bucket::Overdue,
        forall|j: int| 0 <= j < r.today@.len() ==> bucket(#[trigger] derefs(r.today@)[j], today, opts) == Bucket::Today,
        forall|j: int|
            0 <= j < r.upcoming@.len() ==> bucket(#[trigger] derefs(r.upcoming@)[j], today, opts) == Bucket::Upcoming,
{
    let items = cache.items@;
    let n = items.len() as int;
    lemma_kept_sat(items, |k: int, i: Item| bucket(i, today, opts) == Bucket::Overdue, n, |i: Item| bucket(i, today, opts) == Bucket::Overdue);
    lemma_kept_sat(items, |k: int, i: Item| bucket(i, today, opts) == Bucket::Today, n, |i: Item| bucket(i, today, opts) == Bucket::Today);
    lemma_kept_sat(items, |k: int, i: Item| bucket(i, today, opts) == Bucket::Upcoming, n, |i: Item| bucket(i, today, opts) == Bucket::Upcoming);
    lemma_sorted_bucket(in_bucket(items, today, opts, Bucket::Overdue), |i: Item| due_key(i), derefs(r.overdue@), today, opts, Bucket::Overdue);
    lemma_sorted_bucket(in_bucket(items, today, opts, Bucket::Today), |i: Item| priority_key(i), derefs(r.today@), today, opts, Bucket::Today);
    lemma_sorted_bucket(in_bucket(items, today, opts, Bucket::Upcoming), |i: Item| due_key(i), derefs(r.upcoming@), today, opts, Bucket::Upcoming);
}

/// Along a stably sorted selection, keys never fall: each task's key is
/// below or equal to the key of every task after it.
proof fn lemma_sorted_keys(sel: Seq<Item>, key: spec_fn(Item) -> KeyView, shown: Seq<Item>)
    requires
        sorted_by(sel, key, shown),
    ensures
        forall|j: int, k: int|
            0 <= j < k < shown.len() ==> key_lt(key(#[trigger] shown[j]), key(#[trigger] shown[k]))
                || key_eq(key(shown[j]), key(shown[k])),
{
    let keys = sel.map_values(key);
    let perm = choose|perm: Seq<int>| is_stable_order(keys, perm) && shown == #[trigger] permuted(sel, perm);
    assert forall|j: int, k: int| 0 <= j < k < shown.len() implies key_lt(key(#[trigger] shown[j]), key(
        #[trigger] shown[k],
    )) || key_eq(key(shown[j]), key(shown[k])) by {
        assert(before(keys, perm[j], perm[k]));
        assert(0 <= perm[j] < keys.len() && 0 <= perm[k] < keys.len());
        assert(shown[j] == sel[perm[j]]);
        assert(shown[k] == sel[perm[k]]);
    }
}

/// Today's group lists the highest priority first: along the group, the API
/// priority never rises (p1, API priority 4, before p4, API priority 1).
pub proof fn law_today_by_priority(cache: Cache, opts: TodayOptions, today: int, r: TodayResult)
    requires
        agenda(cache, opts, today, r),
    ensures
        forall|j: int, k: int|
            0 <= j < k < r.today@.len() ==> (#[trigger] r.today@[j]).priority >= (#[trigger] r.today@[k]).priority,
{
    let shown = derefs(r.today@);
    lemma_sorted_keys(in_bucket(cache.items@, today, opts, Bucket::Today), |i: Item| priority_key(i), shown);
    assert forall|j: int, k: int|
        0 <= j < k < r.today@.len() implies (#[trigger] r.today@[j]).priority >= (#[trigger] r.today@[k]).priority by {
        assert(*r.today@[j] == shown[j]);
        assert(*r.today@[k] == shown[k]);
    }
}

} // verus!

verus! {

/// Formats the agenda as of today's local date; on chrono's last day,
/// where no day follows today, there is no table.
pub fn format_today_table_now(result: &TodayResult, cache: &Cache, use_colors: bool) -> (r: Option<String>)
    requires
        agenda_printable(*result, cache.projects@),
        result.overdue.len() + result.today.len() + result.upcoming.len() <= u64::MAX,
    ensures
        exists|today: int|
            #![trigger today_table_spec(
                derefs(result.overdue@),
                derefs(result.today@),
                derefs(result.upcoming@),
                result.upcoming_days,
                cache.projects@,
                use_colors,
                today,
            )]
            (today < MAX_DAY && r is Some && r->0@ == today_table_spec(
                derefs(result.overdue@),
                derefs(result.today@),
                derefs(result.upcoming@),
                result.upcoming_days,
                cache.projects@,
                use_colors,
                today,
            )) || (today == MAX_DAY && r is None),
{
    let today = local_today();
    if today.day_number() == MAX_DAY {
        let ghost last = today_table_spec(
            derefs(result.overdue@),
            derefs(result.today@),
            derefs(result.upcoming@),
            result.upcoming_days,
            cache.projects@,
            use_colors,
            MAX_DAY as int,
        );
        return None;
    }
    Some(format_today_table(result, cache, use_colors, &today))
}

} // verus!
