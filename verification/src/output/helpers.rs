//! Common helpers for output formatting: truncation, priority and labels.

use vstd::prelude::*;
use crate::text::{
    byte_len, char_width, chars_of, utf8_width, int_text, lemma_byte_len_take_step, push_char, push_i64, push_str, str_byte_len,
    string_of,
};
use crate::commands::comments::str_opt;
use crate::style::{blue, blue_text, dimmed, dimmed_text, red, red_text, yellow, yellow_text};

verus! {

/// Number of characters of an ID shown in tables and messages.
pub const ID_DISPLAY_LENGTH: usize = 6;

/// `truncate_id`: IDs longer than six characters are cut to their first six.
pub open spec fn truncate_id_spec(id: Seq<char>) -> Seq<char> {
    if id.len() > 6 {
        id.take(6)
    } else {
        id
    }
}

/// Where the longest beginning of `s` within `b` bytes ends, searching from
/// character `i` on.
pub open spec fn fit_end(s: Seq<char>, b: nat, i: int) -> int
    decreases s.len() - i,
{
    if 0 <= i < s.len() && byte_len(s.take(i + 1)) <= b {
        fit_end(s, b, i + 1)
    } else {
        i
    }
}

/// The longest beginning of `s`, in whole characters, that takes at most `b` bytes.
pub open spec fn prefix_within(s: Seq<char>, b: nat) -> Seq<char> {
    s.take(fit_end(s, b, 0))
}

/// `truncate_str`: a string longer than `max` bytes keeps the longest
/// beginning of itself within `max - 3` bytes, followed by `...`; where `max`
/// leaves no room for the dots, it keeps the longest beginning within `max`
/// bytes. Cuts fall between characters.
pub open spec fn truncate_spec(s: Seq<char>, max: nat) -> Seq<char> {
    if byte_len(s) <= max {
        s
    } else if max >= 3 {
        prefix_within(s, (max - 3) as nat) + "..."@
    } else {
        prefix_within(s, max)
    }
}

/// Truncates an ID to 6 characters for display.
pub fn truncate_id(id: &str) -> (r: String)
    ensures
        r@ == truncate_id_spec(id@),
{
    if id.unicode_len() > 6 {
        id.substring_char(0, 6).to_owned()
    } else {
        string_of(id)
    }
}

/// The longest beginning of `s` within `b` bytes.
fn prefix_within_of(s: &str, b: usize) -> (r: String)
    ensures
        r@ == prefix_within(s@, b as nat),
{
    let cs = chars_of(s);
    let mut i: usize = 0;
    let mut n: u128 = 0;
    while i < cs.len() && n + char_width(cs[i]) as u128 <= b as u128
        invariant
            cs@ == s@,
            i <= cs.len(),
            n as nat == byte_len(s@.take(i as int)),
            n <= b,
            fit_end(s@, b as nat, 0) == fit_end(s@, b as nat, i as int),
        decreases cs.len() - i,
    {
        proof {
            lemma_byte_len_take_step(s@, i as int);
        }
        n = n + char_width(cs[i]) as u128;
        i = i + 1;
    }
    proof {
        if i < cs.len() {
            lemma_byte_len_take_step(s@, i as int);
        }
    }
    s.substring_char(0, i).to_owned()
}

/// Truncates a string to a maximum length, in bytes, cutting between characters.
pub fn truncate_str(s: &str, max_len: usize) -> (r: String)
    ensures
        r@ == truncate_spec(s@, max_len as nat),
{
    if str_byte_len(s) <= max_len as u128 {
        string_of(s)
    } else if max_len >= 3 {
        let mut r = prefix_within_of(s, max_len - 3);
        push_str(&mut r, "...");
        r
    } else {
        prefix_within_of(s, max_len)
    }
}

/// The label `p<N>` for an API priority, where N = 5 - priority.
pub open spec fn priority_label(api_priority: int) -> Seq<char> {
    seq!['p'] + int_text(5 - api_priority)
}

/// Colours a text by user priority: p1 red, p2 yellow, p3 blue, others dimmed.
pub open spec fn priority_colored(user_priority: int, label: Seq<char>) -> Seq<char> {
    if user_priority == 1 {
        red_text(label)
    } else if user_priority == 2 {
        yellow_text(label)
    } else if user_priority == 3 {
        blue_text(label)
    } else {
        dimmed_text(label)
    }
}

/// `format_priority`.
pub open spec fn format_priority_spec(api_priority: int, use_colors: bool) -> Seq<char> {
    if use_colors {
        priority_colored(5 - api_priority, priority_label(api_priority))
    } else {
        priority_label(api_priority)
    }
}

/// The API priority for which `5 - priority` does not overflow.
pub open spec fn priority_in_range(api_priority: int) -> bool {
    5 - api_priority <= i32::MAX
}

fn colored_by_priority(user_priority: i32, label: &str) -> (r: String)
    ensures
        r@ == priority_colored(user_priority as int, label@),
{
    if user_priority == 1 {
        red(label)
    } else if user_priority == 2 {
        yellow(label)
    } else if user_priority == 3 {
        blue(label)
    } else {
        dimmed(label)
    }
}

/// Formats priority for display.
pub fn format_priority(api_priority: i32, use_colors: bool) -> (r: String)
    requires
        priority_in_range(api_priority as int),
    ensures
        r@ == format_priority_spec(api_priority as int, use_colors),
{
    let user_priority = 5 - api_priority;
    let mut label = String::new();
    push_char(&mut label, 'p');
    push_i64(&mut label, user_priority as i64);
    assert(label@ =~= priority_label(api_priority as int));
    if use_colors {
        colored_by_priority(user_priority, label.as_str())
    } else {
        label
    }
}

/// Labels written `@a @b @c`.
pub open spec fn at_labels(labels: Seq<String>) -> Seq<char>
    decreases labels.len(),
{
    if labels.len() == 0 {
        Seq::empty()
    } else if labels.len() == 1 {
        seq!['@'] + labels[0]@
    } else {
        at_labels(labels.drop_last()) + seq![' ', '@'] + labels.last()@
    }
}

/// `format_labels`.
pub open spec fn format_labels_spec(labels: Seq<String>, max_len: nat) -> Seq<char> {
    if labels.len() == 0 {
        Seq::empty()
    } else {
        truncate_spec(at_labels(labels), max_len)
    }
}

/// Builds `@a @b @c` from the labels.
pub fn join_at_labels(labels: &[String]) -> (r: String)
    ensures
        r@ == at_labels(labels@),
{
    let mut r = String::new();
    let mut i: usize = 0;
    while i < labels.len()
        invariant
            i <= labels@.len(),
            r@ == at_labels(labels@.take(i as int)),
        decreases labels.len() - i,
    {
        let ghost before = r@;
        if i > 0 {
            push_char(&mut r, ' ');
        }
        push_char(&mut r, '@');
        push_str(&mut r, labels[i].as_str());
        proof {
            let t = labels@.take(i + 1);
            assert(t.drop_last() =~= labels@.take(i as int));
            if i == 0 {
                assert(r@ =~= at_labels(t));
            } else {
                assert(r@ =~= at_labels(t));
            }
        }
        i = i + 1;
    }
    assert(labels@.take(labels@.len() as int) =~= labels@);
    r
}

/// Formats labels for display.
pub fn format_labels(labels: &[String], max_len: usize) -> (r: String)
    ensures
        r@ == format_labels_spec(labels@, max_len as nat),
{
    if labels.len() == 0 {
        return String::new();
    }
    let joined = join_at_labels(labels);
    truncate_str(joined.as_str(), max_len)
}

/// `format_priority_verbose` without colours.
pub open spec fn priority_verbose_label(user_priority: int) -> Seq<char> {
    if user_priority == 1 {
        "p1 (highest)"@
    } else if user_priority == 2 {
        "p2 (high)"@
    } else if user_priority == 3 {
        "p3 (medium)"@
    } else {
        "p4 (normal)"@
    }
}

/// `format_priority_verbose`.
pub open spec fn format_priority_verbose_spec(api_priority: int, use_colors: bool) -> Seq<char> {
    if use_colors {
        priority_colored(5 - api_priority, priority_verbose_label(5 - api_priority))
    } else {
        priority_verbose_label(5 - api_priority)
    }
}

/// Formats priority for verbose display (show command).
pub fn format_priority_verbose(api_priority: i32, use_colors: bool) -> (r: String)
    requires
        priority_in_range(api_priority as int),
    ensures
        r@ == format_priority_verbose_spec(api_priority as int, use_colors),
{
    let user_priority = 5 - api_priority;
    let label: &str = if user_priority == 1 {
        "p1 (highest)"
    } else if user_priority == 2 {
        "p2 (high)"
    } else if user_priority == 3 {
        "p3 (medium)"
    } else {
        "p4 (normal)"
    };
    if use_colors {
        colored_by_priority(user_priority, label)
    } else {
        string_of(label)
    }
}

/// The line a write command prints about an entity:
/// `<verb>: <marker><name> (<id>)`, the ID cut to six characters when `short`.
pub open spec fn entity_line_spec(verb: Seq<char>, marker: Seq<char>, name: Seq<char>, id: Seq<char>, short: bool) -> Seq<
    char,
> {
    verb + ": "@ + marker + name + " ("@ + (if short {
        truncate_id_spec(id)
    } else {
        id
    }) + ")"@
}

/// Builds the line a write command prints about an entity.
pub fn entity_line(verb: &str, marker: &str, name: &str, id: &str, short: bool) -> (r: String)
    ensures
        r@ == entity_line_spec(verb@, marker@, name@, id@, short),
{
    let mut r = string_of(verb);
    push_str(&mut r, ": ");
    push_str(&mut r, marker);
    push_str(&mut r, name);
    push_str(&mut r, " (");
    if short {
        let t = truncate_id(id);
        push_str(&mut r, t.as_str());
    } else {
        push_str(&mut r, id);
    }
    push_str(&mut r, ")");
    r
}

/// The line a write command prints about an entity attached to another:
/// `<head> (<short id>) <link><target>`, then `: <detail>` where given.
pub open spec fn attached_line_spec(
    head: Seq<char>,
    id: Seq<char>,
    link: Seq<char>,
    target: Seq<char>,
    detail: Option<Seq<char>>,
) -> Seq<char> {
    head + " ("@ + truncate_id_spec(id) + ") "@ + link + target + match detail {
        Some(d) => ": "@ + d,
        None => Seq::empty(),
    }
}

/// Builds the line a write command prints about an entity attached to another.
pub fn attached_line(head: &str, id: &str, link: &str, target: &str, detail: Option<&str>) -> (r: String)
    ensures
        r@ == attached_line_spec(head@, id@, link@, target@, str_opt(detail)),
{
    let mut r = string_of(head);
    push_str(&mut r, " (");
    let t = truncate_id(id);
    push_str(&mut r, t.as_str());
    push_str(&mut r, ") ");
    push_str(&mut r, link);
    push_str(&mut r, target);
    match detail {
        Some(d) => {
            push_str(&mut r, ": ");
            push_str(&mut r, d);
        },
        None => {},
    }
    r
}

} // verus!

verus! {

use crate::dates::{CalDate, MAX_DAY, MIN_DAY, date_number, date_text, long_date, local_today, short_date, time_of_day, time_of_day_spec};
use crate::model::Due;

/// The relative text of day `n` seen on day `today` in task lists.
pub open spec fn relative_due_text(n: int, today: int) -> Seq<char> {
    if n == today {
        "Today"@
    } else if n == today + 1 {
        "Tomorrow"@
    } else if n == today - 1 {
        "Yesterday"@
    } else if n < today {
        if today - n == 1 {
            "1 day ago"@
        } else {
            int_text(today - n) + " days ago"@
        }
    } else {
        date_text(n, "%b %d"@)
    }
}

/// Past dates in red, today in yellow, when colours are on.
pub open spec fn date_colored(n: int, today: int, s: Seq<char>, use_colors: bool) -> Seq<char> {
    if use_colors && n < today {
        red_text(s)
    } else if use_colors && n == today {
        yellow_text(s)
    } else {
        s
    }
}

/// How a due date shows in task lists on day `today`: nothing without one,
/// the text itself where it is no `YYYY-MM-DD` date.
pub open spec fn due_text(due_date: Option<Seq<char>>, use_colors: bool, today: int) -> Seq<char> {
    match due_date {
        None => Seq::empty(),
        Some(s) => match date_number(s) {
            None => s,
            Some(n) => date_colored(n, today, relative_due_text(n, today), use_colors),
        },
    }
}

/// Day `today` has a day before and after it in chrono's calendar.
pub open spec fn inner_day(today: int) -> bool {
    MIN_DAY < today < MAX_DAY
}

fn color_by_date(n: i32, today: i32, s: String, use_colors: bool) -> (r: String)
    ensures
        r@ == date_colored(n as int, today as int, s@, use_colors),
{
    if use_colors && n < today {
        red(s.as_str())
    } else if use_colors && n == today {
        yellow(s.as_str())
    } else {
        s
    }
}

/// Formats a due date for task lists, on day `today`.
pub fn format_due_on(due_date: Option<&String>, use_colors: bool, today: &CalDate) -> (r: String)
    requires
        inner_day(today.num()),
    ensures
        r@ == due_text(
            match due_date {
                Some(s) => Some(s@),
                None => None,
            },
            use_colors,
            today.num(),
        ),
{
    let s = match due_date {
        None => {
            return String::new();
        },
        Some(s) => s,
    };
    let d = match CalDate::parse(s.as_str()) {
        None => {
            return s.clone();
        },
        Some(d) => d,
    };
    let n = d.day_number();
    let t = today.day_number();
    let text = if n == t {
        string_of("Today")
    } else if n as i64 == t as i64 + 1 {
        string_of("Tomorrow")
    } else if n as i64 == t as i64 - 1 {
        string_of("Yesterday")
    } else if n < t {
        let days: i64 = t as i64 - n as i64;
        if days == 1 {
            string_of("1 day ago")
        } else {
            let mut x = String::new();
            push_i64(&mut x, days);
            push_str(&mut x, " days ago");
            x
        }
    } else {
        short_date(&d)
    };
    color_by_date(n, t, text, use_colors)
}

/// Formats a due date for task lists as of today's local date; at the very
/// edge of chrono's calendar, where no day follows or precedes today, the
/// date is shown as it is.
pub fn format_due(due_date: Option<&String>, use_colors: bool) -> (r: String)
    ensures
        exists|today: int| #[trigger] inner_day(today) && r@ == due_text(
            match due_date {
                Some(s) => Some(s@),
                None => None,
            },
            use_colors,
            today,
        ) || !inner_day(today) && r@ == match due_date {
            Some(s) => s@,
            None => Seq::empty(),
        },
{
    let today = local_today();
    let t = today.day_number();
    if t == MIN_DAY || t == MAX_DAY {
        assert(!inner_day(today.num()));
        return match due_date {
            Some(s) => s.clone(),
            None => String::new(),
        };
    }
    let r = format_due_on(due_date, use_colors, &today);
    assert(inner_day(today.num()));
    r
}

/// The date part of a due date in the task details, for day `n` seen on day `today`.
pub open spec fn verbose_date_text(n: int, today: int) -> Seq<char> {
    if n == today {
        "Today"@
    } else if n == today + 1 {
        "Tomorrow"@
    } else if n < today {
        int_text(today - n) + " days overdue"@
    } else {
        date_text(n, "%B %d, %Y"@)
    }
}

/// How a due date shows in the task details on day `today`: the date (or
/// its text), ` at HH:MM` where it has a time, and the recurrence.
pub open spec fn due_verbose_text(due: Due, use_colors: bool, today: int) -> Seq<char> {
    let date = match date_number(due.date@) {
        Some(n) => date_colored(n, today, verbose_date_text(n, today), use_colors),
        None => due.date@,
    };
    let timed = match due.datetime {
        Some(dt) => match time_of_day_spec(dt@) {
            Some(hm) => date + " at "@ + hm,
            None => date,
        },
        None => date,
    };
    if due.is_recurring {
        match due.string {
            Some(s) => timed + " ("@ + s@ + ")"@,
            None => timed + " (recurring)"@,
        }
    } else {
        timed
    }
}

/// Formats a due date for the task details, on day `today`.
pub fn format_due_verbose_on(due: &Due, use_colors: bool, today: &CalDate) -> (r: String)
    requires
        today.num() < MAX_DAY,
    ensures
        r@ == due_verbose_text(*due, use_colors, today.num()),
{
    let t = today.day_number();
    let mut result = match CalDate::parse(due.date.as_str()) {
        Some(d) => {
            let n = d.day_number();
            let text = if n == t {
                string_of("Today")
            } else if n as i64 == t as i64 + 1 {
                string_of("Tomorrow")
            } else if n < t {
                let mut x = String::new();
                push_i64(&mut x, t as i64 - n as i64);
                push_str(&mut x, " days overdue");
                x
            } else {
                long_date(&d)
            };
            color_by_date(n, t, text, use_colors)
        },
        None => due.date.clone(),
    };
    if let Some(dt) = &due.datetime {
        if let Some(hm) = time_of_day(dt.as_str()) {
            push_str(&mut result, " at ");
            push_str(&mut result, hm.as_str());
        }
    }
    if due.is_recurring {
        match &due.string {
            Some(s) => {
                push_str(&mut result, " (");
                push_str(&mut result, s.as_str());
                push_str(&mut result, ")");
            },
            None => {
                push_str(&mut result, " (recurring)");
            },
        }
    }
    result
}

/// The task details show `r` for `due` on day `today`.
pub open spec fn verbose_due_shown(due: Due, use_colors: bool, today: int, r: Seq<char>) -> bool {
    today < MAX_DAY && r == due_verbose_text(due, use_colors, today) || today == MAX_DAY && r == due.date@
}

/// Formats a due date for the task details as of today's local date; on
/// chrono's last day, which has no day after it, the date is shown as it is.
pub fn format_due_verbose(due: &Due, use_colors: bool) -> (r: String)
    ensures
        exists|today: int| #[trigger] verbose_due_shown(*due, use_colors, today, r@),
{
    let today = local_today();
    let t = today.day_number();
    if t == MAX_DAY {
        let r = due.date.clone();
        assert(verbose_due_shown(*due, use_colors, today.num(), r@));
        return r;
    }
    let r = format_due_verbose_on(due, use_colors, &today);
    assert(verbose_due_shown(*due, use_colors, today.num(), r@));
    r
}

} // verus!

verus! {

use crate::model::{Reminder, ReminderType};

/// How a reminder is described.
pub open spec fn reminder_text(r: Reminder) -> Seq<char> {
    match r.reminder_type {
        ReminderType::Relative => match r.minute_offset {
            Some(o) => if o == 0 {
                "At time of due date"@
            } else if o < 60 {
                int_text(o as int) + " minutes before"@
            } else if o == 60 {
                "1 hour before"@
            } else if o < 1440 {
                int_text(o / 60) + " hours before"@
            } else {
                int_text(o / 1440) + " days before"@
            },
            None => "Relative reminder"@,
        },
        ReminderType::Absolute => match r.due {
            Some(d) => "At "@ + d.date@,
            None => "Absolute reminder"@,
        },
        ReminderType::Location => "Location-based reminder"@,
    }
}

/// Formats a reminder for display.
pub fn format_reminder(reminder: &Reminder) -> (r: String)
    ensures
        r@ == reminder_text(*reminder),
{
    match reminder.reminder_type {
        ReminderType::Relative => match reminder.minute_offset {
            Some(o) => {
                if o == 0 {
                    string_of("At time of due date")
                } else if o < 60 {
                    let mut x = String::new();
                    push_i64(&mut x, o as i64);
                    push_str(&mut x, " minutes before");
                    x
                } else if o == 60 {
                    string_of("1 hour before")
                } else if o < 1440 {
                    let mut x = String::new();
                    push_i64(&mut x, (o / 60) as i64);
                    push_str(&mut x, " hours before");
                    x
                } else {
                    let mut x = String::new();
                    push_i64(&mut x, (o / 1440) as i64);
                    push_str(&mut x, " days before");
                    x
                }
            },
            None => string_of("Relative reminder"),
        },
        ReminderType::Absolute => match &reminder.due {
            Some(d) => {
                let mut x = string_of("At ");
                push_str(&mut x, d.date.as_str());
                x
            },
            None => string_of("Absolute reminder"),
        },
        ReminderType::Location => string_of("Location-based reminder"),
    }
}

} // verus!

verus! {

use crate::style::{bold, bold_text};

/// A column header line: dimmed when colours are on.
pub open spec fn header_line(h: Seq<char>, use_colors: bool) -> Seq<char> {
    (if use_colors {
        dimmed_text(h)
    } else {
        h
    }) + "\n"@
}

/// Appends a column header line.
pub fn push_header(out: &mut String, h: &str, use_colors: bool)
    ensures
        final(out)@ == old(out)@ + header_line(h@, use_colors),
{
    let ghost start = out@;
    if use_colors {
        let d = dimmed(h);
        push_str(out, d.as_str());
    } else {
        push_str(out, h);
    }
    push_str(out, "\n");
    assert(out@ =~= start + header_line(h@, use_colors));
}

/// A context line above a table (`Reminders for: …`): bold when colours
/// are on, followed by a blank line.
pub open spec fn context_line(h: Seq<char>, use_colors: bool) -> Seq<char> {
    (if use_colors {
        bold_text(h)
    } else {
        h
    }) + "\n\n"@
}

/// Appends `prefix` and `name` as a context line.
pub fn push_context(out: &mut String, prefix: &str, name: &str, use_colors: bool)
    ensures
        final(out)@ == old(out)@ + context_line(prefix@ + name@, use_colors),
{
    let ghost start = out@;
    let mut h = string_of(prefix);
    push_str(&mut h, name);
    if use_colors {
        let b = bold(h.as_str());
        push_str(out, b.as_str());
    } else {
        push_str(out, h.as_str());
    }
    push_str(out, "\n\n");
    assert(out@ =~= start + context_line(prefix@ + name@, use_colors));
}

/// The favourite mark of a table row: a star, yellow when colours are on,
/// or a blank.
pub open spec fn fav_mark(favorite: bool, use_colors: bool) -> Seq<char> {
    if favorite {
        if use_colors {
            yellow_text("★"@)
        } else {
            "★"@
        }
    } else {
        " "@
    }
}

/// The favourite mark of a table row.
pub fn fav_mark_text(favorite: bool, use_colors: bool) -> (r: String)
    ensures
        r@ == fav_mark(favorite, use_colors),
{
    if favorite {
        if use_colors {
            yellow("★")
        } else {
            string_of("★")
        }
    } else {
        string_of(" ")
    }
}

/// An optional string, or nothing.
pub open spec fn or_empty(o: Option<String>) -> Seq<char> {
    match o {
        Some(s) => s@,
        None => Seq::empty(),
    }
}

} // verus!

verus! {

use crate::commands::entities::opt_chars;

/// Borrows the text of an optional string.
pub fn opt_str<'a>(o: &'a Option<String>) -> (r: Option<&'a str>)
    ensures
        str_opt(r) == opt_chars(*o),
{
    match o {
        Some(s) => Some(s.as_str()),
        None => None,
    }
}

} // verus!

verus! {

use crate::text::is_prefix;

/// Where the search for the longest beginning within `b` bytes stops: no
/// earlier than it started, within the text, within the bytes when it moved,
/// and before a character that would not fit.
proof fn lemma_fit_end(s: Seq<char>, b: nat, i: int)
    requires
        0 <= i <= s.len(),
    ensures
        i <= fit_end(s, b, i) <= s.len(),
        fit_end(s, b, i) > i ==> byte_len(s.take(fit_end(s, b, i))) <= b,
        fit_end(s, b, i) < s.len() ==> byte_len(s.take(fit_end(s, b, i) + 1)) > b,
    decreases s.len() - i,
{
    if i < s.len() && byte_len(s.take(i + 1)) <= b {
        lemma_fit_end(s, b, i + 1);
    }
}

/// The longest beginning within `b` bytes begins `s`, takes at most `b`
/// bytes, and is the longest such: one more character would not fit.
pub proof fn lemma_prefix_within(s: Seq<char>, b: nat)
    ensures
        is_prefix(prefix_within(s, b), s),
        byte_len(prefix_within(s, b)) <= b,
        prefix_within(s, b).len() < s.len() ==> byte_len(s.take(prefix_within(s, b).len() + 1 as int)) > b,
{
    lemma_fit_end(s, b, 0);
    let k = fit_end(s, b, 0);
    assert(s.take(k).len() == k);
    if k == 0 {
        assert(s.take(0) =~= Seq::<char>::empty());
    }
}

/// Three dots add three bytes.
proof fn lemma_byte_len_dots(p: Seq<char>)
    ensures
        byte_len(p + "..."@) == byte_len(p) + 3,
{
    reveal_strlit("...");
    let p1 = p.push('.');
    let p2 = p1.push('.');
    let p3 = p2.push('.');
    assert(p3.drop_last() =~= p2);
    assert(p2.drop_last() =~= p1);
    assert(p1.drop_last() =~= p);
    assert(utf8_width('.') == 1);
    assert(byte_len(p1) == byte_len(p) + 1);
    assert(byte_len(p2) == byte_len(p1) + 1);
    assert(byte_len(p3) == byte_len(p2) + 1);
    assert(p + "..."@ =~= p3);
}

/// A cut text fits its column: it takes at most `max` bytes; a text that
/// fits is left as it is; a longer one keeps a beginning of itself (followed
/// by the dots, where there is room for them).
pub proof fn law_truncate_fits(s: Seq<char>, max: nat)
    ensures
        byte_len(truncate_spec(s, max)) <= max,
        byte_len(s) <= max ==> truncate_spec(s, max) == s,
        byte_len(s) > max && max >= 3 ==> truncate_spec(s, max) == prefix_within(s, (max - 3) as nat) + "..."@
            && is_prefix(prefix_within(s, (max - 3) as nat), s),
        byte_len(s) > max && max < 3 ==> is_prefix(truncate_spec(s, max), s),
{
    if byte_len(s) > max {
        if max >= 3 {
            lemma_prefix_within(s, (max - 3) as nat);
            lemma_byte_len_dots(prefix_within(s, (max - 3) as nat));
        } else {
            lemma_prefix_within(s, max);
        }
    }
}

/// A shown ID is at most six characters long and begins the ID; an ID of at
/// most six characters is shown whole.
pub proof fn law_truncate_id_fits(id: Seq<char>)
    ensures
        truncate_id_spec(id).len() <= 6,
        is_prefix(truncate_id_spec(id), id),
        id.len() <= 6 ==> truncate_id_spec(id) == id,
{
    if id.len() <= 6 {
        assert(id.take(id.len() as int) =~= id);
    }
}

/// Decimal text holds no escape character.
proof fn lemma_decimal_escape_free(n: nat)
    ensures
        crate::style::escape_free(crate::text::decimal(n)),
    decreases n,
{
    if n >= 10 {
        lemma_decimal_escape_free(n / 10);
    }
}

/// Colours only style the priority: with the escape sequences taken out, the
/// coloured priority is the plain one.
pub proof fn law_priority_colours_only_style(api_priority: int)
    ensures
        crate::style::unstyled(format_priority_spec(api_priority, true)) == format_priority_spec(api_priority, false),
{
    let n = 5 - api_priority;
    let label = priority_label(api_priority);
    if n < 0 {
        lemma_decimal_escape_free((-n) as nat);
        assert(label =~= seq!['p', '-'] + crate::text::decimal((-n) as nat));
    } else {
        lemma_decimal_escape_free(n as nat);
        assert(label =~= seq!['p'] + crate::text::decimal(n as nat));
    }
    assert(crate::style::escape_free(label));
    let c1 = seq!['3', '1'];
    let c2 = seq!['3', '3'];
    let c3 = seq!['3', '4'];
    let c4 = seq!['2'];
    assert(forall|i: int| 0 <= i < c1.len() ==> c1[i] != 'm');
    assert(forall|i: int| 0 <= i < c2.len() ==> c2[i] != 'm');
    assert(forall|i: int| 0 <= i < c3.len() ==> c3[i] != 'm');
    assert(forall|i: int| 0 <= i < c4.len() ==> c4[i] != 'm');
    if n == 1 {
        crate::style::lemma_unstyled_fg(c1, label);
    } else if n == 2 {
        crate::style::lemma_unstyled_fg(c2, label);
    } else if n == 3 {
        crate::style::lemma_unstyled_fg(c3, label);
    } else {
        crate::style::lemma_unstyled_style(c4, label);
    }
}

} // verus!
