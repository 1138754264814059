//! Project tables: the details of one project, and the list of projects.

use vstd::prelude::*;
use crate::commands::entities::{in_order, order_key, opt_chars};
use crate::commands::list::{arrange, permuted};
use crate::commands::projects::ProjectsShowResult;
use crate::dates::{CalDate, local_today};
use crate::model::{Item, Project, Section};
use crate::output::helpers::{
    due_text, format_due_on, format_priority, format_priority_spec, inner_day, priority_in_range, truncate_id,
    truncate_id_spec,
};
use crate::sort::{SortKey, is_stable_order, key_views};
use crate::style::{bold, bold_text, cyan, cyan_text, dimmed, dimmed_text, yellow, yellow_text};
use crate::text::{decimal, push_str, push_u64, string_of};

verus! {

/// `label value\n` for an optional value.
pub open spec fn opt_line(label: Seq<char>, v: Option<String>) -> Seq<char> {
    match v {
        Some(x) => label + x@ + "\n"@,
        None => Seq::empty(),
    }
}

/// `label value\n` where `flag` holds.
pub open spec fn flag_line(label: Seq<char>, flag: bool, value: Seq<char>) -> Seq<char> {
    if flag {
        label + value + "\n"@
    } else {
        Seq::empty()
    }
}

/// The head of the project details: name, ID, parent, colour, view style,
/// favourite, inbox and archive marks, and the counts.
pub open spec fn details_head(r: ProjectsShowResult, use_colors: bool) -> Seq<char> {
    details_names(r, use_colors) + details_marks(r, use_colors)
}

/// Name, ID, parent, colour and view style.
pub open spec fn details_names(r: ProjectsShowResult, use_colors: bool) -> Seq<char> {
    let p = r.project;
    (if use_colors {
        bold_text("Project:"@)
    } else {
        "Project:"@
    }) + " "@ + p.name@ + "\n"@ + "ID: "@ + p.id@ + "\n"@ + opt_line("Parent: "@, r.parent_name) + opt_line(
        "Color: "@,
        p.color,
    ) + opt_line("View style: "@, p.view_style)
}

/// Favourite, inbox and archive marks, and the counts.
pub open spec fn details_marks(r: ProjectsShowResult, use_colors: bool) -> Seq<char> {
    let p = r.project;
    flag_line(
        "Favorite: "@,
        p.is_favorite,
        if use_colors {
            yellow_text("★ Yes"@)
        } else {
            "Yes"@
        },
    ) + flag_line(
        "Inbox: "@,
        p.inbox_project,
        if use_colors {
            cyan_text("Yes"@)
        } else {
            "Yes"@
        },
    ) + flag_line(
        "Archived: "@,
        p.is_archived,
        if use_colors {
            dimmed_text("Yes"@)
        } else {
            "Yes"@
        },
    ) + "Tasks: "@ + decimal(r.task_count as nat) + "\n"@ + "Sections: "@ + decimal(r.section_count as nat) + "\n"@
}

/// The lines of the sections, each `  <id> <name>`.
pub open spec fn section_lines(sections: Seq<Section>) -> Seq<char>
    decreases sections.len(),
{
    if sections.len() == 0 {
        Seq::empty()
    } else {
        section_lines(sections.drop_last()) + "  "@ + truncate_id_spec(sections.last().id@) + " "@
            + sections.last().name@ + "\n"@
    }
}

/// The sections part: the sections sorted stably by their order.
pub open spec fn sections_part(sections: Seq<Section>, shown: Seq<char>) -> bool {
    if sections.len() == 0 {
        shown == Seq::<char>::empty()
    } else {
        exists|sorted: Seq<Section>| #[trigger]
            in_order(sections, sorted) && shown == "\nSections ("@ + decimal(sections.len()) + "):\n"@ + section_lines(
                sorted,
            )
    }
}

/// How a task's due date shows on day `today` (as it is, at the very edge
/// of chrono's calendar).
pub open spec fn shown_due(item: Item, use_colors: bool, today: int) -> Seq<char> {
    let date = match item.due {
        Some(d) => Some(d.date@),
        None => None,
    };
    if inner_day(today) {
        due_text(date, use_colors, today)
    } else {
        match date {
            Some(s) => s,
            None => Seq::empty(),
        }
    }
}

/// One task line: `  <id> <priority> <content>[ [<due>]]`.
pub open spec fn task_line(item: Item, use_colors: bool, today: int) -> Seq<char> {
    let due = shown_due(item, use_colors, today);
    "  "@ + truncate_id_spec(item.id@) + " "@ + format_priority_spec(item.priority as int, use_colors) + " "@
        + item.content@ + (if due.len() == 0 {
        Seq::empty()
    } else {
        " ["@ + due + "]"@
    }) + "\n"@
}

/// The lines of the tasks.
pub open spec fn task_lines(items: Seq<Item>, use_colors: bool, today: int) -> Seq<char>
    decreases items.len(),
{
    if items.len() == 0 {
        Seq::empty()
    } else {
        task_lines(items.drop_last(), use_colors, today) + task_line(items.last(), use_colors, today)
    }
}

/// The tasks part.
pub open spec fn tasks_part(items: Seq<Item>, use_colors: bool, today: int) -> Seq<char> {
    if items.len() == 0 {
        Seq::empty()
    } else {
        "\nTasks ("@ + decimal(items.len()) + "):\n"@ + task_lines(items, use_colors, today)
    }
}

/// What the details table needs: IDs that can be cut at six bytes and
/// priorities whose user priority is an `i32`.
pub open spec fn details_printable(r: ProjectsShowResult) -> bool {
    &&& forall|k: int| 0 <= k < r.tasks@.len() ==> task_printable(#[trigger] r.tasks@[k])
}

/// A task whose line can be printed.
pub open spec fn task_printable(i: Item) -> bool {
    priority_in_range(i.priority as int)
}

fn task_line_text(x: &Item, use_colors: bool, today: &CalDate) -> (s: String)
    requires
        task_printable(*x),
    ensures
        s@ == task_line(*x, use_colors, today.num()),
{
    let mut s = string_of("  ");
    let idp = truncate_id(x.id.as_str());
    push_str(&mut s, idp.as_str());
    push_str(&mut s, " ");
    let pr = format_priority(x.priority, use_colors);
    push_str(&mut s, pr.as_str());
    push_str(&mut s, " ");
    push_str(&mut s, x.content.as_str());
    let due = shown_due_text(x, use_colors, today);
    if due.unicode_len() > 0 {
        push_str(&mut s, " [");
        push_str(&mut s, due.as_str());
        push_str(&mut s, "]");
    }
    push_str(&mut s, "\n");
    s
}

fn details_head_text(r: &ProjectsShowResult, use_colors: bool) -> (s: String)
    ensures
        s@ == details_head(*r, use_colors),
{
    let mut s = details_names_text(r, use_colors);
    let m = details_marks_text(r, use_colors);
    push_str(&mut s, m.as_str());
    s
}

fn details_names_text(r: &ProjectsShowResult, use_colors: bool) -> (s: String)
    ensures
        s@ == details_names(*r, use_colors),
{
    let p = &r.project;
    let mut s = if use_colors {
        bold("Project:")
    } else {
        string_of("Project:")
    };
    push_str(&mut s, " ");
    push_str(&mut s, p.name.as_str());
    push_str(&mut s, "\n");
    push_str(&mut s, "ID: ");
    push_str(&mut s, p.id.as_str());
    push_str(&mut s, "\n");
    let ghost a = s@;
    if let Some(x) = &r.parent_name {
        push_str(&mut s, "Parent: ");
        push_str(&mut s, x.as_str());
        push_str(&mut s, "\n");
    }
    assert(s@ =~= a + opt_line("Parent: "@, r.parent_name));
    let ghost b = s@;
    if let Some(x) = &p.color {
        push_str(&mut s, "Color: ");
        push_str(&mut s, x.as_str());
        push_str(&mut s, "\n");
    }
    assert(s@ =~= b + opt_line("Color: "@, p.color));
    let ghost c = s@;
    if let Some(x) = &p.view_style {
        push_str(&mut s, "View style: ");
        push_str(&mut s, x.as_str());
        push_str(&mut s, "\n");
    }
    assert(s@ =~= c + opt_line("View style: "@, p.view_style));
    s
}

fn details_marks_text(r: &ProjectsShowResult, use_colors: bool) -> (s: String)
    ensures
        s@ == details_marks(*r, use_colors),
{
    let p = &r.project;
    let mut s = String::new();
    if p.is_favorite {
        push_str(&mut s, "Favorite: ");
        let v = if use_colors {
            yellow("★ Yes")
        } else {
            string_of("Yes")
        };
        push_str(&mut s, v.as_str());
        push_str(&mut s, "\n");
    }
    if p.inbox_project {
        push_str(&mut s, "Inbox: ");
        let v = if use_colors {
            cyan("Yes")
        } else {
            string_of("Yes")
        };
        push_str(&mut s, v.as_str());
        push_str(&mut s, "\n");
    }
    if p.is_archived {
        push_str(&mut s, "Archived: ");
        let v = if use_colors {
            dimmed("Yes")
        } else {
            string_of("Yes")
        };
        push_str(&mut s, v.as_str());
        push_str(&mut s, "\n");
    }
    push_str(&mut s, "Tasks: ");
    push_u64(&mut s, r.task_count as u64);
    push_str(&mut s, "\n");
    push_str(&mut s, "Sections: ");
    push_u64(&mut s, r.section_count as u64);
    push_str(&mut s, "\n");
    assert(s@ =~= details_marks(*r, use_colors));
    s
}

fn sections_text(sections: &Vec<Section>) -> (s: String)
    ensures
        sections_part(sections@, s@),
{
    if sections.len() == 0 {
        return String::new();
    }
    let mut refs: Vec<&Section> = Vec::new();
    let mut keys: Vec<SortKey> = Vec::new();
    let mut i: usize = 0;
    while i < sections.len()
        invariant
            i <= sections.len(),
            refs@.len() == i,
            keys@.len() == i,
            forall|k: int| 0 <= k < i ==> *refs@[k] == sections@[k],
            forall|k: int| 0 <= k < i ==> (#[trigger] keys@[k]).kv() == order_key(sections@[k]),
        decreases sections.len() - i,
    {
        refs.push(&sections[i]);
        keys.push(SortKey { group: 0, text: Vec::new(), num: sections[i].section_order as i64 });
        i = i + 1;
    }
    assert(key_views(keys@) =~= sections@.map_values(|x: Section| order_key(x)));
    let sorted = arrange(refs, &keys);
    let ghost perm = choose|perm: Seq<int>| is_stable_order(key_views(keys@), perm) && sorted@ == #[trigger] permuted(refs@, perm);
    let ghost ss = permuted(sections@, perm);
    assert forall|k: int| 0 <= k < sorted@.len() implies *(#[trigger] sorted@[k]) == ss[k] by {
        assert(0 <= perm[k] < keys@.len());
    }
    let mut s = string_of("\nSections (");
    push_u64(&mut s, sections.len() as u64);
    push_str(&mut s, "):\n");
    let ghost head = s@;
    let mut j: usize = 0;
    while j < sorted.len()
        invariant
            j <= sorted.len(),
            sorted@.len() == ss.len(),
            forall|k: int| 0 <= k < sorted@.len() ==> *(#[trigger] sorted@[k]) == ss[k],
            forall|k: int| 0 <= k < perm.len() ==> 0 <= #[trigger] perm[k] < sections@.len(),
            ss == permuted(sections@, perm),
            s@ == head + section_lines(ss.take(j as int)),
        decreases sorted.len() - j,
    {
        let x = sorted[j];
        assert(ss[j as int] == sections@[perm[j as int]]);
        push_str(&mut s, "  ");
        let idp = truncate_id(x.id.as_str());
        push_str(&mut s, idp.as_str());
        push_str(&mut s, " ");
        push_str(&mut s, x.name.as_str());
        push_str(&mut s, "\n");
        assert(ss.take(j + 1).drop_last() =~= ss.take(j as int));
        j = j + 1;
    }
    assert(ss.take(sorted.len() as int) =~= ss);
    assert(is_stable_order(sections@.map_values(|x: Section| order_key(x)), perm));
    assert(in_order(sections@, ss));
    s
}

pub(crate) fn shown_due_text(item: &Item, use_colors: bool, today: &CalDate) -> (s: String)
    ensures
        s@ == shown_due(*item, use_colors, today.num()),
{
    let t = today.day_number();
    let date = match &item.due {
        Some(d) => Some(&d.date),
        None => None,
    };
    if t > crate::dates::MIN_DAY && t < crate::dates::MAX_DAY {
        format_due_on(date, use_colors, today)
    } else {
        match date {
            Some(x) => string_of(x.as_str()),
            None => String::new(),
        }
    }
}

fn tasks_text(items: &Vec<Item>, use_colors: bool, today: &CalDate) -> (s: String)
    requires
        forall|k: int| 0 <= k < items@.len() ==> task_printable(#[trigger] items@[k]),
    ensures
        s@ == tasks_part(items@, use_colors, today.num()),
{
    if items.len() == 0 {
        return String::new();
    }
    let mut s = string_of("\nTasks (");
    push_u64(&mut s, items.len() as u64);
    push_str(&mut s, "):\n");
    let ghost head = s@;
    let mut j: usize = 0;
    while j < items.len()
        invariant
            j <= items.len(),
            forall|k: int| 0 <= k < items@.len() ==> task_printable(#[trigger] items@[k]),
            s@ == head + task_lines(items@.take(j as int), use_colors, today.num()),
        decreases items.len() - j,
    {
        let line = task_line_text(&items[j], use_colors, today);
        push_str(&mut s, line.as_str());
        assert(items@.take(j + 1).drop_last() =~= items@.take(j as int));
        j = j + 1;
    }
    assert(items@.take(items.len() as int) =~= items@);
    s
}

/// The details of a project as a table, as of day `today`.
pub open spec fn project_details_spec(r: ProjectsShowResult, use_colors: bool, today: int, shown: Seq<char>) -> bool {
    exists|sec: Seq<char>| #[trigger]
        sections_part(r.sections@, sec) && shown == details_head(r, use_colors) + sec + tasks_part(
            r.tasks@,
            use_colors,
            today,
        )
}

/// Formats project details as a human-readable table, as of day `today`.
pub fn format_project_details_table_on(result: &ProjectsShowResult, use_colors: bool, today: &CalDate) -> (s: String)
    requires
        details_printable(*result),
    ensures
        project_details_spec(*result, use_colors, today.num(), s@),
{
    let mut s = details_head_text(result, use_colors);
    let sec = sections_text(&result.sections);
    push_str(&mut s, sec.as_str());
    let t = tasks_text(&result.tasks, use_colors, today);
    push_str(&mut s, t.as_str());
    assert(sections_part(result.sections@, sec@));
    s
}

/// Formats project details as a human-readable table, as of today's local date.
pub fn format_project_details_table(result: &ProjectsShowResult, use_colors: bool) -> (s: String)
    requires
        details_printable(*result),
    ensures
        exists|today: int| #[trigger] project_details_spec(*result, use_colors, today, s@),
{
    let today = local_today();
    let s = format_project_details_table_on(result, use_colors, &today);
    assert(project_details_spec(*result, use_colors, today.num(), s@));
    s
}

} // verus!

verus! {

use crate::commands::comments::str_opt;
use crate::commands::projects::{
    ProjectAddResult, ProjectArchiveResult, ProjectDeleteResult, ProjectEditResult, ProjectUnarchiveResult,
};
use crate::model::Cache;
use crate::output::helpers::{
    fav_mark, fav_mark_text, header_line, opt_str, or_empty, push_header, truncate_spec, truncate_str,
};
use crate::output::tasks::{due_date_of, user_priority};
use crate::style::{strikethrough, strikethrough_text};
use crate::text::{pad_right, push_padded, spaces, str_eq, u64_string, views};

/// Number of open tasks (neither deleted nor completed) of project `pid`.
pub open spec fn open_task_count(items: Seq<Item>, pid: Seq<char>) -> nat
    decreases items.len(),
{
    if items.len() == 0 {
        0
    } else {
        open_task_count(items.drop_last(), pid) + if !items.last().is_deleted && !items.last().checked
            && items.last().project_id@ == pid {
            1nat
        } else {
            0nat
        }
    }
}

/// Counts the open tasks of project `pid`.
pub fn count_open_tasks_of(items: &Vec<Item>, pid: &str) -> (n: usize)
    ensures
        n == open_task_count(items@, pid@),
{
    let mut n: usize = 0;
    let mut i: usize = 0;
    while i < items.len()
        invariant
            i <= items@.len(),
            n == open_task_count(items@.take(i as int), pid@),
            n <= i,
        decreases items.len() - i,
    {
        assert(items@.take(i + 1).drop_last() =~= items@.take(i as int));
        let x = &items[i];
        if !x.is_deleted && !x.checked && str_eq(x.project_id.as_str(), pid) {
            n = n + 1;
        }
        i = i + 1;
    }
    assert(items@.take(items.len() as int) =~= items@);
    n
}

/// A project's name in the flat table: `(Inbox)` or cyan for the inbox,
/// `[archived]` or struck through and dimmed for an archived project.
pub open spec fn project_name_shown(p: Project, use_colors: bool) -> Seq<char> {
    let a = if p.inbox_project {
        if use_colors {
            cyan_text(p.name@)
        } else {
            p.name@ + " (Inbox)"@
        }
    } else {
        p.name@
    };
    if p.is_archived {
        if use_colors {
            dimmed_text(strikethrough_text(a))
        } else {
            a + " [archived]"@
        }
    } else {
        a
    }
}

fn project_name_text(p: &Project, use_colors: bool) -> (r: String)
    ensures
        r@ == project_name_shown(*p, use_colors),
{
    let a = if p.inbox_project {
        if use_colors {
            cyan(p.name.as_str())
        } else {
            let mut x = string_of(p.name.as_str());
            push_str(&mut x, " (Inbox)");
            x
        }
    } else {
        string_of(p.name.as_str())
    };
    if p.is_archived {
        if use_colors {
            let st = strikethrough(a.as_str());
            dimmed(st.as_str())
        } else {
            let mut x = a;
            push_str(&mut x, " [archived]");
            x
        }
    } else {
        a
    }
}

/// The column header of the flat projects table.
pub open spec fn projects_header() -> Seq<char> {
    "ID       Fav  Name                      Tasks  Color"@
}

/// One row of the flat projects table: ID, favourite mark, name as shown
/// cut to 25 bytes, number of open tasks, colour.
pub open spec fn project_row(p: Project, items: Seq<Item>, use_colors: bool) -> Seq<char> {
    pad_right(truncate_id_spec(p.id@), 8) + " "@ + pad_right(fav_mark(p.is_favorite, use_colors), 4) + " "@
        + pad_right(truncate_spec(project_name_shown(p, use_colors), 25), 25) + " "@ + pad_right(
        decimal(open_task_count(items, p.id@)),
        6,
    ) + " "@ + or_empty(p.color) + "\n"@
}

/// The rows of the flat projects table.
pub open spec fn project_rows(ps: Seq<&Project>, items: Seq<Item>, use_colors: bool) -> Seq<char>
    decreases ps.len(),
{
    if ps.len() == 0 {
        Seq::empty()
    } else {
        project_rows(ps.drop_last(), items, use_colors) + project_row(*ps.last(), items, use_colors)
    }
}


fn project_row_text(p: &Project, cache: &Cache, use_colors: bool) -> (s: String)
    ensures
        s@ == project_row(*p, cache.items@, use_colors),
{
    let mut s = String::new();
    let idp = truncate_id(p.id.as_str());
    push_padded(&mut s, idp.as_str(), 8);
    push_str(&mut s, " ");
    let fav = fav_mark_text(p.is_favorite, use_colors);
    push_padded(&mut s, fav.as_str(), 4);
    push_str(&mut s, " ");
    let name = project_name_text(p, use_colors);
    let shown = truncate_str(name.as_str(), 25);
    push_padded(&mut s, shown.as_str(), 25);
    push_str(&mut s, " ");
    let n = count_open_tasks_of(&cache.items, p.id.as_str());
    let count = u64_string(n as u64);
    push_padded(&mut s, count.as_str(), 6);
    push_str(&mut s, " ");
    match &p.color {
        Some(c) => push_str(&mut s, c.as_str()),
        None => {},
    }
    push_str(&mut s, "\n");
    s
}

fn format_projects_flat(projects: &[&Project], cache: &Cache, use_colors: bool) -> (s: String)
    ensures
        s@ == header_line(projects_header(), use_colors) + project_rows(projects@, cache.items@, use_colors),
{
    let mut s = String::new();
    push_header(&mut s, "ID       Fav  Name                      Tasks  Color", use_colors);
    let ghost head = s@;
    let mut i: usize = 0;
    while i < projects.len()
        invariant
            i <= projects@.len(),
            s@ == head + project_rows(projects@.take(i as int), cache.items@, use_colors),
        decreases projects.len() - i,
    {
        let row = project_row_text(projects[i], cache, use_colors);
        push_str(&mut s, row.as_str());
        assert(projects@.take(i + 1).drop_last() =~= projects@.take(i as int));
        i = i + 1;
    }
    assert(projects@.take(projects.len() as int) =~= projects@);
    s
}

/// The projects among `ps` whose parent is `parent` (`None`: top level),
/// in the order given.
pub open spec fn children_of(ps: Seq<&Project>, parent: Option<Seq<char>>) -> Seq<&Project>
    decreases ps.len(),
{
    if ps.len() == 0 {
        Seq::empty()
    } else if opt_chars(ps.last().parent_id) == parent {
        children_of(ps.drop_last(), parent).push(ps.last())
    } else {
        children_of(ps.drop_last(), parent)
    }
}

/// `x` placed into `sorted` after every project whose order is not above
/// its own.
pub open spec fn insert_by_order<'a>(sorted: Seq<&'a Project>, x: &'a Project) -> Seq<&'a Project>
    decreases sorted.len(),
{
    if sorted.len() == 0 {
        seq![x]
    } else if sorted.last().child_order <= x.child_order {
        sorted.push(x)
    } else {
        insert_by_order(sorted.drop_last(), x).push(sorted.last())
    }
}

/// The projects sorted stably by their order among siblings.
pub open spec fn sort_by_order(s: Seq<&Project>) -> Seq<&Project>
    decreases s.len(),
{
    if s.len() == 0 {
        s
    } else {
        insert_by_order(sort_by_order(s.drop_last()), s.last())
    }
}

/// One line of the project tree at `depth`: indentation, a branch mark
/// below the top level, the name (a favourite marked with a star; in
/// colour the inbox cyan and the star yellow), the open task count and the
/// short ID.
pub open spec fn tree_line(p: Project, items: Seq<Item>, depth: nat, use_colors: bool) -> Seq<char> {
    let fav = if p.is_favorite {
        "★ "@
    } else {
        Seq::empty()
    };
    let name = if use_colors {
        if p.inbox_project {
            cyan_text(p.name@)
        } else if p.is_favorite {
            yellow_text(fav) + p.name@
        } else {
            p.name@
        }
    } else {
        fav + p.name@
    };
    spaces(2 * depth) + (if depth > 0 {
        "└─ "@
    } else {
        Seq::empty()
    }) + name + " ("@ + decimal(open_task_count(items, p.id@)) + ") ["@ + truncate_id_spec(p.id@) + "]\n"@
}

/// The tree below `parent` at `depth`, at most `fuel` levels deep: each
/// child in order of its position among siblings, followed by its own tree.
pub open spec fn tree_text(
    ps: Seq<&Project>,
    items: Seq<Item>,
    parent: Option<Seq<char>>,
    depth: nat,
    fuel: nat,
    use_colors: bool,
) -> Seq<char>
    decreases fuel, 0nat, 0nat,
{
    if fuel == 0 {
        Seq::empty()
    } else {
        level_text(ps, items, sort_by_order(children_of(ps, parent)), depth, (fuel - 1) as nat, use_colors)
    }
}

/// The lines of `sibs` at `depth`, each followed by its tree.
pub open spec fn level_text(
    ps: Seq<&Project>,
    items: Seq<Item>,
    sibs: Seq<&Project>,
    depth: nat,
    fuel: nat,
    use_colors: bool,
) -> Seq<char>
    decreases fuel, 1nat, sibs.len(),
{
    if sibs.len() == 0 {
        Seq::empty()
    } else {
        level_text(ps, items, sibs.drop_last(), depth, fuel, use_colors) + tree_line(
            *sibs.last(),
            items,
            depth,
            use_colors,
        ) + tree_text(ps, items, Some(sibs.last().id@), depth + 1, fuel, use_colors)
    }
}

fn children_list<'a>(ps: &[&'a Project], parent: Option<&str>) -> (r: Vec<&'a Project>)
    ensures
        r@ == children_of(ps@, str_opt(parent)),
{
    let mut r: Vec<&'a Project> = Vec::new();
    let mut i: usize = 0;
    while i < ps.len()
        invariant
            i <= ps@.len(),
            r@ == children_of(ps@.take(i as int), str_opt(parent)),
        decreases ps.len() - i,
    {
        assert(ps@.take(i + 1).drop_last() =~= ps@.take(i as int));
        let p = ps[i];
        let matches = match (&p.parent_id, parent) {
            (None, None) => true,
            (Some(a), Some(b)) => str_eq(a.as_str(), b),
            _ => false,
        };
        if matches {
            r.push(p);
        }
        i = i + 1;
    }
    assert(ps@.take(ps.len() as int) =~= ps@);
    r
}

fn insert_ordered<'a>(sorted: Vec<&'a Project>, x: &'a Project) -> (r: Vec<&'a Project>)
    ensures
        r@ == insert_by_order(sorted@, x),
    decreases sorted@.len(),
{
    let mut sorted = sorted;
    if sorted.len() == 0 {
        let mut r: Vec<&'a Project> = Vec::new();
        r.push(x);
        assert(r@ =~= seq![x]);
        return r;
    }
    let last = sorted[sorted.len() - 1];
    if last.child_order <= x.child_order {
        sorted.push(x);
        sorted
    } else {
        let ghost whole = sorted@;
        let top = sorted.pop().unwrap();
        assert(sorted@ =~= whole.drop_last());
        let mut r = insert_ordered(sorted, x);
        r.push(top);
        r
    }
}

fn sorted_by_order<'a>(v: Vec<&'a Project>) -> (r: Vec<&'a Project>)
    ensures
        r@ == sort_by_order(v@),
{
    let mut r: Vec<&'a Project> = Vec::new();
    let mut i: usize = 0;
    while i < v.len()
        invariant
            i <= v@.len(),
            r@ == sort_by_order(v@.take(i as int)),
        decreases v.len() - i,
    {
        assert(v@.take(i + 1).drop_last() =~= v@.take(i as int));
        r = insert_ordered(r, v[i]);
        i = i + 1;
    }
    assert(v@.take(v.len() as int) =~= v@);
    r
}

fn tree_line_text(p: &Project, cache: &Cache, depth: usize, use_colors: bool) -> (s: String)
    ensures
        s@ == tree_line(*p, cache.items@, depth as nat, use_colors),
{
    let mut s = String::new();
    let mut k: usize = 0;
    while k < depth
        invariant
            k <= depth,
            s@ == spaces(2 * k as nat),
        decreases depth - k,
    {
        push_str(&mut s, "  ");
        proof {
            reveal_strlit("  ");
        }
        assert(s@ =~= spaces(2 * (k + 1) as nat));
        k = k + 1;
    }
    if depth > 0 {
        push_str(&mut s, "└─ ");
    }
    if use_colors {
        if p.inbox_project {
            let c = cyan(p.name.as_str());
            push_str(&mut s, c.as_str());
        } else if p.is_favorite {
            let y = yellow("★ ");
            push_str(&mut s, y.as_str());
            push_str(&mut s, p.name.as_str());
        } else {
            push_str(&mut s, p.name.as_str());
        }
    } else {
        if p.is_favorite {
            push_str(&mut s, "★ ");
        }
        push_str(&mut s, p.name.as_str());
    }
    push_str(&mut s, " (");
    let n = count_open_tasks_of(&cache.items, p.id.as_str());
    push_u64(&mut s, n as u64);
    push_str(&mut s, ") [");
    let idp = truncate_id(p.id.as_str());
    push_str(&mut s, idp.as_str());
    push_str(&mut s, "]\n");
    proof {
        reveal_strlit("★ ");
    }
    assert(s@ =~= tree_line(*p, cache.items@, depth as nat, use_colors));
    s
}

fn print_tree(
    out: &mut String,
    projects: &[&Project],
    cache: &Cache,
    parent: Option<&str>,
    depth: usize,
    fuel: usize,
    use_colors: bool,
)
    requires
        depth + fuel <= usize::MAX,
    ensures
        final(out)@ == old(out)@ + tree_text(
            projects@,
            cache.items@,
            str_opt(parent),
            depth as nat,
            fuel as nat,
            use_colors,
        ),
    decreases fuel, 0nat, 0nat,
{
    if fuel == 0 {
        return;
    }
    let kids = children_list(projects, parent);
    let sorted = sorted_by_order(kids);
    print_level(out, projects, cache, &sorted, depth, fuel - 1, use_colors);
}

fn print_level(
    out: &mut String,
    projects: &[&Project],
    cache: &Cache,
    sibs: &Vec<&Project>,
    depth: usize,
    fuel: usize,
    use_colors: bool,
)
    requires
        depth + fuel + 1 <= usize::MAX,
    ensures
        final(out)@ == old(out)@ + level_text(projects@, cache.items@, sibs@, depth as nat, fuel as nat, use_colors),
    decreases fuel, 1nat, sibs@.len(),
{
    let mut i: usize = 0;
    while i < sibs.len()
        invariant
            i <= sibs@.len(),
            depth + fuel + 1 <= usize::MAX,
            out@ == old(out)@ + level_text(projects@, cache.items@, sibs@.take(i as int), depth as nat, fuel as nat, use_colors),
        decreases sibs.len() - i,
    {
        let p = sibs[i];
        let line = tree_line_text(p, cache, depth, use_colors);
        push_str(out, line.as_str());
        print_tree(out, projects, cache, Some(p.id.as_str()), depth + 1, fuel, use_colors);
        assert(sibs@.take(i + 1).drop_last() =~= sibs@.take(i as int));
        i = i + 1;
    }
    assert(sibs@.take(sibs.len() as int) =~= sibs@);
}

/// The projects table: a notice when there are none; else the flat table,
/// or the tree of the projects below the top level, as deep as there are
/// projects.
pub open spec fn projects_table(ps: Seq<&Project>, items: Seq<Item>, use_colors: bool, tree: bool) -> Seq<char> {
    if ps.len() == 0 {
        "No projects found.\n"@
    } else if tree {
        tree_text(ps, items, None, 0, ps.len(), use_colors)
    } else {
        header_line(projects_header(), use_colors) + project_rows(ps, items, use_colors)
    }
}

/// Formats projects as a table, flat or as a tree.
pub fn format_projects_table(projects: &[&Project], cache: &Cache, use_colors: bool, tree: bool) -> (s: String)
    ensures
        s@ == projects_table(projects@, cache.items@, use_colors, tree),
{
    if projects.len() == 0 {
        return string_of("No projects found.\n");
    }
    if tree {
        let mut s = String::new();
        print_tree(&mut s, projects, cache, None, 0, projects.len(), use_colors);
        assert(s@ =~= tree_text(projects@, cache.items@, None, 0, projects@.len(), use_colors));
        s
    } else {
        format_projects_flat(projects, cache, use_colors)
    }
}

} // verus!

verus! {

/// JSON record of a created project.
pub struct CreatedProjectOutput<'a> {
    pub id: &'a str,
    pub name: &'a str,
    pub color: Option<&'a str>,
    pub parent_id: Option<&'a str>,
    pub parent_name: Option<&'a str>,
    pub is_favorite: bool,
}

/// The record of a created project.
pub fn created_project_output<'a>(result: &'a ProjectAddResult) -> (r: CreatedProjectOutput<'a>)
    ensures
        r.id@ == result.id@,
        r.name@ == result.name@,
        str_opt(r.color) == opt_chars(result.color),
        str_opt(r.parent_id) == opt_chars(result.parent_id),
        str_opt(r.parent_name) == opt_chars(result.parent_name),
        r.is_favorite == result.is_favorite,
{
    CreatedProjectOutput {
        id: result.id.as_str(),
        name: result.name.as_str(),
        color: opt_str(&result.color),
        parent_id: opt_str(&result.parent_id),
        parent_name: opt_str(&result.parent_name),
        is_favorite: result.is_favorite,
    }
}

/// JSON record of an edited project.
pub struct EditedProjectOutput<'a> {
    pub id: &'a str,
    pub name: &'a str,
    pub updated_fields: &'a [String],
}

/// The record of an edited project.
pub fn edited_project_output<'a>(result: &'a ProjectEditResult) -> (r: EditedProjectOutput<'a>)
    ensures
        r.id@ == result.id@,
        r.name@ == result.name@,
        views(r.updated_fields@) == views(result.updated_fields@),
{
    EditedProjectOutput {
        id: result.id.as_str(),
        name: result.name.as_str(),
        updated_fields: result.updated_fields.as_slice(),
    }
}

/// JSON record of an archived project.
pub struct ArchivedProjectOutput<'a> {
    pub id: &'a str,
    pub name: &'a str,
    pub status: &'static str,
}

/// The record of an archived project, with status `archived`.
pub fn archived_project_output<'a>(result: &'a ProjectArchiveResult) -> (r: ArchivedProjectOutput<'a>)
    ensures
        r.id@ == result.id@,
        r.name@ == result.name@,
        r.status@ == "archived"@,
{
    ArchivedProjectOutput { id: result.id.as_str(), name: result.name.as_str(), status: "archived" }
}

/// JSON record of an unarchived project.
pub struct UnarchivedProjectOutput<'a> {
    pub id: &'a str,
    pub name: &'a str,
    pub status: &'static str,
}

/// The record of an unarchived project, with status `unarchived`.
pub fn unarchived_project_output<'a>(result: &'a ProjectUnarchiveResult) -> (r: UnarchivedProjectOutput<'a>)
    ensures
        r.id@ == result.id@,
        r.name@ == result.name@,
        r.status@ == "unarchived"@,
{
    UnarchivedProjectOutput { id: result.id.as_str(), name: result.name.as_str(), status: "unarchived" }
}

/// JSON record of a deleted project.
pub struct DeletedProjectOutput<'a> {
    pub id: &'a str,
    pub name: &'a str,
    pub status: &'static str,
}

/// The record of a deleted project, with status `deleted`.
pub fn deleted_project_output<'a>(result: &'a ProjectDeleteResult) -> (r: DeletedProjectOutput<'a>)
    ensures
        r.id@ == result.id@,
        r.name@ == result.name@,
        r.status@ == "deleted"@,
{
    DeletedProjectOutput { id: result.id.as_str(), name: result.name.as_str(), status: "deleted" }
}

/// JSON record of the projects list.
pub struct ProjectsListOutput<'a> {
    pub projects: Vec<ProjectOutput<'a>>,
}

/// JSON record of one project in the list; the list does not count tasks,
/// so `task_count` is 0.
pub struct ProjectOutput<'a> {
    pub id: &'a str,
    pub name: &'a str,
    pub color: Option<&'a str>,
    pub parent_id: Option<&'a str>,
    pub is_favorite: bool,
    pub is_archived: bool,
    pub is_inbox: bool,
    pub view_style: Option<&'a str>,
    pub task_count: usize,
}

/// `o` is the record of project `p` in the list.
pub open spec fn project_output_of(o: ProjectOutput, p: Project) -> bool {
    &&& o.id@ == p.id@
    &&& o.name@ == p.name@
    &&& str_opt(o.color) == opt_chars(p.color)
    &&& str_opt(o.parent_id) == opt_chars(p.parent_id)
    &&& o.is_favorite == p.is_favorite
    &&& o.is_archived == p.is_archived
    &&& o.is_inbox == p.inbox_project
    &&& str_opt(o.view_style) == opt_chars(p.view_style)
    &&& o.task_count == 0
}

/// The record of one project in the list.
pub fn project_output<'a>(p: &'a Project) -> (r: ProjectOutput<'a>)
    ensures
        project_output_of(r, *p),
{
    ProjectOutput {
        id: p.id.as_str(),
        name: p.name.as_str(),
        color: opt_str(&p.color),
        parent_id: opt_str(&p.parent_id),
        is_favorite: p.is_favorite,
        is_archived: p.is_archived,
        is_inbox: p.inbox_project,
        view_style: opt_str(&p.view_style),
        task_count: 0,
    }
}

/// The record of the projects list: one record per project, in order.
pub fn projects_list_output<'a>(projects: &[&'a Project]) -> (r: ProjectsListOutput<'a>)
    ensures
        r.projects@.len() == projects@.len(),
        forall|k: int| 0 <= k < projects@.len() ==> project_output_of(#[trigger] r.projects@[k], *projects@[k]),
{
    let mut out: Vec<ProjectOutput<'a>> = Vec::new();
    let mut i: usize = 0;
    while i < projects.len()
        invariant
            i <= projects@.len(),
            out@.len() == i,
            forall|k: int| 0 <= k < i ==> project_output_of(#[trigger] out@[k], *projects@[k]),
        decreases projects.len() - i,
    {
        out.push(project_output(projects[i]));
        i = i + 1;
    }
    ProjectsListOutput { projects: out }
}

/// JSON record of a section in the project details.
pub struct SectionOutput<'a> {
    pub id: &'a str,
    pub name: &'a str,
    pub order: i32,
}

/// JSON record of a task in the project details.
pub struct ProjectTaskOutput<'a> {
    pub id: &'a str,
    pub content: &'a str,
    pub priority: u8,
    pub due: Option<&'a str>,
    pub section_id: Option<&'a str>,
}

/// JSON record of the project details.
pub struct ProjectDetailsOutput<'a> {
    pub id: &'a str,
    pub name: &'a str,
    pub color: Option<&'a str>,
    pub parent_id: Option<&'a str>,
    pub parent_name: Option<&'a str>,
    pub is_favorite: bool,
    pub is_archived: bool,
    pub is_inbox: bool,
    pub view_style: Option<&'a str>,
    pub task_count: usize,
    pub section_count: usize,
    pub sections: Vec<SectionOutput<'a>>,
    pub tasks: Vec<ProjectTaskOutput<'a>>,
}

/// `o` is the record of the project details `r`: the project's fields,
/// the counts, and one record per section and task, in the order given.
pub open spec fn project_details_of(o: ProjectDetailsOutput, r: ProjectsShowResult) -> bool {
    let p = r.project;
    &&& o.id@ == p.id@
    &&& o.name@ == p.name@
    &&& str_opt(o.color) == opt_chars(p.color)
    &&& str_opt(o.parent_id) == opt_chars(p.parent_id)
    &&& str_opt(o.parent_name) == opt_chars(r.parent_name)
    &&& o.is_favorite == p.is_favorite
    &&& o.is_archived == p.is_archived
    &&& o.is_inbox == p.inbox_project
    &&& str_opt(o.view_style) == opt_chars(p.view_style)
    &&& o.task_count == r.task_count
    &&& o.section_count == r.section_count
    &&& o.sections@.len() == r.sections@.len()
    &&& (forall|k: int|
        0 <= k < r.sections@.len() ==> (#[trigger] o.sections@[k]).id@ == r.sections@[k].id@ && o.sections@[k].name@
            == r.sections@[k].name@ && o.sections@[k].order == r.sections@[k].section_order)
    &&& o.tasks@.len() == r.tasks@.len()
    &&& (forall|k: int|
        0 <= k < r.tasks@.len() ==> (#[trigger] o.tasks@[k]).id@ == r.tasks@[k].id@ && o.tasks@[k].content@
            == r.tasks@[k].content@ && o.tasks@[k].priority == user_priority(r.tasks@[k].priority) && str_opt(
            o.tasks@[k].due,
        ) == due_date_of(r.tasks@[k]) && str_opt(o.tasks@[k].section_id) == opt_chars(r.tasks@[k].section_id))
}

/// The record of the project details.
pub fn project_details_output<'a>(r: &'a ProjectsShowResult) -> (o: ProjectDetailsOutput<'a>)
    requires
        forall|k: int| 0 <= k < r.tasks@.len() ==> priority_in_range(#[trigger] r.tasks@[k].priority as int),
    ensures
        project_details_of(o, *r),
{
    let mut sections: Vec<SectionOutput<'a>> = Vec::new();
    let mut i: usize = 0;
    while i < r.sections.len()
        invariant
            i <= r.sections@.len(),
            sections@.len() == i,
            forall|k: int|
                0 <= k < i ==> (#[trigger] sections@[k]).id@ == r.sections@[k].id@ && sections@[k].name@
                    == r.sections@[k].name@ && sections@[k].order == r.sections@[k].section_order,
        decreases r.sections.len() - i,
    {
        let s = &r.sections[i];
        sections.push(SectionOutput { id: s.id.as_str(), name: s.name.as_str(), order: s.section_order });
        i = i + 1;
    }
    let mut tasks: Vec<ProjectTaskOutput<'a>> = Vec::new();
    let mut j: usize = 0;
    while j < r.tasks.len()
        invariant
            j <= r.tasks@.len(),
            tasks@.len() == j,
            forall|k: int| 0 <= k < r.tasks@.len() ==> priority_in_range(#[trigger] r.tasks@[k].priority as int),
            forall|k: int|
                0 <= k < j ==> (#[trigger] tasks@[k]).id@ == r.tasks@[k].id@ && tasks@[k].content@
                    == r.tasks@[k].content@ && tasks@[k].priority == user_priority(r.tasks@[k].priority) && str_opt(
                    tasks@[k].due,
                ) == due_date_of(r.tasks@[k]) && str_opt(tasks@[k].section_id) == opt_chars(r.tasks@[k].section_id),
        decreases r.tasks.len() - j,
    {
        let t = &r.tasks[j];
        assert(priority_in_range(r.tasks@[j as int].priority as int));
        let due = match &t.due {
            Some(d) => Some(d.date.as_str()),
            None => None,
        };
        tasks.push(
            ProjectTaskOutput {
                id: t.id.as_str(),
                content: t.content.as_str(),
                priority: (5 - t.priority) as u8,
                due,
                section_id: opt_str(&t.section_id),
            },
        );
        j = j + 1;
    }
    let p = &r.project;
    ProjectDetailsOutput {
        id: p.id.as_str(),
        name: p.name.as_str(),
        color: opt_str(&p.color),
        parent_id: opt_str(&p.parent_id),
        parent_name: opt_str(&r.parent_name),
        is_favorite: p.is_favorite,
        is_archived: p.is_archived,
        is_inbox: p.inbox_project,
        view_style: opt_str(&p.view_style),
        task_count: r.task_count,
        section_count: r.section_count,
        sections,
        tasks,
    }
}

} // verus!

verus! {

/// No two of the projects share an ID.
pub open spec fn distinct_ids(ps: Seq<&Project>) -> bool {
    forall|i: int, j: int| 0 <= i < ps.len() && 0 <= j < ps.len() && i != j ==> #[trigger] ps[i].id@ != #[trigger] ps[j].id@
}

/// `path` is a chain of distinct projects from the top level down, each the
/// parent of the next.
pub open spec fn chain(ps: Seq<&Project>, path: Seq<int>) -> bool {
    &&& path.no_duplicates()
    &&& forall|k: int| 0 <= k < path.len() ==> 0 <= #[trigger] path[k] < ps.len()
    &&& (path.len() > 0 ==> opt_chars(ps[path[0]].parent_id) is None)
    &&& forall|k: int|
        0 < k < path.len() ==> opt_chars(#[trigger] ps[path[k]].parent_id) == Some(ps[path[k - 1]].id@)
}

/// The project a chain ends at, as the parent of the next level.
pub open spec fn chain_end(ps: Seq<&Project>, path: Seq<int>) -> Option<Seq<char>> {
    if path.len() == 0 {
        None
    } else {
        Some(ps[path.last()].id@)
    }
}

proof fn lemma_children_members(ps: Seq<&Project>, parent: Option<Seq<char>>)
    ensures
        forall|k: int|
            #![trigger children_of(ps, parent)[k]]
            0 <= k < children_of(ps, parent).len() ==> exists|j: int|
                0 <= j < ps.len() && #[trigger] ps[j] == children_of(ps, parent)[k] && opt_chars(ps[j].parent_id)
                    == parent,
    decreases ps.len(),
{
    if ps.len() > 0 {
        let prev = ps.drop_last();
        lemma_children_members(prev, parent);
        assert forall|k: int| #![trigger children_of(ps, parent)[k]] 0 <= k < children_of(ps, parent).len() implies exists|j: int|
            0 <= j < ps.len() && #[trigger] ps[j] == children_of(ps, parent)[k] && opt_chars(ps[j].parent_id)
                == parent by {
            let c = children_of(prev, parent);
            if k < c.len() {
                let j = choose|j: int| 0 <= j < prev.len() && #[trigger] prev[j] == c[k] && opt_chars(prev[j].parent_id) == parent;
                assert(ps[j] == prev[j]);
            } else {
                assert(ps[ps.len() - 1] == children_of(ps, parent)[k]);
            }
        }
    }
}

proof fn lemma_insert_members<'a>(sorted: Seq<&'a Project>, x: &'a Project)
    ensures
        forall|k: int|
            #![trigger insert_by_order(sorted, x)[k]]
            0 <= k < insert_by_order(sorted, x).len() ==> insert_by_order(sorted, x)[k] == x || exists|m: int|
                0 <= m < sorted.len() && #[trigger] sorted[m] == insert_by_order(sorted, x)[k],
    decreases sorted.len(),
{
    if sorted.len() > 0 && !(sorted.last().child_order <= x.child_order) {
        let prev = sorted.drop_last();
        lemma_insert_members(prev, x);
        assert forall|k: int| #![trigger insert_by_order(sorted, x)[k]] 0 <= k < insert_by_order(sorted, x).len() implies insert_by_order(sorted, x)[k] == x
            || exists|m: int| 0 <= m < sorted.len() && #[trigger] sorted[m] == insert_by_order(sorted, x)[k] by {
            let i = insert_by_order(prev, x);
            if k < i.len() {
                if i[k] != x {
                    let m = choose|m: int| 0 <= m < prev.len() && #[trigger] prev[m] == i[k];
                    assert(sorted[m] == prev[m]);
                }
            } else {
                assert(sorted[sorted.len() - 1] == insert_by_order(sorted, x)[k]);
            }
        }
    } else if sorted.len() > 0 {
        assert forall|k: int| #![trigger insert_by_order(sorted, x)[k]] 0 <= k < insert_by_order(sorted, x).len() implies insert_by_order(sorted, x)[k] == x
            || exists|m: int| 0 <= m < sorted.len() && #[trigger] sorted[m] == insert_by_order(sorted, x)[k] by {
            if k < sorted.len() {
                assert(sorted[k] == insert_by_order(sorted, x)[k]);
            }
        }
    }
}

proof fn lemma_sort_members(s: Seq<&Project>)
    ensures
        forall|k: int|
            #![trigger sort_by_order(s)[k]]
            0 <= k < sort_by_order(s).len() ==> exists|m: int| 0 <= m < s.len() && #[trigger] s[m] == sort_by_order(s)[k],
        s.len() == 0 ==> sort_by_order(s).len() == 0,
    decreases s.len(),
{
    if s.len() > 0 {
        let prev = s.drop_last();
        lemma_sort_members(prev);
        lemma_insert_members(sort_by_order(prev), s.last());
        assert forall|k: int| #![trigger sort_by_order(s)[k]] 0 <= k < sort_by_order(s).len() implies exists|m: int|
            0 <= m < s.len() && #[trigger] s[m] == sort_by_order(s)[k] by {
            let t = sort_by_order(s)[k];
            if t == s.last() {
                assert(s[s.len() - 1] == t);
            } else {
                let m1 = choose|m: int| 0 <= m < sort_by_order(prev).len() && #[trigger] sort_by_order(prev)[m] == t;
                let m2 = choose|m: int| 0 <= m < prev.len() && #[trigger] prev[m] == sort_by_order(prev)[m1];
                assert(s[m2] == prev[m2]);
            }
        }
    }
}

proof fn lemma_chain_bounded(ps: Seq<&Project>, path: Seq<int>)
    requires
        chain(ps, path),
    ensures
        path.len() <= ps.len(),
{
    path.unique_seq_to_set();
    assert(path.to_set().subset_of(vstd::set_lib::set_int_range(0, ps.len() as int))) by {
        assert forall|x: int| path.to_set().contains(x) implies vstd::set_lib::set_int_range(0, ps.len() as int).contains(x) by {
            let k = choose|k: int| 0 <= k < path.len() && path[k] == x;
            assert(0 <= path[k] < ps.len());
        }
    }
    vstd::set_lib::lemma_int_range(0, ps.len() as int);
    vstd::set_lib::lemma_len_subset(path.to_set(), vstd::set_lib::set_int_range(0, ps.len() as int));
}

proof fn lemma_chain_extend(ps: Seq<&Project>, path: Seq<int>, j: int)
    requires
        distinct_ids(ps),
        chain(ps, path),
        0 <= j < ps.len(),
        opt_chars(ps[j].parent_id) == chain_end(ps, path),
    ensures
        chain(ps, path.push(j)),
{
    let q = path.push(j);
    assert forall|k: int| 0 <= k < path.len() implies path[k] != j by {
        if path[k] == j {
            if k == 0 {
                assert(opt_chars(ps[path[0]].parent_id) is None);
            } else {
                assert(opt_chars(ps[path[k]].parent_id) == Some(ps[path[k - 1]].id@));
                assert(ps[path[k - 1]].id@ == ps[path.last()].id@);
                assert(path[k - 1] == path[path.len() - 1]);
            }
        }
    }
    assert forall|a: int, b: int| 0 <= a < q.len() && 0 <= b < q.len() && a != b implies q[a] != q[b] by {
        if a < path.len() && b < path.len() {
            assert(path[a] != path[b]);
        }
    }
    assert forall|k: int| 0 < k < q.len() implies opt_chars(#[trigger] ps[q[k]].parent_id) == Some(ps[q[k - 1]].id@) by {
        if k < path.len() {
            assert(q[k] == path[k] && q[k - 1] == path[k - 1]);
        }
    }
}

proof fn lemma_level_same(
    ps: Seq<&Project>,
    items: Seq<Item>,
    sibs: Seq<&Project>,
    depth: nat,
    f1: nat,
    f2: nat,
    use_colors: bool,
)
    requires
        forall|k: int|
            0 <= k < sibs.len() ==> tree_text(ps, items, Some(#[trigger] sibs[k].id@), depth + 1, f1, use_colors)
                == tree_text(ps, items, Some(sibs[k].id@), depth + 1, f2, use_colors),
    ensures
        level_text(ps, items, sibs, depth, f1, use_colors) == level_text(ps, items, sibs, depth, f2, use_colors),
    decreases sibs.len(),
{
    if sibs.len() > 0 {
        let prev = sibs.drop_last();
        assert forall|k: int| 0 <= k < prev.len() implies tree_text(ps, items, Some(#[trigger] prev[k].id@), depth + 1, f1, use_colors)
            == tree_text(ps, items, Some(prev[k].id@), depth + 1, f2, use_colors) by {
            assert(prev[k] == sibs[k]);
        }
        lemma_level_same(ps, items, prev, depth, f1, f2, use_colors);
        assert(sibs.last() == sibs[sibs.len() - 1]);
    }
}

proof fn lemma_tree_same(ps: Seq<&Project>, items: Seq<Item>, path: Seq<int>, f1: nat, f2: nat, use_colors: bool)
    requires
        distinct_ids(ps),
        chain(ps, path),
        f1 + path.len() >= ps.len(),
        f2 + path.len() >= ps.len(),
    ensures
        tree_text(ps, items, chain_end(ps, path), path.len(), f1, use_colors) == tree_text(
            ps,
            items,
            chain_end(ps, path),
            path.len(),
            f2,
            use_colors,
        ),
    decreases ps.len() - path.len(),
{
    lemma_chain_bounded(ps, path);
    let parent = chain_end(ps, path);
    let d = path.len();
    let kids = children_of(ps, parent);
    lemma_children_members(ps, parent);
    lemma_sort_members(kids);
    let sorted = sort_by_order(kids);
    if kids.len() == 0 {
        assert(sorted.len() == 0);
        assert(level_text(ps, items, sorted, d as nat, (f1 - 1) as nat, use_colors) == Seq::<char>::empty());
        assert(level_text(ps, items, sorted, d as nat, (f2 - 1) as nat, use_colors) == Seq::<char>::empty());
    } else {
        let j0 = choose|j: int| 0 <= j < ps.len() && #[trigger] ps[j] == kids[0] && opt_chars(ps[j].parent_id) == parent;
        lemma_chain_extend(ps, path, j0);
        lemma_chain_bounded(ps, path.push(j0));
        assert forall|k: int| 0 <= k < sorted.len() implies tree_text(ps, items, Some(#[trigger] sorted[k].id@), d + 1, (f1 - 1) as nat, use_colors)
            == tree_text(ps, items, Some(sorted[k].id@), d + 1, (f2 - 1) as nat, use_colors) by {
            let m = choose|m: int| 0 <= m < kids.len() && #[trigger] kids[m] == sorted[k];
            let j = choose|j: int| 0 <= j < ps.len() && #[trigger] ps[j] == kids[m] && opt_chars(ps[j].parent_id) == parent;
            lemma_chain_extend(ps, path, j);
            let q = path.push(j);
            assert(chain_end(ps, q) == Some(sorted[k].id@));
            lemma_tree_same(ps, items, q, (f1 - 1) as nat, (f2 - 1) as nat, use_colors);
        }
        lemma_level_same(ps, items, sorted, d as nat, (f1 - 1) as nat, (f2 - 1) as nat, use_colors);
    }
}

/// With distinct IDs the project tree is complete: as many levels as there
/// are projects show every project below the top level, and allowing more
/// levels prints nothing more.
pub proof fn law_tree_depth_suffices(ps: Seq<&Project>, items: Seq<Item>, use_colors: bool, extra: nat)
    requires
        distinct_ids(ps),
    ensures
        tree_text(ps, items, None, 0, ps.len() + extra, use_colors) == tree_text(ps, items, None, 0, ps.len(), use_colors),
{
    let path = Seq::<int>::empty();
    assert(chain(ps, path));
    lemma_tree_same(ps, items, path, ps.len() + extra, ps.len(), use_colors);
}

} // verus!
