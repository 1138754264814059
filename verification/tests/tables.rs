use td::commands::comments::Comment;
use td::commands::filters::FilterShowResult;
use td::commands::projects::ProjectsShowResult;
use td::commands::show::ShowResult;
use td::commands::today::{today_output, TodayResult};
use td::dates::CalDate;
use td::model::{Cache, Due, Filter, Item, Label, Note, Project, Reminder, ReminderType, Section};
use td::output::comments::{comments_list_output, first_line_of, format_comments_table_with};
use td::output::filters::{format_filter_details_table, format_filters_table};
use td::output::helpers::{format_due, format_due_on, format_due_verbose};
use td::output::labels::{format_labels_table, labels_list_output};
use td::output::projects::{format_project_details_table, format_projects_table, project_details_output, projects_list_output};
use td::output::reminders::{format_reminders_table, reminders_list_output};
use td::output::sections::{format_sections_table, sections_list_output};
use td::output::tasks::{format_item_details_table_with, format_items_table_on, list_output, task_details_output};

fn label(id: &str, name: &str, color: Option<&str>, fav: bool) -> Label {
    Label {
        id: id.to_string(),
        name: name.to_string(),
        color: color.map(|c| c.to_string()),
        item_order: 1,
        is_deleted: false,
        is_favorite: fav,
    }
}

fn project(id: &str, name: &str, parent: Option<&str>, order: i32) -> Project {
    Project {
        id: id.to_string(),
        name: name.to_string(),
        color: None,
        parent_id: parent.map(|p| p.to_string()),
        child_order: order,
        is_collapsed: false,
        shared: false,
        can_assign_tasks: false,
        is_deleted: false,
        is_archived: false,
        is_favorite: false,
        view_style: None,
        inbox_project: false,
        folder_id: None,
        created_at: None,
        updated_at: None,
    }
}

fn section(id: &str, name: &str, project_id: &str, archived: bool) -> Section {
    Section {
        id: id.to_string(),
        name: name.to_string(),
        project_id: project_id.to_string(),
        section_order: 1,
        is_collapsed: false,
        is_deleted: false,
        is_archived: archived,
        archived_at: None,
        added_at: None,
        updated_at: None,
    }
}

fn item(id: &str, content: &str, project_id: &str, priority: i32, due: Option<&str>) -> Item {
    Item {
        id: id.to_string(),
        user_id: None,
        project_id: project_id.to_string(),
        content: content.to_string(),
        description: String::new(),
        priority,
        due: due.map(|d| Due {
            date: d.to_string(),
            datetime: None,
            timezone: None,
            string: None,
            is_recurring: false,
            lang: None,
        }),
        deadline: None,
        parent_id: None,
        child_order: 0,
        section_id: None,
        day_order: 0,
        is_collapsed: false,
        labels: vec![],
        added_by_uid: None,
        assigned_by_uid: None,
        responsible_uid: None,
        checked: false,
        is_deleted: false,
        added_at: None,
        updated_at: None,
        completed_at: None,
        duration: None,
    }
}

fn note(id: &str, item_id: &str, content: &str, posted: Option<&str>) -> Note {
    Note {
        id: id.to_string(),
        item_id: item_id.to_string(),
        content: content.to_string(),
        posted_at: posted.map(|p| p.to_string()),
        is_deleted: false,
        posted_uid: None,
        file_attachment: None,
    }
}

fn reminder(id: &str, item_id: &str, kind: ReminderType, offset: Option<i32>) -> Reminder {
    Reminder {
        id: id.to_string(),
        item_id: item_id.to_string(),
        reminder_type: kind,
        due: None,
        minute_offset: offset,
        is_deleted: false,
        notify_uid: None,
        name: None,
        loc_lat: None,
        loc_long: None,
        loc_trigger: None,
        radius: None,
    }
}

fn cache_with(items: Vec<Item>, projects: Vec<Project>) -> Cache {
    Cache::with_data("t".to_string(), None, None, items, projects, vec![], vec![], vec![], vec![], vec![], vec![], None)
}

#[test]
fn test_labels_table_rows() {
    let a = label("label-123456", "urgent", Some("red"), true);
    let b = label("lb2", "home", None, false);
    let table = format_labels_table(&[&a, &b], false);
    let expected = format!(
        "{:<8} {:<4} {:<20} {}\n{:<8} {:<4} {:<20} {}\n{:<8} {:<4} {:<20} {}\n",
        "ID", "Fav", "Name", "Color", "label-", "★", "@urgent", "red", "lb2", " ", "@home", ""
    );
    assert_eq!(table, expected);
}

#[test]
fn test_labels_table_empty_and_long_name() {
    assert_eq!(format_labels_table(&[], false), "No labels found.\n");
    let a = label("x", "a-very-long-label-name-here", None, false);
    let table = format_labels_table(&[&a], false);
    assert!(table.contains("@a-very-long-labe... "));
}

#[test]
fn test_labels_list_output_records() {
    let a = label("l1", "work", Some("blue"), true);
    let out = labels_list_output(&[&a]);
    assert_eq!(out.labels.len(), 1);
    assert_eq!(out.labels[0].id, "l1");
    assert_eq!(out.labels[0].color, Some("blue"));
    assert!(out.labels[0].is_favorite);
}

#[test]
fn test_sections_table_with_project_and_archive() {
    let p = project("proj-1", "Work", None, 0);
    let cache = cache_with(vec![], vec![p]);
    let s1 = section("sec-1", "Todo", "proj-1", false);
    let s2 = section("sec-2", "Old", "missing", true);
    let table = format_sections_table(&[&s1, &s2], &cache, false);
    let expected = format!(
        "{:<8} {:<25} {:<20}\n{:<8} {:<25} {:<20}\n{:<8} {:<25} {:<20}\n",
        "ID", "Name", "Project", "sec-1", "Todo", "Work", "sec-2", "Old [archived]", ""
    );
    assert_eq!(table, expected);
    let records = sections_list_output(&[&s1, &s2], &cache);
    assert_eq!(records.sections[0].project_name, Some("Work"));
    assert_eq!(records.sections[1].project_name, None);
}

#[test]
fn test_filters_tables() {
    let f = Filter {
        id: "filter-9999".to_string(),
        name: "Urgent".to_string(),
        query: "p1 & today".to_string(),
        color: Some("red".to_string()),
        item_order: 3,
        is_deleted: false,
        is_favorite: true,
    };
    let table = format_filters_table(&[&f], false);
    let expected = format!(
        "{:<8} {:<4} {:<25} {}\n{:<8} {:<4} {:<25} {}\n",
        "ID", "Fav", "Name", "Query", "filter", "★", "Urgent", "p1 & today"
    );
    assert_eq!(table, expected);
    let details = format_filter_details_table(&FilterShowResult { filter: f }, false);
    assert_eq!(
        details,
        "Filter: Urgent\nID: filter-9999\nQuery: p1 & today\nColor: red\nFavorite: Yes\nOrder: 3\n"
    );
}

#[test]
fn test_reminders_table_with_task_name() {
    let r1 = reminder("rem-1234567", "task-1", ReminderType::Relative, Some(90));
    let r2 = reminder("rem-2", "task-1", ReminderType::Location, None);
    let table = format_reminders_table(&[&r1, &r2], Some("Buy milk"), false);
    let expected = format!(
        "Reminders for: Buy milk\n\n{:<8} {:<12} {}\n{:<8} {:<12} {}\n{:<8} {:<12} {}\n",
        "ID", "Type", "When", "rem-12", "relative", "1 hours before", "rem-2", "location", "Location-based reminder"
    );
    assert_eq!(table, expected);
    assert_eq!(format_reminders_table(&[], None, false), "No reminders found.\n");
    let cache = cache_with(vec![item("task-1", "Buy milk", "p", 1, None)], vec![]);
    let records = reminders_list_output(&[&r1], &cache);
    assert_eq!(records.reminders[0].task_name, Some("Buy milk"));
    assert_eq!(records.reminders[0].reminder_type, "relative");
}

#[test]
fn test_first_line_of_text() {
    assert_eq!(first_line_of("one\r\ntwo"), "one");
    assert_eq!(first_line_of("one\ntwo"), "one");
    assert_eq!(first_line_of(""), "");
    assert_eq!(first_line_of("single"), "single");
    assert_eq!(first_line_of("\nsecond"), "");
}

#[test]
fn test_comments_table_with_stamps() {
    let c1 = Comment::Task(note("note-1234567", "task-1", "First line\nsecond", Some("2024-01-15T10:00:00Z")));
    let c2 = Comment::Task(note("n2", "task-1", "Plain", None));
    let stamps = vec!["2024-01-15 10:00".to_string(), String::new()];
    let table = format_comments_table_with(&[c1.clone(), c2.clone()], Some("Task"), &stamps, false);
    let expected = format!(
        "Comments for: Task\n\n{:<8} {:<20} {}\n{:<8} {:<20} {}\n{:<8} {:<20} {}\n",
        "ID", "Posted", "Content", "note-1", "2024-01-15 10:00", "First line", "n2", "", "Plain"
    );
    assert_eq!(table, expected);
    let cache = cache_with(vec![item("task-1", "Write", "p", 1, None)], vec![]);
    let comments = vec![c1, c2];
    let records = comments_list_output(&comments, &cache);
    assert_eq!(records.comments[0].parent_type, "task");
    assert_eq!(records.comments[0].parent_name, Some("Write"));
}

#[test]
fn test_items_table_on_fixed_day() {
    let today = CalDate::parse("2024-01-15").unwrap();
    let p = project("proj-1", "Work", None, 0);
    let mut a = item("task-1234567", "Call", "proj-1", 4, Some("2024-01-15"));
    a.labels = vec!["home".to_string()];
    let b = item("t2", "Write", "other", 1, Some("2024-01-10"));
    let cache = cache_with(vec![], vec![p]);
    let table = format_items_table_on(&[&a, &b], &cache, false, &today);
    let expected = format!(
        "{:<8} {:<4} {:<12} {:<15} {:<15} {}\n{:<8} {:<4} {:<12} {:<15} {:<15} {}\n{:<8} {:<4} {:<12} {:<15} {:<15} {}\n",
        "ID", "Pri", "Due", "Project", "Labels", "Content",
        "task-1", "p1", "Today", "Work", "@home", "Call",
        "t2", "p4", "5 days ago", "", "", "Write"
    );
    assert_eq!(table, expected);
    assert_eq!(format_items_table_on(&[], &cache, false, &today), "No tasks found.\n");
    assert_eq!(format_due_on(Some(&"2024-01-16".to_string()), false, &today), "Tomorrow");
}

#[test]
fn test_list_output_records() {
    let p = project("proj-1", "Work", None, 0);
    let a = item("t1", "Call", "proj-1", 4, Some("2024-01-15"));
    let cache = cache_with(vec![], vec![p]);
    let out = list_output(&[&a], &cache);
    assert_eq!(out.tasks[0].priority, 1);
    assert_eq!(out.tasks[0].due, Some("2024-01-15"));
    assert_eq!(out.tasks[0].project_name, Some("Work"));
    assert!(out.cursor.is_none());
    assert!(!out.has_more);
}

#[test]
fn test_item_details_table_with_fixed_times() {
    let today = CalDate::parse("2024-01-15").unwrap();
    let mut task = item("task-1", "Write report", "proj-1", 4, Some("2024-01-16"));
    task.description = "Line one\r\nLine two".to_string();
    task.added_at = Some("2024-01-01T09:00:00Z".to_string());
    let sub = {
        let mut s = item("sub-1", "Outline", "proj-1", 1, None);
        s.checked = true;
        s
    };
    let n = note("n1", "task-1", "Looks good", Some("2024-01-14T08:00:00Z"));
    let r = reminder("r1", "task-1", ReminderType::Relative, Some(0));
    let result = ShowResult {
        item: &task,
        project_name: Some("Work".to_string()),
        section_name: None,
        labels: vec!["a".to_string(), "b".to_string()],
        comments: vec![&n],
        reminders: vec![&r],
        subtasks: vec![&sub],
    };
    let stamps = vec!["2024-01-14 08:00".to_string()];
    let text = format_item_details_table_with(&result, false, &today, "2024-01-01 09:00", &stamps);
    let expected = "Task: Write report\nID: task-1\nProject: Work\nPriority: p1 (highest)\nDue: Tomorrow\n\
Labels: @a, @b\nCreated: 2024-01-01 09:00\nDescription:\n  Line one\n  Line two\n\nSubtasks (1):\n  [x] Outline\n\
\nComments (1):\n  [2024-01-14 08:00]\n  Looks good\n\n\nReminders (1):\n  - At time of due date\n";
    assert_eq!(text, expected);
    let record = task_details_output(&result);
    assert_eq!(record.priority, 1);
    assert_eq!(record.subtasks.len(), 1);
    assert!(record.subtasks[0].checked);
    assert_eq!(record.comments[0].content, "Looks good");
}

#[test]
fn test_projects_flat_and_tree() {
    let mut alpha = project("p-a", "Alpha", None, 2);
    alpha.color = Some("blue".to_string());
    let mut beta = project("p-b", "Beta", None, 1);
    beta.is_favorite = true;
    let child = project("p-c", "Child", Some("p-a"), 0);
    let mut done = item("t3", "Done", "p-a", 1, None);
    done.checked = true;
    let cache = cache_with(
        vec![item("t1", "One", "p-a", 1, None), item("t2", "Two", "p-a", 1, None), done, item("t4", "Four", "p-c", 1, None)],
        vec![],
    );
    let tree = format_projects_table(&[&alpha, &beta, &child], &cache, false, true);
    assert_eq!(tree, "★ Beta (0) [p-b]\nAlpha (2) [p-a]\n  └─ Child (1) [p-c]\n");
    let flat = format_projects_table(&[&alpha, &beta], &cache, false, false);
    let expected = format!(
        "{:<8} {:<4} {:<25} {:<6} {}\n{:<8} {:<4} {:<25} {:<6} {}\n{:<8} {:<4} {:<25} {:<6} {}\n",
        "ID", "Fav", "Name", "Tasks", "Color", "p-a", " ", "Alpha", 2, "blue", "p-b", "★", "Beta", 0, ""
    );
    assert_eq!(flat, expected);
    assert_eq!(format_projects_table(&[], &cache, false, true), "No projects found.\n");
    let records = projects_list_output(&[&alpha]);
    assert_eq!(records.projects[0].color, Some("blue"));
    assert_eq!(records.projects[0].task_count, 0);
}

#[test]
fn test_project_tree_orphans_and_order_ties() {
    let first = project("p-1", "First", None, 1);
    let second = project("p-2", "Second", None, 1);
    let orphan = project("p-3", "Orphan", Some("gone"), 0);
    let cache = cache_with(vec![], vec![]);
    let tree = format_projects_table(&[&first, &second, &orphan], &cache, false, true);
    assert_eq!(tree, "First (0) [p-1]\nSecond (0) [p-2]\n");
}

#[test]
fn test_project_details_record() {
    let p = project("p-1", "Work", None, 0);
    let r = ProjectsShowResult {
        project: p,
        parent_name: None,
        task_count: 1,
        section_count: 1,
        sections: vec![section("s1", "Todo", "p-1", false)],
        tasks: vec![item("t1", "Call", "p-1", 3, Some("2024-02-01"))],
    };
    let out = project_details_output(&r);
    assert_eq!(out.sections[0].order, 1);
    assert_eq!(out.tasks[0].priority, 2);
    assert_eq!(out.tasks[0].due, Some("2024-02-01"));
}

#[test]
fn test_today_output_counts_all_groups() {
    let a = item("t1", "Late", "p", 4, Some("2024-01-01"));
    let b = item("t2", "Now", "p", 1, Some("2024-01-15"));
    let cache = cache_with(vec![], vec![project("p", "Home", None, 0)]);
    let result = TodayResult { overdue: vec![&a], today: vec![&b], upcoming: vec![], upcoming_days: None };
    let out = today_output(&result, &cache);
    assert_eq!(out.total_count, 2);
    assert_eq!(out.overdue[0].priority, 1);
    assert_eq!(out.today[0].project_name, Some("Home"));
    assert!(out.upcoming.is_empty());
}

#[test]
fn test_project_tree_reaches_every_level() {
    let a = project("p-a", "A", None, 0);
    let b = project("p-b", "B", Some("p-a"), 0);
    let c = project("p-c", "C", Some("p-b"), 0);
    let d = project("p-d", "D", Some("p-c"), 0);
    let cache = cache_with(vec![], vec![]);
    let tree = format_projects_table(&[&d, &c, &b, &a], &cache, false, true);
    assert_eq!(tree, "A (0) [p-a]\n  └─ B (0) [p-b]\n    └─ C (0) [p-c]\n      └─ D (0) [p-d]\n");
}

#[test]
fn due_text_without_a_date_or_with_free_text() {
    assert_eq!(format_due(None, false), "");
    assert_eq!(format_due(Some(&"someday".to_string()), true), "someday");
}

#[test]
fn verbose_due_of_free_text_keeps_it() {
    let mut due = Due {
        date: "someday".to_string(),
        datetime: None,
        timezone: None,
        string: None,
        is_recurring: false,
        lang: None,
    };
    assert_eq!(format_due_verbose(&due, false), "someday");
    due.is_recurring = true;
    assert_eq!(format_due_verbose(&due, false), "someday (recurring)");
    due.string = Some("every day".to_string());
    assert_eq!(format_due_verbose(&due, false), "someday (every day)");
}

#[test]
fn project_details_table_starts_with_the_project() {
    let p = project("p-1", "Work", None, 0);
    let r = ProjectsShowResult {
        project: p,
        parent_name: None,
        task_count: 0,
        section_count: 0,
        sections: vec![],
        tasks: vec![],
    };
    let table = format_project_details_table(&r, false);
    assert!(table.starts_with("Project: Work\nID: p-1\n"), "{}", table);
}
