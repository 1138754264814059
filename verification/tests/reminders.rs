use td::commands::reminders::{
    ReminderAddResult, ReminderDeleteResult, RemindersAddOptions, RemindersDeleteOptions, RemindersListOptions,
    filter_reminders, find_reminder_by_id_or_prefix, format_offset, format_reminder_description,
};
use td::commands::entities::resolve_task_id;
use td::model::{Cache, Due, Item, Project, Reminder, ReminderType};



#[test]
fn test_reminders_list_options_defaults() {
    let opts = RemindersListOptions::default();
    assert!(opts.task.is_none());
}

#[test]
fn test_reminders_list_options_with_task() {
    let opts = RemindersListOptions {
        task: Some("task-123".to_string()),
    };
    assert_eq!(opts.task, Some("task-123".to_string()));
}

#[test]
fn test_filter_reminders_by_task() {
    let cache = make_test_cache();
    let reminders = filter_reminders(&cache, "task-1");

    assert_eq!(reminders.len(), 2);
}

#[test]
fn test_filter_reminders_excludes_deleted() {
    let mut cache = make_test_cache();
    cache.reminders[0].is_deleted = true;

    let reminders = filter_reminders(&cache, "task-1");

    assert_eq!(reminders.len(), 1);
}

#[test]
fn test_filter_reminders_no_match() {
    let cache = make_test_cache();
    let reminders = filter_reminders(&cache, "nonexistent");

    assert!(reminders.is_empty());
}

#[test]
fn reminders_test_resolve_task_id_exact_match() {
    let cache = make_test_cache();
    let result = resolve_task_id(&cache, "task-1");
    assert!(result.is_ok());
    assert_eq!(result.unwrap(), "task-1");
}

#[test]
fn reminders_test_resolve_task_id_not_found() {
    let cache = make_test_cache();
    let result = resolve_task_id(&cache, "nonexistent");
    assert!(result.is_err());
    assert!(result.unwrap_err().to_string().contains("Task not found"));
}

#[test]
fn test_resolve_task_id_prefix_match() {
    let mut cache = make_test_cache();
    cache.items.push(Item {
        id: "task-abc123def456".to_string(),
        user_id: None,
        project_id: "project-1".to_string(),
        content: "Prefixed task".to_string(),
        description: String::new(),
        priority: 1,
        due: None,
        deadline: None,
        parent_id: None,
        child_order: 0,
        section_id: None,
        day_order: 0,
        is_collapsed: false,
        labels: vec![],
        added_by_uid: None,
        assigned_by_uid: None,
        responsible_uid: None,
        checked: false,
        is_deleted: false,
        added_at: None,
        updated_at: None,
        completed_at: None,
        duration: None,
    });

    // Should match with 6+ char prefix
    let result = resolve_task_id(&cache, "task-a");
    assert!(result.is_ok());
    assert_eq!(result.unwrap(), "task-abc123def456");
}

// Helper function to create a test cache
fn make_test_cache() -> Cache {
    Cache {
        sync_token: "test".to_string(),
        full_sync_date_utc: None,
        last_sync: None,
        items: vec![make_test_item("task-1", "Test Task", "project-1")],
        projects: vec![make_test_project("project-1", "Test Project")],
        labels: vec![],
        sections: vec![],
        notes: vec![],
        project_notes: vec![],
        reminders: vec![
            Reminder {
                id: "reminder-1".to_string(),
                item_id: "task-1".to_string(),
                reminder_type: ReminderType::Relative,
                due: None,
                minute_offset: Some(30),
                is_deleted: false,
                notify_uid: None,
                name: None,
                loc_lat: None,
                loc_long: None,
                loc_trigger: None,
                radius: None,
            },
            Reminder {
                id: "reminder-2".to_string(),
                item_id: "task-1".to_string(),
                reminder_type: ReminderType::Absolute,
                due: Some(Due {
                    date: "2025-01-26".to_string(),
                    datetime: Some("2025-01-26T10:00:00Z".to_string()),
                    timezone: Some("UTC".to_string()),
                    string: None,
                    is_recurring: false,
                    lang: None,
                }),
                minute_offset: None,
                is_deleted: false,
                notify_uid: None,
                name: None,
                loc_lat: None,
                loc_long: None,
                loc_trigger: None,
                radius: None,
            },
        ],
        filters: vec![],
        user: None,
    }
}

fn make_test_item(id: &str, content: &str, project_id: &str) -> Item {
    Item {
        id: id.to_string(),
        user_id: None,
        project_id: project_id.to_string(),
        content: content.to_string(),
        description: String::new(),
        priority: 1,
        due: None,
        deadline: None,
        parent_id: None,
        child_order: 0,
        section_id: None,
        day_order: 0,
        is_collapsed: false,
        labels: vec![],
        added_by_uid: None,
        assigned_by_uid: None,
        responsible_uid: None,
        checked: false,
        is_deleted: false,
        added_at: None,
        updated_at: None,
        completed_at: None,
        duration: None,
    }
}

fn make_test_project(id: &str, name: &str) -> Project {
    Project {
        id: id.to_string(),
        name: name.to_string(),
        color: None,
        parent_id: None,
        child_order: 0,
        is_collapsed: false,
        shared: false,
        can_assign_tasks: false,
        is_deleted: false,
        is_archived: false,
        is_favorite: false,
        view_style: None,
        inbox_project: false,
        folder_id: None,
        created_at: None,
        updated_at: None,
    }
}

// ========================================================================
// Reminders Add Tests
// ========================================================================

#[test]
fn test_reminders_add_options_with_due() {
    let opts = RemindersAddOptions {
        task: "task-123".to_string(),
        due: Some("2025-01-26T10:00:00".to_string()),
        offset: None,
    };

    assert_eq!(opts.task, "task-123");
    assert_eq!(opts.due, Some("2025-01-26T10:00:00".to_string()));
    assert!(opts.offset.is_none());
}

#[test]
fn test_reminders_add_options_with_offset() {
    let opts = RemindersAddOptions {
        task: "task-456".to_string(),
        due: None,
        offset: Some(30),
    };

    assert_eq!(opts.task, "task-456");
    assert!(opts.due.is_none());
    assert_eq!(opts.offset, Some(30));
}

#[test]
fn test_reminder_add_result_absolute() {
    let result = ReminderAddResult {
        id: "reminder-123".to_string(),
        task_id: "task-1".to_string(),
        task_name: Some("My Task".to_string()),
        reminder_type: ReminderType::Absolute,
        due: Some("2025-01-26T10:00:00".to_string()),
        minute_offset: None,
    };

    assert_eq!(result.id, "reminder-123");
    assert_eq!(result.task_id, "task-1");
    assert_eq!(result.task_name, Some("My Task".to_string()));
    assert_eq!(result.reminder_type, ReminderType::Absolute);
    assert_eq!(result.due, Some("2025-01-26T10:00:00".to_string()));
    assert!(result.minute_offset.is_none());
}

#[test]
fn test_reminder_add_result_relative() {
    let result = ReminderAddResult {
        id: "reminder-456".to_string(),
        task_id: "task-2".to_string(),
        task_name: Some("Another Task".to_string()),
        reminder_type: ReminderType::Relative,
        due: None,
        minute_offset: Some(60),
    };

    assert_eq!(result.id, "reminder-456");
    assert_eq!(result.task_id, "task-2");
    assert_eq!(result.task_name, Some("Another Task".to_string()));
    assert_eq!(result.reminder_type, ReminderType::Relative);
    assert!(result.due.is_none());
    assert_eq!(result.minute_offset, Some(60));
}

#[test]
fn test_format_offset_zero() {
    assert_eq!(format_offset(0), "at time of due date");
}

#[test]
fn test_format_offset_minutes() {
    assert_eq!(format_offset(30), "30 minutes before");
    assert_eq!(format_offset(45), "45 minutes before");
}

#[test]
fn test_format_offset_one_hour() {
    assert_eq!(format_offset(60), "1 hour before");
}

#[test]
fn test_format_offset_hours() {
    assert_eq!(format_offset(120), "2 hours before");
    assert_eq!(format_offset(180), "3 hours before");
}

#[test]
fn test_format_offset_one_day() {
    assert_eq!(format_offset(1440), "1 day before");
}

#[test]
fn test_format_offset_days() {
    assert_eq!(format_offset(2880), "2 days before");
    assert_eq!(format_offset(4320), "3 days before");
}

// ========================================================================
// Reminders Delete Tests
// ========================================================================

#[test]
fn test_reminders_delete_options() {
    let opts = RemindersDeleteOptions {
        reminder_id: "reminder-123".to_string(),
        force: false,
    };

    assert_eq!(opts.reminder_id, "reminder-123");
    assert!(!opts.force);
}

#[test]
fn test_reminders_delete_options_with_force() {
    let opts = RemindersDeleteOptions {
        reminder_id: "reminder-456".to_string(),
        force: true,
    };

    assert_eq!(opts.reminder_id, "reminder-456");
    assert!(opts.force);
}

#[test]
fn test_reminder_delete_result() {
    let result = ReminderDeleteResult {
        id: "reminder-789".to_string(),
        task_id: "task-1".to_string(),
        task_name: Some("Test Task".to_string()),
        reminder_type: ReminderType::Relative,
    };

    assert_eq!(result.id, "reminder-789");
    assert_eq!(result.task_id, "task-1");
    assert_eq!(result.task_name, Some("Test Task".to_string()));
    assert_eq!(result.reminder_type, ReminderType::Relative);
}

#[test]
fn test_find_reminder_by_id_or_prefix_exact_match() {
    let cache = make_test_cache();
    let result = find_reminder_by_id_or_prefix(&cache, "reminder-1");
    assert!(result.is_ok());
    assert_eq!(result.unwrap().id, "reminder-1");
}

#[test]
fn test_find_reminder_by_id_or_prefix_prefix_match() {
    let cache = make_test_cache();
    let result = find_reminder_by_id_or_prefix(&cache, "reminder-2");
    assert!(result.is_ok());
    assert_eq!(result.unwrap().id, "reminder-2");
}

#[test]
fn test_find_reminder_by_id_or_prefix_not_found() {
    let cache = make_test_cache();
    let result = find_reminder_by_id_or_prefix(&cache, "nonexistent");
    assert!(result.is_err());
    let err = result.unwrap_err().to_string();
    assert!(err.contains("Reminder not found"));
}

#[test]
fn test_find_reminder_by_id_or_prefix_ambiguous() {
    let cache = make_test_cache();
    // Both reminder-1 and reminder-2 start with "reminder-"
    let result = find_reminder_by_id_or_prefix(&cache, "reminder-");
    assert!(result.is_err());
    let err = result.unwrap_err().to_string();
    assert!(err.contains("Ambiguous"));
}

#[test]
fn test_find_reminder_by_id_or_prefix_ignores_deleted() {
    let mut cache = make_test_cache();
    cache.reminders[0].is_deleted = true;

    let result = find_reminder_by_id_or_prefix(&cache, "reminder-1");
    assert!(result.is_err());
}

#[test]
fn test_format_reminder_description_relative() {
    assert_eq!(
        format_reminder_description(ReminderType::Relative, Some(30), None),
        "30 minutes before"
    );
    assert_eq!(
        format_reminder_description(ReminderType::Relative, Some(60), None),
        "1 hour before"
    );
    assert_eq!(
        format_reminder_description(ReminderType::Relative, None, None),
        "relative reminder"
    );
}

#[test]
fn test_format_reminder_description_absolute() {
    let due = Due {
        date: "2025-01-26".to_string(),
        datetime: Some("2025-01-26T10:00:00Z".to_string()),
        timezone: Some("UTC".to_string()),
        string: None,
        is_recurring: false,
        lang: None,
    };
    assert_eq!(
        format_reminder_description(ReminderType::Absolute, None, Some(&due)),
        "at 2025-01-26"
    );
    assert_eq!(
        format_reminder_description(ReminderType::Absolute, None, None),
        "absolute reminder"
    );
}

#[test]
fn test_format_reminder_description_location() {
    assert_eq!(
        format_reminder_description(ReminderType::Location, None, None),
        "location-based reminder"
    );
}
