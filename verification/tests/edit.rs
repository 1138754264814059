use td::commands::edit::{EditOptions, edited_content, find_item_by_id_or_prefix};
use td::model::{Cache, Item};


#[test]
fn test_edit_options_defaults() {
    let opts = EditOptions {
        task_id: "abc123".to_string(),
        content: None,
        project: None,
        priority: None,
        due: None,
        no_due: false,
        labels: vec![],
        add_label: None,
        remove_label: None,
        section: None,
        description: None,
    };

    assert_eq!(opts.task_id, "abc123");
    assert!(opts.content.is_none());
    assert!(!opts.no_due);
    assert!(opts.labels.is_empty());
}

#[test]
fn test_edit_options_with_all_fields() {
    let opts = EditOptions {
        task_id: "abc123def456".to_string(),
        content: Some("Updated content".to_string()),
        project: Some("Work".to_string()),
        priority: Some(1),
        due: Some("tomorrow".to_string()),
        no_due: false,
        labels: vec!["urgent".to_string(), "important".to_string()],
        add_label: None,
        remove_label: None,
        section: Some("In Progress".to_string()),
        description: Some("New description".to_string()),
    };

    assert_eq!(opts.task_id, "abc123def456");
    assert_eq!(opts.content, Some("Updated content".to_string()));
    assert_eq!(opts.project, Some("Work".to_string()));
    assert_eq!(opts.priority, Some(1));
    assert_eq!(opts.due, Some("tomorrow".to_string()));
    assert!(!opts.no_due);
    assert_eq!(opts.labels.len(), 2);
    assert_eq!(opts.section, Some("In Progress".to_string()));
    assert_eq!(opts.description, Some("New description".to_string()));
}

#[test]
fn test_edit_options_no_due() {
    let opts = EditOptions {
        task_id: "abc123".to_string(),
        content: None,
        project: None,
        priority: None,
        due: None,
        no_due: true,
        labels: vec![],
        add_label: None,
        remove_label: None,
        section: None,
        description: None,
    };

    assert!(opts.no_due);
    assert!(opts.due.is_none());
}

#[test]
fn test_edit_options_label_operations() {
    let opts = EditOptions {
        task_id: "abc123".to_string(),
        content: None,
        project: None,
        priority: None,
        due: None,
        no_due: false,
        labels: vec![],
        add_label: Some("new-label".to_string()),
        remove_label: Some("old-label".to_string()),
        section: None,
        description: None,
    };

    assert!(opts.labels.is_empty());
    assert_eq!(opts.add_label, Some("new-label".to_string()));
    assert_eq!(opts.remove_label, Some("old-label".to_string()));
}

#[test]
fn edit_test_priority_conversion() {
    // User priority 1 (highest) -> API priority 4
    assert_eq!(5 - 1, 4);
    // User priority 4 (lowest) -> API priority 1
    assert_eq!(5 - 4, 1);
}

#[test]
fn edit_test_find_item_by_id_or_prefix_exact_match() {
    let cache = make_test_cache();
    let result = find_item_by_id_or_prefix(&cache, "item-123-abc");
    assert!(result.is_ok());
    assert_eq!(result.unwrap().id, "item-123-abc");
}

#[test]
fn edit_test_find_item_by_id_or_prefix_unique_prefix() {
    let cache = make_test_cache();
    let result = find_item_by_id_or_prefix(&cache, "item-123");
    assert!(result.is_ok());
    assert_eq!(result.unwrap().id, "item-123-abc");
}

#[test]
fn edit_test_find_item_by_id_or_prefix_not_found() {
    let cache = make_test_cache();
    let result = find_item_by_id_or_prefix(&cache, "nonexistent");
    assert!(result.is_err());
    let err = result.unwrap_err().to_string();
    assert!(err.contains("Task not found"));
}

#[test]
fn edit_test_find_item_by_id_or_prefix_ambiguous() {
    let cache = make_cache_with_ambiguous_ids();
    let result = find_item_by_id_or_prefix(&cache, "item-");
    assert!(result.is_err());
    let err = result.unwrap_err().to_string();
    assert!(err.contains("Ambiguous"));
}

#[test]
fn edit_test_find_item_by_id_or_prefix_ignores_deleted() {
    let mut cache = make_test_cache();
    // Mark the item as deleted
    cache.items[0].is_deleted = true;

    let result = find_item_by_id_or_prefix(&cache, "item-123");
    assert!(result.is_err());
}

// Helper functions to create test caches
fn make_test_cache() -> Cache {
    Cache {
        sync_token: "test".to_string(),
        full_sync_date_utc: None,
        last_sync: None,
        items: vec![make_test_item("item-123-abc", "Test task")],
        projects: vec![],
        labels: vec![],
        sections: vec![],
        notes: vec![],
        project_notes: vec![],
        reminders: vec![],
        filters: vec![],
        user: None,
    }
}

fn make_cache_with_ambiguous_ids() -> Cache {
    Cache {
        sync_token: "test".to_string(),
        full_sync_date_utc: None,
        last_sync: None,
        items: vec![
            make_test_item("item-aaa-111", "Task 1"),
            make_test_item("item-aaa-222", "Task 2"),
            make_test_item("item-bbb-333", "Task 3"),
        ],
        projects: vec![],
        labels: vec![],
        sections: vec![],
        notes: vec![],
        project_notes: vec![],
        reminders: vec![],
        filters: vec![],
        user: None,
    }
}

fn make_test_item(id: &str, content: &str) -> Item {
    Item {
        id: id.to_string(),
        user_id: None,
        project_id: "proj-1".to_string(),
        content: content.to_string(),
        description: String::new(),
        priority: 1,
        due: None,
        deadline: None,
        parent_id: None,
        child_order: 0,
        section_id: None,
        day_order: 0,
        is_collapsed: false,
        labels: vec![],
        added_by_uid: None,
        assigned_by_uid: None,
        responsible_uid: None,
        checked: false,
        is_deleted: false,
        added_at: None,
        updated_at: None,
        completed_at: None,
        duration: None,
    }
}

#[test]
fn an_edit_reports_the_new_content_or_the_current_one() {
    let item = make_test_item("item-1", "Old title");
    let mut opts = EditOptions {
        task_id: "item-1".to_string(),
        content: None,
        project: None,
        priority: Some(1),
        due: None,
        no_due: false,
        labels: vec![],
        add_label: None,
        remove_label: None,
        section: None,
        description: None,
    };
    assert_eq!(edited_content(&opts, &item), "Old title");
    opts.content = Some("New title".to_string());
    assert_eq!(edited_content(&opts, &item), "New title");
}
