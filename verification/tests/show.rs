use td::commands::show::{ShowOptions, find_item_by_id_or_prefix};
use td::model::{Cache, Item};


#[test]
fn test_show_options_defaults() {
    let opts = ShowOptions {
        task_id: "abc123".to_string(),
        comments: false,
        reminders: false,
    };

    assert_eq!(opts.task_id, "abc123");
    assert!(!opts.comments);
    assert!(!opts.reminders);
}

#[test]
fn test_show_options_with_all_flags() {
    let opts = ShowOptions {
        task_id: "abc123def456".to_string(),
        comments: true,
        reminders: true,
    };

    assert_eq!(opts.task_id, "abc123def456");
    assert!(opts.comments);
    assert!(opts.reminders);
}

#[test]
fn show_test_find_item_by_id_or_prefix_exact_match() {
    let cache = make_test_cache();
    let result = find_item_by_id_or_prefix(&cache, "item-123-abc");
    assert!(result.is_ok());
    assert_eq!(result.unwrap().id, "item-123-abc");
}

#[test]
fn show_test_find_item_by_id_or_prefix_unique_prefix() {
    let cache = make_test_cache();
    let result = find_item_by_id_or_prefix(&cache, "item-123");
    assert!(result.is_ok());
    assert_eq!(result.unwrap().id, "item-123-abc");
}

#[test]
fn show_test_find_item_by_id_or_prefix_not_found() {
    let cache = make_test_cache();
    let result = find_item_by_id_or_prefix(&cache, "nonexistent");
    assert!(result.is_err());
    let err = result.unwrap_err().to_string();
    assert!(err.contains("Task not found"));
}

#[test]
fn show_test_find_item_by_id_or_prefix_ambiguous() {
    let cache = make_cache_with_ambiguous_ids();
    let result = find_item_by_id_or_prefix(&cache, "item-");
    assert!(result.is_err());
    let err = result.unwrap_err().to_string();
    assert!(err.contains("Ambiguous"));
}

#[test]
fn show_test_find_item_by_id_or_prefix_ignores_deleted() {
    let mut cache = make_test_cache();
    // Mark the item as deleted
    cache.items[0].is_deleted = true;

    let result = find_item_by_id_or_prefix(&cache, "item-123");
    assert!(result.is_err());
}

// Helper function to create a test cache
fn make_test_cache() -> Cache {
    Cache {
        sync_token: "test".to_string(),
        full_sync_date_utc: None,
        last_sync: None,
        items: vec![make_test_item("item-123-abc", "Test task")],
        projects: vec![],
        labels: vec![],
        sections: vec![],
        notes: vec![],
        project_notes: vec![],
        reminders: vec![],
        filters: vec![],
        user: None,
    }
}

fn make_cache_with_ambiguous_ids() -> Cache {
    Cache {
        sync_token: "test".to_string(),
        full_sync_date_utc: None,
        last_sync: None,
        items: vec![
            make_test_item("item-aaa-111", "Task 1"),
            make_test_item("item-aaa-222", "Task 2"),
            make_test_item("item-bbb-333", "Task 3"),
        ],
        projects: vec![],
        labels: vec![],
        sections: vec![],
        notes: vec![],
        project_notes: vec![],
        reminders: vec![],
        filters: vec![],
        user: None,
    }
}

fn make_test_item(id: &str, content: &str) -> Item {
    Item {
        id: id.to_string(),
        user_id: None,
        project_id: "proj-1".to_string(),
        content: content.to_string(),
        description: String::new(),
        priority: 1,
        due: None,
        deadline: None,
        parent_id: None,
        child_order: 0,
        section_id: None,
        day_order: 0,
        is_collapsed: false,
        labels: vec![],
        added_by_uid: None,
        assigned_by_uid: None,
        responsible_uid: None,
        checked: false,
        is_deleted: false,
        added_at: None,
        updated_at: None,
        completed_at: None,
        duration: None,
    }
}
