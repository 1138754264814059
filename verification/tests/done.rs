use td::commands::done::{DoneOptions, DoneResult, find_item_by_id_or_prefix};
use td::model::{Cache, Item};


#[test]
fn test_done_options_single_task() {
    let opts = DoneOptions {
        task_ids: vec!["abc123".to_string()],
        all_occurrences: false,
        force: false,
    };

    assert_eq!(opts.task_ids.len(), 1);
    assert!(!opts.all_occurrences);
    assert!(!opts.force);
}

#[test]
fn test_done_options_multiple_tasks() {
    let opts = DoneOptions {
        task_ids: vec![
            "abc123".to_string(),
            "def456".to_string(),
            "ghi789".to_string(),
        ],
        all_occurrences: false,
        force: true,
    };

    assert_eq!(opts.task_ids.len(), 3);
    assert!(opts.force);
}

#[test]
fn test_done_result_success() {
    let result = DoneResult {
        id: "abc123".to_string(),
        content: "Test task".to_string(),
        success: true,
        error: None,
    };

    assert!(result.success);
    assert!(result.error.is_none());
}

#[test]
fn test_done_result_failure() {
    let result = DoneResult {
        id: "abc123".to_string(),
        content: "Test task".to_string(),
        success: false,
        error: Some("Task not found".to_string()),
    };

    assert!(!result.success);
    assert!(result.error.is_some());
}

#[test]
fn done_test_find_item_by_id_or_prefix_exact_match() {
    let cache = make_test_cache();
    let result = find_item_by_id_or_prefix(&cache, "item-123-abc");
    assert!(result.is_ok());
    assert_eq!(result.unwrap().id, "item-123-abc");
}

#[test]
fn done_test_find_item_by_id_or_prefix_unique_prefix() {
    let cache = make_test_cache();
    let result = find_item_by_id_or_prefix(&cache, "item-123");
    assert!(result.is_ok());
    assert_eq!(result.unwrap().id, "item-123-abc");
}

#[test]
fn done_test_find_item_by_id_or_prefix_not_found() {
    let cache = make_test_cache();
    let result = find_item_by_id_or_prefix(&cache, "nonexistent");
    assert!(result.is_err());
    let err = result.unwrap_err().to_string();
    assert!(err.contains("Task not found"));
}

#[test]
fn done_test_find_item_by_id_or_prefix_ambiguous() {
    let cache = make_cache_with_ambiguous_ids();
    let result = find_item_by_id_or_prefix(&cache, "item-");
    assert!(result.is_err());
    let err = result.unwrap_err().to_string();
    assert!(err.contains("Ambiguous"));
}

#[test]
fn done_test_find_item_by_id_or_prefix_ignores_deleted() {
    let mut cache = make_test_cache();
    cache.items[0].is_deleted = true;

    let result = find_item_by_id_or_prefix(&cache, "item-123");
    assert!(result.is_err());
}

#[test]
fn test_find_item_by_id_or_prefix_ignores_completed() {
    let mut cache = make_test_cache();
    cache.items[0].checked = true;

    let result = find_item_by_id_or_prefix(&cache, "item-123");
    assert!(result.is_err());
}


// Helper function to create a test cache
fn make_test_cache() -> Cache {
    Cache {
        sync_token: "test".to_string(),
        full_sync_date_utc: None,
        last_sync: None,
        items: vec![make_test_item("item-123-abc", "Test task")],
        projects: vec![],
        labels: vec![],
        sections: vec![],
        notes: vec![],
        project_notes: vec![],
        reminders: vec![],
        filters: vec![],
        user: None,
    }
}

fn make_cache_with_ambiguous_ids() -> Cache {
    Cache {
        sync_token: "test".to_string(),
        full_sync_date_utc: None,
        last_sync: None,
        items: vec![
            make_test_item("item-aaa-111", "Task 1"),
            make_test_item("item-aaa-222", "Task 2"),
            make_test_item("item-bbb-333", "Task 3"),
        ],
        projects: vec![],
        labels: vec![],
        sections: vec![],
        notes: vec![],
        project_notes: vec![],
        reminders: vec![],
        filters: vec![],
        user: None,
    }
}

fn make_test_item(id: &str, content: &str) -> Item {
    Item {
        id: id.to_string(),
        user_id: None,
        project_id: "proj-1".to_string(),
        content: content.to_string(),
        description: String::new(),
        priority: 1,
        due: None,
        deadline: None,
        parent_id: None,
        child_order: 0,
        section_id: None,
        day_order: 0,
        is_collapsed: false,
        labels: vec![],
        added_by_uid: None,
        assigned_by_uid: None,
        responsible_uid: None,
        checked: false,
        is_deleted: false,
        added_at: None,
        updated_at: None,
        completed_at: None,
        duration: None,
    }
}
