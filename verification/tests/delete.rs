use td::commands::delete::{DeleteOptions, DeleteResult};


#[test]
fn test_delete_options_single_task() {
    let opts = DeleteOptions {
        task_ids: vec!["abc123".to_string()],
        force: false,
    };

    assert_eq!(opts.task_ids.len(), 1);
    assert!(!opts.force);
}

#[test]
fn test_delete_options_multiple_tasks() {
    let opts = DeleteOptions {
        task_ids: vec![
            "abc123".to_string(),
            "def456".to_string(),
            "ghi789".to_string(),
        ],
        force: true,
    };

    assert_eq!(opts.task_ids.len(), 3);
    assert!(opts.force);
}

#[test]
fn test_delete_result_success() {
    let result = DeleteResult {
        id: "abc123".to_string(),
        content: "Test task".to_string(),
        success: true,
        error: None,
    };

    assert!(result.success);
    assert!(result.error.is_none());
}

#[test]
fn test_delete_result_failure() {
    let result = DeleteResult {
        id: "abc123".to_string(),
        content: "Test task".to_string(),
        success: false,
        error: Some("Task not found".to_string()),
    };

    assert!(!result.success);
    assert!(result.error.is_some());
}

// Note: Tests for item lookup by prefix are now in SyncManager tests
// (resolve_item_by_prefix covers exact match, prefix match, not found,
// ambiguous, deleted items, and completion status filtering)

