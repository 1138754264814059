use td::commands::quick::{QuickAddResponse, QuickOptions, QuickResult};
use td::model::Due;


#[test]
fn test_quick_options_defaults() {
    let opts = QuickOptions {
        text: "Buy milk tomorrow".to_string(),
        auto_reminder: false,
        note: None,
    };

    assert_eq!(opts.text, "Buy milk tomorrow");
    assert!(!opts.auto_reminder);
    assert!(opts.note.is_none());
}

#[test]
fn test_quick_options_with_all_fields() {
    let opts = QuickOptions {
        text: "Meeting at 3pm #Work".to_string(),
        auto_reminder: true,
        note: Some("Bring laptop".to_string()),
    };

    assert_eq!(opts.text, "Meeting at 3pm #Work");
    assert!(opts.auto_reminder);
    assert_eq!(opts.note, Some("Bring laptop".to_string()));
}

#[test]
fn test_quick_result_from_response_minimal() {
    let response = QuickAddResponse {
        id: "old-id".to_string(),
        v2_id: Some("v2-task-123".to_string()),
        project_id: "old-proj".to_string(),
        v2_project_id: Some("v2-proj-456".to_string()),
        content: "Buy groceries".to_string(),
        description: String::new(),
        priority: 1, // API priority (lowest)
        due: None,
        section_id: None,
        parent_id: None,
        child_order: 0,
        labels: vec![],
        added_by_uid: None,
        assigned_by_uid: None,
        responsible_uid: None,
        checked: false,
        is_deleted: false,
        added_at: None,
        resolved_project_name: None,
        resolved_assignee_name: None,
    };

    let result = QuickResult::from_response(response, None);

    assert_eq!(result.id, "v2-task-123");
    assert_eq!(result.content, "Buy groceries");
    assert_eq!(result.project_id, "v2-proj-456");
    assert!(result.project_name.is_none());
    assert!(result.due_string.is_none());
    assert_eq!(result.priority, 4); // User priority (lowest)
    assert!(result.labels.is_empty());
}

#[test]
fn test_quick_result_from_response_full() {
    let response = QuickAddResponse {
        id: "old-id".to_string(),
        v2_id: Some("v2-task-123".to_string()),
        project_id: "old-proj".to_string(),
        v2_project_id: Some("v2-proj-456".to_string()),
        content: "Buy groceries".to_string(),
        description: String::new(),
        priority: 4, // API priority (highest)
        due: Some(Due {
            date: "2026-01-27".to_string(),
            datetime: None,
            string: Some("tomorrow".to_string()),
            timezone: None,
            is_recurring: false,
            lang: None,
        }),
        section_id: None,
        parent_id: None,
        child_order: 0,
        labels: vec!["errands".to_string(), "shopping".to_string()],
        added_by_uid: None,
        assigned_by_uid: None,
        responsible_uid: None,
        checked: false,
        is_deleted: false,
        added_at: None,
        resolved_project_name: Some("Shopping".to_string()),
        resolved_assignee_name: None,
    };

    let result = QuickResult::from_response(response, Some("Shopping".to_string()));

    assert_eq!(result.id, "v2-task-123");
    assert_eq!(result.content, "Buy groceries");
    assert_eq!(result.project_id, "v2-proj-456");
    assert_eq!(result.project_name, Some("Shopping".to_string()));
    assert_eq!(result.due_string, Some("tomorrow".to_string()));
    assert_eq!(result.priority, 1); // User priority (highest)
    assert_eq!(result.labels, vec!["errands", "shopping"]);
}

#[test]
fn test_quick_result_priority_conversion() {
    // API priority 4 (highest) -> User priority 1
    let response = create_test_response(4);
    let result = QuickResult::from_response(response, None);
    assert_eq!(result.priority, 1);

    // API priority 3 -> User priority 2
    let response = create_test_response(3);
    let result = QuickResult::from_response(response, None);
    assert_eq!(result.priority, 2);

    // API priority 2 -> User priority 3
    let response = create_test_response(2);
    let result = QuickResult::from_response(response, None);
    assert_eq!(result.priority, 3);

    // API priority 1 (lowest) -> User priority 4
    let response = create_test_response(1);
    let result = QuickResult::from_response(response, None);
    assert_eq!(result.priority, 4);
}

fn create_test_response(priority: i32) -> QuickAddResponse {
    QuickAddResponse {
        id: "test-id".to_string(),
        v2_id: None,
        project_id: "proj-id".to_string(),
        v2_project_id: None,
        content: "Test".to_string(),
        description: String::new(),
        priority,
        due: None,
        section_id: None,
        parent_id: None,
        child_order: 0,
        labels: vec![],
        added_by_uid: None,
        assigned_by_uid: None,
        responsible_uid: None,
        checked: false,
        is_deleted: false,
        added_at: None,
        resolved_project_name: None,
        resolved_assignee_name: None,
    }
}

#[test]
fn test_quick_result_uses_v2_ids() {
    // When v2_id is present, should use it
    let response = QuickAddResponse {
        id: "legacy-id".to_string(),
        v2_id: Some("v2-id".to_string()),
        project_id: "legacy-proj".to_string(),
        v2_project_id: Some("v2-proj".to_string()),
        content: "Test".to_string(),
        description: String::new(),
        priority: 1,
        due: None,
        section_id: None,
        parent_id: None,
        child_order: 0,
        labels: vec![],
        added_by_uid: None,
        assigned_by_uid: None,
        responsible_uid: None,
        checked: false,
        is_deleted: false,
        added_at: None,
        resolved_project_name: None,
        resolved_assignee_name: None,
    };

    let result = QuickResult::from_response(response, None);
    assert_eq!(result.id, "v2-id");
    assert_eq!(result.project_id, "v2-proj");
}

#[test]
fn test_quick_result_falls_back_to_legacy_ids() {
    // When v2_id is absent, should use legacy id
    let response = QuickAddResponse {
        id: "legacy-id".to_string(),
        v2_id: None,
        project_id: "legacy-proj".to_string(),
        v2_project_id: None,
        content: "Test".to_string(),
        description: String::new(),
        priority: 1,
        due: None,
        section_id: None,
        parent_id: None,
        child_order: 0,
        labels: vec![],
        added_by_uid: None,
        assigned_by_uid: None,
        responsible_uid: None,
        checked: false,
        is_deleted: false,
        added_at: None,
        resolved_project_name: None,
        resolved_assignee_name: None,
    };

    let result = QuickResult::from_response(response, None);
    assert_eq!(result.id, "legacy-id");
    assert_eq!(result.project_id, "legacy-proj");
}
