use td::commands::add::AddOptions;


#[test]
fn test_add_options_defaults() {
    let opts = AddOptions {
        content: "Test task".to_string(),
        project: None,
        priority: None,
        due: None,
        labels: vec![],
        section: None,
        parent: None,
        description: None,
    };

    assert_eq!(opts.content, "Test task");
    assert!(opts.project.is_none());
    assert!(opts.labels.is_empty());
}

#[test]
fn test_add_options_with_all_fields() {
    let opts = AddOptions {
        content: "Test task".to_string(),
        project: Some("Work".to_string()),
        priority: Some(1),
        due: Some("tomorrow".to_string()),
        labels: vec!["urgent".to_string(), "important".to_string()],
        section: Some("In Progress".to_string()),
        parent: Some("parent-123".to_string()),
        description: Some("Task description".to_string()),
    };

    assert_eq!(opts.content, "Test task");
    assert_eq!(opts.project, Some("Work".to_string()));
    assert_eq!(opts.priority, Some(1));
    assert_eq!(opts.due, Some("tomorrow".to_string()));
    assert_eq!(opts.labels.len(), 2);
    assert_eq!(opts.section, Some("In Progress".to_string()));
    assert_eq!(opts.parent, Some("parent-123".to_string()));
    assert_eq!(opts.description, Some("Task description".to_string()));
}

#[test]
fn add_test_priority_conversion() {
    // User priority 1 (highest) -> API priority 4
    assert_eq!(5 - 1, 4);
    // User priority 4 (lowest) -> API priority 1
    assert_eq!(5 - 4, 1);
}
