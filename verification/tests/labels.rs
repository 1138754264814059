use td::commands::labels::{
    LabelDeleteResult, LabelEditResult, LabelsAddOptions, LabelsDeleteOptions, LabelsEditOptions, LabelsListOptions,
    find_label_by_id_or_prefix, is_valid_color,
};
use td::model::{Cache, Label};



#[test]
fn test_labels_list_options_defaults() {
    let opts = LabelsListOptions::default();

    assert!(opts.limit.is_none());
}

#[test]
fn test_labels_list_options_with_values() {
    let opts = LabelsListOptions { limit: Some(10) };

    assert_eq!(opts.limit, Some(10));
}

#[test]
fn test_labels_add_options() {
    let opts = LabelsAddOptions {
        name: "urgent".to_string(),
        color: Some("red".to_string()),
        favorite: true,
    };

    assert_eq!(opts.name, "urgent");
    assert_eq!(opts.color, Some("red".to_string()));
    assert!(opts.favorite);
}

#[test]
fn labels_test_is_valid_color() {
    assert!(is_valid_color("blue"));
    assert!(is_valid_color("berry_red"));
    assert!(is_valid_color("lime_green"));
    assert!(is_valid_color("charcoal"));
    assert!(!is_valid_color("invalid"));
    assert!(!is_valid_color(""));
    assert!(!is_valid_color("Blue")); // Case-sensitive
}

#[test]
fn test_labels_edit_options() {
    let opts = LabelsEditOptions {
        label_id: "label-123".to_string(),
        name: Some("new-name".to_string()),
        color: Some("blue".to_string()),
        favorite: Some(true),
    };

    assert_eq!(opts.label_id, "label-123");
    assert_eq!(opts.name, Some("new-name".to_string()));
    assert_eq!(opts.color, Some("blue".to_string()));
    assert_eq!(opts.favorite, Some(true));
}

#[test]
fn test_labels_edit_options_minimal() {
    let opts = LabelsEditOptions {
        label_id: "label-456".to_string(),
        name: None,
        color: None,
        favorite: Some(false),
    };

    assert_eq!(opts.label_id, "label-456");
    assert!(opts.name.is_none());
    assert!(opts.color.is_none());
    assert_eq!(opts.favorite, Some(false));
}

#[test]
fn test_label_edit_result() {
    let result = LabelEditResult {
        id: "label-123".to_string(),
        name: "updated".to_string(),
        updated_fields: vec!["name".to_string(), "color".to_string()],
    };

    assert_eq!(result.id, "label-123");
    assert_eq!(result.name, "updated");
    assert_eq!(result.updated_fields, vec!["name", "color"]);
}

#[test]
fn test_labels_delete_options() {
    let opts = LabelsDeleteOptions {
        label_id: "label-123".to_string(),
        force: false,
    };

    assert_eq!(opts.label_id, "label-123");
    assert!(!opts.force);
}

#[test]
fn test_labels_delete_options_with_force() {
    let opts = LabelsDeleteOptions {
        label_id: "label-456".to_string(),
        force: true,
    };

    assert_eq!(opts.label_id, "label-456");
    assert!(opts.force);
}

#[test]
fn test_label_delete_result() {
    let result = LabelDeleteResult {
        id: "label-789".to_string(),
        name: "deleted-label".to_string(),
    };

    assert_eq!(result.id, "label-789");
    assert_eq!(result.name, "deleted-label");
}

#[test]
fn test_find_label_by_id_or_prefix_exact_match() {
    let cache = make_test_cache_with_labels();
    let result = find_label_by_id_or_prefix(&cache, "label-123-abc");
    assert!(result.is_ok());
    assert_eq!(result.unwrap().id, "label-123-abc");
}

#[test]
fn test_find_label_by_id_or_prefix_unique_prefix() {
    let cache = make_test_cache_with_labels();
    let result = find_label_by_id_or_prefix(&cache, "label-123");
    assert!(result.is_ok());
    assert_eq!(result.unwrap().id, "label-123-abc");
}

#[test]
fn test_find_label_by_id_or_prefix_not_found() {
    let cache = make_test_cache_with_labels();
    let result = find_label_by_id_or_prefix(&cache, "nonexistent");
    assert!(result.is_err());
    let err = result.unwrap_err().to_string();
    assert!(err.contains("Label not found"));
}

#[test]
fn test_find_label_by_id_or_prefix_ambiguous() {
    let cache = make_cache_with_ambiguous_label_ids();
    let result = find_label_by_id_or_prefix(&cache, "label-");
    assert!(result.is_err());
    let err = result.unwrap_err().to_string();
    assert!(err.contains("Ambiguous"));
}

#[test]
fn test_find_label_by_id_or_prefix_ignores_deleted() {
    let mut cache = make_test_cache_with_labels();
    // Mark the label as deleted
    cache.labels[0].is_deleted = true;

    let result = find_label_by_id_or_prefix(&cache, "label-123");
    assert!(result.is_err());
}

// Helper function to create a test cache with labels
fn make_test_cache_with_labels() -> Cache {
    Cache::with_data(
        "test".to_string(),
        None,
        None,
        vec![],
        vec![],
        vec![make_test_label("label-123-abc", "urgent")],
        vec![],
        vec![],
        vec![],
        vec![],
        vec![],
        None,
    )
}

fn make_cache_with_ambiguous_label_ids() -> Cache {
    Cache::with_data(
        "test".to_string(),
        None,
        None,
        vec![],
        vec![],
        vec![
            make_test_label("label-aaa-111", "label1"),
            make_test_label("label-aaa-222", "label2"),
            make_test_label("label-bbb-333", "label3"),
        ],
        vec![],
        vec![],
        vec![],
        vec![],
        vec![],
        None,
    )
}

fn make_test_label(id: &str, name: &str) -> Label {
    Label {
        id: id.to_string(),
        name: name.to_string(),
        color: None,
        item_order: 0,
        is_deleted: false,
        is_favorite: false,
    }
}
