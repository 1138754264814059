use td::commands::filters::{
    FilterDeleteResult, FilterEditResult, FiltersAddOptions, FiltersDeleteOptions, FiltersEditOptions,
    FiltersListOptions, FiltersShowOptions, find_filter_by_id_or_prefix, is_valid_color,
};
use td::model::{Cache, Filter};



#[test]
fn test_filters_list_options_defaults() {
    let opts = FiltersListOptions::default();

    assert!(opts.limit.is_none());
}

#[test]
fn test_filters_list_options_with_values() {
    let opts = FiltersListOptions { limit: Some(10) };

    assert_eq!(opts.limit, Some(10));
}

#[test]
fn test_filters_add_options() {
    let opts = FiltersAddOptions {
        name: "Today & High Priority".to_string(),
        query: "today & p1".to_string(),
        color: Some("red".to_string()),
        favorite: true,
    };

    assert_eq!(opts.name, "Today & High Priority");
    assert_eq!(opts.query, "today & p1");
    assert_eq!(opts.color, Some("red".to_string()));
    assert!(opts.favorite);
}

#[test]
fn filters_test_is_valid_color() {
    assert!(is_valid_color("blue"));
    assert!(is_valid_color("berry_red"));
    assert!(is_valid_color("lime_green"));
    assert!(is_valid_color("charcoal"));
    assert!(!is_valid_color("invalid"));
    assert!(!is_valid_color(""));
    assert!(!is_valid_color("Blue")); // Case-sensitive
}

#[test]
fn test_filters_show_options() {
    let opts = FiltersShowOptions {
        filter_id: "filter-123".to_string(),
    };

    assert_eq!(opts.filter_id, "filter-123");
}

#[test]
fn test_filters_edit_options() {
    let opts = FiltersEditOptions {
        filter_id: "filter-123".to_string(),
        name: Some("new-name".to_string()),
        query: Some("today".to_string()),
        color: Some("blue".to_string()),
        favorite: Some(true),
    };

    assert_eq!(opts.filter_id, "filter-123");
    assert_eq!(opts.name, Some("new-name".to_string()));
    assert_eq!(opts.query, Some("today".to_string()));
    assert_eq!(opts.color, Some("blue".to_string()));
    assert_eq!(opts.favorite, Some(true));
}

#[test]
fn test_filters_edit_options_minimal() {
    let opts = FiltersEditOptions {
        filter_id: "filter-456".to_string(),
        name: None,
        query: None,
        color: None,
        favorite: Some(false),
    };

    assert_eq!(opts.filter_id, "filter-456");
    assert!(opts.name.is_none());
    assert!(opts.query.is_none());
    assert!(opts.color.is_none());
    assert_eq!(opts.favorite, Some(false));
}

#[test]
fn test_filter_edit_result() {
    let result = FilterEditResult {
        id: "filter-123".to_string(),
        name: "updated".to_string(),
        updated_fields: vec!["name".to_string(), "query".to_string()],
    };

    assert_eq!(result.id, "filter-123");
    assert_eq!(result.name, "updated");
    assert_eq!(result.updated_fields, vec!["name", "query"]);
}

#[test]
fn test_filters_delete_options() {
    let opts = FiltersDeleteOptions {
        filter_id: "filter-123".to_string(),
        force: false,
    };

    assert_eq!(opts.filter_id, "filter-123");
    assert!(!opts.force);
}

#[test]
fn test_filters_delete_options_with_force() {
    let opts = FiltersDeleteOptions {
        filter_id: "filter-456".to_string(),
        force: true,
    };

    assert_eq!(opts.filter_id, "filter-456");
    assert!(opts.force);
}

#[test]
fn test_filter_delete_result() {
    let result = FilterDeleteResult {
        id: "filter-789".to_string(),
        name: "deleted-filter".to_string(),
    };

    assert_eq!(result.id, "filter-789");
    assert_eq!(result.name, "deleted-filter");
}

#[test]
fn test_find_filter_by_id_or_prefix_exact_match() {
    let cache = make_test_cache_with_filters();
    let result = find_filter_by_id_or_prefix(&cache, "filter-123-abc");
    assert!(result.is_ok());
    assert_eq!(result.unwrap().id, "filter-123-abc");
}

#[test]
fn test_find_filter_by_id_or_prefix_unique_prefix() {
    let cache = make_test_cache_with_filters();
    let result = find_filter_by_id_or_prefix(&cache, "filter-123");
    assert!(result.is_ok());
    assert_eq!(result.unwrap().id, "filter-123-abc");
}

#[test]
fn test_find_filter_by_id_or_prefix_not_found() {
    let cache = make_test_cache_with_filters();
    let result = find_filter_by_id_or_prefix(&cache, "nonexistent");
    assert!(result.is_err());
    let err = result.unwrap_err().to_string();
    assert!(err.contains("Filter not found"));
}

#[test]
fn test_find_filter_by_id_or_prefix_ambiguous() {
    let cache = make_cache_with_ambiguous_filter_ids();
    let result = find_filter_by_id_or_prefix(&cache, "filter-");
    assert!(result.is_err());
    let err = result.unwrap_err().to_string();
    assert!(err.contains("Ambiguous"));
}

#[test]
fn test_find_filter_by_id_or_prefix_ignores_deleted() {
    let mut cache = make_test_cache_with_filters();
    // Mark the filter as deleted
    cache.filters[0].is_deleted = true;

    let result = find_filter_by_id_or_prefix(&cache, "filter-123");
    assert!(result.is_err());
}

// Helper function to create a test cache with filters
fn make_test_cache_with_filters() -> Cache {
    Cache {
        sync_token: "test".to_string(),
        full_sync_date_utc: None,
        last_sync: None,
        items: vec![],
        projects: vec![],
        labels: vec![],
        sections: vec![],
        notes: vec![],
        project_notes: vec![],
        reminders: vec![],
        filters: vec![make_test_filter("filter-123-abc", "Today", "today")],
        user: None,
    }
}

fn make_cache_with_ambiguous_filter_ids() -> Cache {
    Cache {
        sync_token: "test".to_string(),
        full_sync_date_utc: None,
        last_sync: None,
        items: vec![],
        projects: vec![],
        labels: vec![],
        sections: vec![],
        notes: vec![],
        project_notes: vec![],
        reminders: vec![],
        filters: vec![
            make_test_filter("filter-aaa-111", "Filter 1", "today"),
            make_test_filter("filter-aaa-222", "Filter 2", "tomorrow"),
            make_test_filter("filter-bbb-333", "Filter 3", "overdue"),
        ],
        user: None,
    }
}

fn make_test_filter(id: &str, name: &str, query: &str) -> Filter {
    Filter {
        id: id.to_string(),
        name: name.to_string(),
        query: query.to_string(),
        color: None,
        item_order: 0,
        is_deleted: false,
        is_favorite: false,
    }
}
