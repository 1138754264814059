use td::commands::sections::{
    SectionDeleteResult, SectionEditResult, SectionsAddOptions, SectionsDeleteOptions, SectionsEditOptions,
    SectionsListOptions, find_section_by_id_or_prefix,
};
use td::model::{Cache, Project, Section};



#[test]
fn test_sections_list_options_defaults() {
    let opts = SectionsListOptions::default();

    assert!(opts.project.is_none());
    assert!(opts.limit.is_none());
}

#[test]
fn test_sections_list_options_with_values() {
    let opts = SectionsListOptions {
        project: Some("project-123".to_string()),
        limit: Some(10),
    };

    assert_eq!(opts.project, Some("project-123".to_string()));
    assert_eq!(opts.limit, Some(10));
}

#[test]
fn test_sections_add_options() {
    let opts = SectionsAddOptions {
        name: "Groceries".to_string(),
        project: "Shopping".to_string(),
    };

    assert_eq!(opts.name, "Groceries");
    assert_eq!(opts.project, "Shopping");
}

#[test]
fn test_sections_edit_options() {
    let opts = SectionsEditOptions {
        section_id: "section-123".to_string(),
        name: Some("new-name".to_string()),
    };

    assert_eq!(opts.section_id, "section-123");
    assert_eq!(opts.name, Some("new-name".to_string()));
}

#[test]
fn test_sections_edit_options_minimal() {
    let opts = SectionsEditOptions {
        section_id: "section-456".to_string(),
        name: None,
    };

    assert_eq!(opts.section_id, "section-456");
    assert!(opts.name.is_none());
}

#[test]
fn test_section_edit_result() {
    let result = SectionEditResult {
        id: "section-123".to_string(),
        name: "updated".to_string(),
        updated_fields: vec!["name".to_string()],
    };

    assert_eq!(result.id, "section-123");
    assert_eq!(result.name, "updated");
    assert_eq!(result.updated_fields, vec!["name"]);
}

#[test]
fn test_sections_delete_options() {
    let opts = SectionsDeleteOptions {
        section_id: "section-123".to_string(),
        force: false,
    };

    assert_eq!(opts.section_id, "section-123");
    assert!(!opts.force);
}

#[test]
fn test_sections_delete_options_with_force() {
    let opts = SectionsDeleteOptions {
        section_id: "section-456".to_string(),
        force: true,
    };

    assert_eq!(opts.section_id, "section-456");
    assert!(opts.force);
}

#[test]
fn test_section_delete_result() {
    let result = SectionDeleteResult {
        id: "section-789".to_string(),
        name: "deleted-section".to_string(),
    };

    assert_eq!(result.id, "section-789");
    assert_eq!(result.name, "deleted-section");
}

#[test]
fn test_find_section_by_id_or_prefix_exact_match() {
    let cache = make_test_cache_with_sections();
    let result = find_section_by_id_or_prefix(&cache, "section-123-abc");
    assert!(result.is_ok());
    assert_eq!(result.unwrap().id, "section-123-abc");
}

#[test]
fn test_find_section_by_id_or_prefix_unique_prefix() {
    let cache = make_test_cache_with_sections();
    let result = find_section_by_id_or_prefix(&cache, "section-123");
    assert!(result.is_ok());
    assert_eq!(result.unwrap().id, "section-123-abc");
}

#[test]
fn test_find_section_by_id_or_prefix_not_found() {
    let cache = make_test_cache_with_sections();
    let result = find_section_by_id_or_prefix(&cache, "nonexistent");
    assert!(result.is_err());
    let err = result.unwrap_err().to_string();
    assert!(err.contains("Section not found"));
}

#[test]
fn test_find_section_by_id_or_prefix_ambiguous() {
    let cache = make_cache_with_ambiguous_section_ids();
    let result = find_section_by_id_or_prefix(&cache, "section-");
    assert!(result.is_err());
    let err = result.unwrap_err().to_string();
    assert!(err.contains("Ambiguous"));
}

#[test]
fn test_find_section_by_id_or_prefix_ignores_deleted() {
    let mut cache = make_test_cache_with_sections();
    // Mark the section as deleted
    cache.sections[0].is_deleted = true;

    let result = find_section_by_id_or_prefix(&cache, "section-123");
    assert!(result.is_err());
}

// Helper function to create a test cache with sections
fn make_test_cache_with_sections() -> Cache {
    Cache::with_data(
        "test".to_string(),
        None,
        None,
        vec![],
        vec![make_test_project("project-1", "Test Project")],
        vec![],
        vec![make_test_section(
            "section-123-abc",
            "Groceries",
            "project-1",
        )],
        vec![],
        vec![],
        vec![],
        vec![],
        None,
    )
}

fn make_cache_with_ambiguous_section_ids() -> Cache {
    Cache::with_data(
        "test".to_string(),
        None,
        None,
        vec![],
        vec![make_test_project("project-1", "Test Project")],
        vec![],
        vec![
            make_test_section("section-aaa-111", "section1", "project-1"),
            make_test_section("section-aaa-222", "section2", "project-1"),
            make_test_section("section-bbb-333", "section3", "project-1"),
        ],
        vec![],
        vec![],
        vec![],
        vec![],
        None,
    )
}

fn make_test_section(id: &str, name: &str, project_id: &str) -> Section {
    Section {
        id: id.to_string(),
        name: name.to_string(),
        project_id: project_id.to_string(),
        section_order: 0,
        is_collapsed: false,
        is_deleted: false,
        is_archived: false,
        archived_at: None,
        added_at: None,
        updated_at: None,
    }
}

fn make_test_project(id: &str, name: &str) -> Project {
    Project {
        id: id.to_string(),
        name: name.to_string(),
        color: None,
        parent_id: None,
        child_order: 0,
        is_collapsed: false,
        shared: false,
        can_assign_tasks: false,
        is_deleted: false,
        is_archived: false,
        is_favorite: false,
        view_style: None,
        inbox_project: false,
        folder_id: None,
        created_at: None,
        updated_at: None,
    }
}
