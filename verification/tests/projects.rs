use td::commands::projects::{ProjectsAddOptions, ProjectsListOptions, is_valid_color};


#[test]
fn test_projects_list_options_defaults() {
    let opts = ProjectsListOptions::default();

    assert!(!opts.tree);
    assert!(!opts.archived);
    assert!(opts.limit.is_none());
}

#[test]
fn test_projects_list_options_with_values() {
    let opts = ProjectsListOptions {
        tree: true,
        archived: true,
        limit: Some(10),
    };

    assert!(opts.tree);
    assert!(opts.archived);
    assert_eq!(opts.limit, Some(10));
}

#[test]
fn test_projects_add_options() {
    let opts = ProjectsAddOptions {
        name: "Test Project".to_string(),
        color: Some("blue".to_string()),
        parent: Some("Parent".to_string()),
        favorite: true,
    };

    assert_eq!(opts.name, "Test Project");
    assert_eq!(opts.color, Some("blue".to_string()));
    assert_eq!(opts.parent, Some("Parent".to_string()));
    assert!(opts.favorite);
}

#[test]
fn projects_test_is_valid_color() {
    assert!(is_valid_color("blue"));
    assert!(is_valid_color("berry_red"));
    assert!(is_valid_color("lime_green"));
    assert!(is_valid_color("charcoal"));
    assert!(!is_valid_color("invalid"));
    assert!(!is_valid_color(""));
    assert!(!is_valid_color("Blue")); // Case-sensitive
}
