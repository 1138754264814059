use td::commands::collaborators::{
    collaborator_records, find_shared_project, format_collaborators_table, no_collaborators_message,
    project_states, CollaboratorsOptions,
};
use td::model::{Cache, Collaborator, CollaboratorState, Project, Sharing, User};

fn project(id: &str, name: &str, deleted: bool) -> Project {
    Project {
        id: id.to_string(),
        name: name.to_string(),
        color: None,
        parent_id: None,
        child_order: 0,
        is_collapsed: false,
        shared: true,
        can_assign_tasks: true,
        is_deleted: deleted,
        is_archived: false,
        is_favorite: false,
        view_style: None,
        inbox_project: false,
        folder_id: None,
        created_at: None,
        updated_at: None,
    }
}

fn shared_cache() -> (Cache, Sharing) {
    let user = User { id: "u1".to_string(), email: None, full_name: None };
    let cache = Cache::with_data(
        "t".to_string(),
        None,
        None,
        vec![],
        vec![project("p0", "Team", true), project("p1", "Team", false), project("p2", "Home", false)],
        vec![],
        vec![],
        vec![],
        vec![],
        vec![],
        vec![],
        Some(user),
    );
    let sharing = Sharing {
        collaborators: vec![
            Collaborator { id: "u1".to_string(), email: Some("me@x.org".to_string()), full_name: Some("Me".to_string()) },
            Collaborator { id: "u2".to_string(), email: None, full_name: None },
        ],
        states: vec![
            CollaboratorState { project_id: "p1".to_string(), user_id: "u1".to_string(), state: "active".to_string() },
            CollaboratorState { project_id: "p2".to_string(), user_id: "u2".to_string(), state: "active".to_string() },
            CollaboratorState { project_id: "p1".to_string(), user_id: "u2".to_string(), state: "invited".to_string() },
            CollaboratorState { project_id: "p1".to_string(), user_id: "u9".to_string(), state: "active".to_string() },
        ],
    };
    (cache, sharing)
}

#[test]
fn test_shared_project_by_name_ignoring_case_skips_deleted() {
    let (cache, _) = shared_cache();
    let p = find_shared_project(&cache, &CollaboratorsOptions { project: "team".to_string() }).unwrap();
    assert_eq!(p.id, "p1");
    let p = find_shared_project(&cache, &CollaboratorsOptions { project: "p2".to_string() }).unwrap();
    assert_eq!(p.name, "Home");
    let e = find_shared_project(&cache, &CollaboratorsOptions { project: "Work".to_string() }).unwrap_err();
    assert_eq!(e.to_string(), "configuration error: Project not found: Work");
}

#[test]
fn test_collaborators_table_marks_me_and_skips_unknown() {
    let (cache, sharing) = shared_cache();
    let states = project_states(&sharing, "p1");
    assert_eq!(states.len(), 3);
    let table = format_collaborators_table(&sharing, &cache.user, &states);
    let expected = format!(
        "{:<25} {:<30} Status\n{:<25} {:<30} {}\n{:<25} {:<30} {}\n",
        "Name", "Email", "Me", "me@x.org", "active (you)", "(unknown)", "", "invited"
    );
    assert_eq!(table, expected);
    let records = collaborator_records(&sharing, &states);
    assert_eq!(records.len(), 2);
    assert_eq!(records[1].id, "u2");
    assert_eq!(records[1].status, "invited");
    assert_eq!(records[1].name, None);
}

#[test]
fn test_no_collaborators_message_names_project() {
    assert_eq!(
        no_collaborators_message("Home"),
        "No collaborators found for project \"Home\" — it may be a personal project."
    );
}
