use td::commands::comments::{
    Comment, CommentAddResult, CommentDeleteResult, CommentEditResult, CommentsAddOptions, CommentsDeleteOptions,
    CommentsEditOptions, CommentsListOptions, filter_comments, get_comment_content, resolve_comment, resolve_project_id,
    plan_comment_delete, resolve_task_id, note_command, NoteAction,
};
use td::output::comments::{comment_added_line, comment_updated_line};
use td::model::{Cache, Item, Note, Project, ProjectNote};



#[test]
fn test_comments_list_options_defaults() {
    let opts = CommentsListOptions::default();

    assert!(opts.task.is_none());
    assert!(opts.project.is_none());
}

#[test]
fn test_comments_add_options_with_task() {
    let opts = CommentsAddOptions {
        content: "My comment".to_string(),
        task: Some("task-123".to_string()),
        project: None,
    };

    assert_eq!(opts.content, "My comment");
    assert_eq!(opts.task, Some("task-123".to_string()));
    assert!(opts.project.is_none());
}

#[test]
fn test_comments_add_options_with_project() {
    let opts = CommentsAddOptions {
        content: "Project comment".to_string(),
        task: None,
        project: Some("project-456".to_string()),
    };

    assert_eq!(opts.content, "Project comment");
    assert!(opts.task.is_none());
    assert_eq!(opts.project, Some("project-456".to_string()));
}

#[test]
fn test_comment_add_result_task() {
    let result = CommentAddResult {
        id: "note-123".to_string(),
        content: "Test comment".to_string(),
        is_task_comment: true,
        parent_id: "task-1".to_string(),
        parent_name: Some("My Task".to_string()),
    };

    assert_eq!(result.id, "note-123");
    assert_eq!(result.content, "Test comment");
    assert!(result.is_task_comment);
    assert_eq!(result.parent_id, "task-1");
    assert_eq!(result.parent_name, Some("My Task".to_string()));
}

#[test]
fn test_comment_add_result_project() {
    let result = CommentAddResult {
        id: "pnote-456".to_string(),
        content: "Project comment".to_string(),
        is_task_comment: false,
        parent_id: "project-1".to_string(),
        parent_name: Some("My Project".to_string()),
    };

    assert_eq!(result.id, "pnote-456");
    assert_eq!(result.content, "Project comment");
    assert!(!result.is_task_comment);
    assert_eq!(result.parent_id, "project-1");
    assert_eq!(result.parent_name, Some("My Project".to_string()));
}

#[test]
fn test_comments_list_options_with_task() {
    let opts = CommentsListOptions {
        task: Some("task-123".to_string()),
        project: None,
    };

    assert_eq!(opts.task, Some("task-123".to_string()));
    assert!(opts.project.is_none());
}

#[test]
fn test_comments_list_options_with_project() {
    let opts = CommentsListOptions {
        task: None,
        project: Some("project-456".to_string()),
    };

    assert!(opts.task.is_none());
    assert_eq!(opts.project, Some("project-456".to_string()));
}

#[test]
fn test_comment_task_variant() {
    let note = Note {
        id: "note-1".to_string(),
        item_id: "task-1".to_string(),
        content: "Test comment".to_string(),
        posted_at: Some("2025-01-26T10:00:00Z".to_string()),
        is_deleted: false,
        posted_uid: None,
        file_attachment: None,
    };
    let comment = Comment::Task(note);

    assert_eq!(comment.id(), "note-1");
    assert_eq!(comment.content(), "Test comment");
    assert_eq!(comment.posted_at(), Some("2025-01-26T10:00:00Z"));
    assert_eq!(comment.parent_id(), "task-1");
    assert!(comment.is_task_comment());
}

#[test]
fn test_comment_project_variant() {
    let note = ProjectNote {
        id: "pnote-1".to_string(),
        project_id: "project-1".to_string(),
        content: "Project comment".to_string(),
        posted_at: Some("2025-01-26T11:00:00Z".to_string()),
        is_deleted: false,
        posted_uid: None,
        file_attachment: None,
    };
    let comment = Comment::Project(note);

    assert_eq!(comment.id(), "pnote-1");
    assert_eq!(comment.content(), "Project comment");
    assert_eq!(comment.posted_at(), Some("2025-01-26T11:00:00Z"));
    assert_eq!(comment.parent_id(), "project-1");
    assert!(!comment.is_task_comment());
}

#[test]
fn test_filter_comments_by_task() {
    let cache = make_test_cache();
    let comments = filter_comments(&cache, Some("task-1"), None);

    assert_eq!(comments.len(), 2);
    // Should be sorted newest first
    assert_eq!(comments[0].content(), "Second comment");
    assert_eq!(comments[1].content(), "First comment");
}

#[test]
fn test_filter_comments_by_project() {
    let cache = make_test_cache();
    let comments = filter_comments(&cache, None, Some("project-1"));

    assert_eq!(comments.len(), 1);
    assert_eq!(comments[0].content(), "Project comment");
}

#[test]
fn test_filter_comments_excludes_deleted() {
    let mut cache = make_test_cache();
    cache.notes[0].is_deleted = true;

    let comments = filter_comments(&cache, Some("task-1"), None);

    assert_eq!(comments.len(), 1);
    assert_eq!(comments[0].content(), "Second comment");
}

#[test]
fn comments_test_resolve_task_id_exact_match() {
    let cache = make_test_cache();
    let result = resolve_task_id(&cache, "task-1");
    assert!(result.is_ok());
    assert_eq!(result.unwrap(), "task-1");
}

#[test]
fn comments_test_resolve_task_id_not_found() {
    let cache = make_test_cache();
    let result = resolve_task_id(&cache, "nonexistent");
    assert!(result.is_err());
    assert!(result.unwrap_err().to_string().contains("Task not found"));
}

#[test]
fn test_resolve_project_id_exact_match() {
    let cache = make_test_cache();
    let result = resolve_project_id(&cache, "project-1");
    assert!(result.is_ok());
    assert_eq!(result.unwrap(), "project-1");
}

#[test]
fn test_resolve_project_id_by_name() {
    let cache = make_test_cache();
    let result = resolve_project_id(&cache, "Test Project");
    assert!(result.is_ok());
    assert_eq!(result.unwrap(), "project-1");
}

#[test]
fn test_resolve_project_id_not_found() {
    let cache = make_test_cache();
    let result = resolve_project_id(&cache, "nonexistent");
    assert!(result.is_err());
    assert!(result
        .unwrap_err()
        .to_string()
        .contains("Project not found"));
}

// Helper function to create a test cache
fn make_test_cache() -> Cache {
    Cache {
        sync_token: "test".to_string(),
        full_sync_date_utc: None,
        last_sync: None,
        items: vec![make_test_item("task-1", "Test Task", "project-1")],
        projects: vec![make_test_project("project-1", "Test Project")],
        labels: vec![],
        sections: vec![],
        notes: vec![
            Note {
                id: "note-1".to_string(),
                item_id: "task-1".to_string(),
                content: "First comment".to_string(),
                posted_at: Some("2025-01-26T10:00:00Z".to_string()),
                is_deleted: false,
                posted_uid: None,
                file_attachment: None,
            },
            Note {
                id: "note-2".to_string(),
                item_id: "task-1".to_string(),
                content: "Second comment".to_string(),
                posted_at: Some("2025-01-26T11:00:00Z".to_string()),
                is_deleted: false,
                posted_uid: None,
                file_attachment: None,
            },
        ],
        project_notes: vec![ProjectNote {
            id: "pnote-1".to_string(),
            project_id: "project-1".to_string(),
            content: "Project comment".to_string(),
            posted_at: Some("2025-01-26T12:00:00Z".to_string()),
            is_deleted: false,
            posted_uid: None,
            file_attachment: None,
        }],
        reminders: vec![],
        filters: vec![],
        user: None,
    }
}

fn make_test_item(id: &str, content: &str, project_id: &str) -> Item {
    Item {
        id: id.to_string(),
        user_id: None,
        project_id: project_id.to_string(),
        content: content.to_string(),
        description: String::new(),
        priority: 1,
        due: None,
        deadline: None,
        parent_id: None,
        child_order: 0,
        section_id: None,
        day_order: 0,
        is_collapsed: false,
        labels: vec![],
        added_by_uid: None,
        assigned_by_uid: None,
        responsible_uid: None,
        checked: false,
        is_deleted: false,
        added_at: None,
        updated_at: None,
        completed_at: None,
        duration: None,
    }
}

fn make_test_project(id: &str, name: &str) -> Project {
    Project {
        id: id.to_string(),
        name: name.to_string(),
        color: None,
        parent_id: None,
        child_order: 0,
        is_collapsed: false,
        shared: false,
        can_assign_tasks: false,
        is_deleted: false,
        is_archived: false,
        is_favorite: false,
        view_style: None,
        inbox_project: false,
        folder_id: None,
        created_at: None,
        updated_at: None,
    }
}

// ========================================================================
// Comments Edit Tests
// ========================================================================

#[test]
fn test_comments_edit_options() {
    let opts = CommentsEditOptions {
        comment_id: "note-123".to_string(),
        content: "Updated content".to_string(),
    };

    assert_eq!(opts.comment_id, "note-123");
    assert_eq!(opts.content, "Updated content");
}

#[test]
fn test_comment_edit_result_task() {
    let result = CommentEditResult {
        id: "note-123".to_string(),
        content: "Updated comment".to_string(),
        is_task_comment: true,
        parent_id: "task-1".to_string(),
        parent_name: Some("My Task".to_string()),
    };

    assert_eq!(result.id, "note-123");
    assert_eq!(result.content, "Updated comment");
    assert!(result.is_task_comment);
    assert_eq!(result.parent_id, "task-1");
    assert_eq!(result.parent_name, Some("My Task".to_string()));
}

#[test]
fn test_comment_edit_result_project() {
    let result = CommentEditResult {
        id: "pnote-456".to_string(),
        content: "Updated project comment".to_string(),
        is_task_comment: false,
        parent_id: "project-1".to_string(),
        parent_name: Some("My Project".to_string()),
    };

    assert_eq!(result.id, "pnote-456");
    assert_eq!(result.content, "Updated project comment");
    assert!(!result.is_task_comment);
    assert_eq!(result.parent_id, "project-1");
    assert_eq!(result.parent_name, Some("My Project".to_string()));
}

#[test]
fn test_resolve_comment_exact_task_note() {
    let cache = make_test_cache();
    let result = resolve_comment(&cache, "note-1");
    assert!(result.is_ok());
    let (id, is_task, parent_id, parent_name) = result.unwrap();
    assert_eq!(id, "note-1");
    assert!(is_task);
    assert_eq!(parent_id, "task-1");
    assert_eq!(parent_name, Some("Test Task".to_string()));
}

#[test]
fn test_resolve_comment_exact_project_note() {
    let cache = make_test_cache();
    let result = resolve_comment(&cache, "pnote-1");
    assert!(result.is_ok());
    let (id, is_task, parent_id, parent_name) = result.unwrap();
    assert_eq!(id, "pnote-1");
    assert!(!is_task);
    assert_eq!(parent_id, "project-1");
    assert_eq!(parent_name, Some("Test Project".to_string()));
}

#[test]
fn test_resolve_comment_not_found() {
    let cache = make_test_cache();
    let result = resolve_comment(&cache, "nonexistent");
    assert!(result.is_err());
    assert!(result
        .unwrap_err()
        .to_string()
        .contains("Comment not found"));
}

#[test]
fn test_resolve_comment_excludes_deleted() {
    let mut cache = make_test_cache();
    cache.notes[0].is_deleted = true;

    let result = resolve_comment(&cache, "note-1");
    assert!(result.is_err());
    assert!(result
        .unwrap_err()
        .to_string()
        .contains("Comment not found"));
}

#[test]
fn test_resolve_comment_prefix_match() {
    let mut cache = make_test_cache();
    // Add a note with a longer ID for prefix matching
    cache.notes.push(Note {
        id: "note-abc123def456".to_string(),
        item_id: "task-1".to_string(),
        content: "Prefixed comment".to_string(),
        posted_at: Some("2025-01-26T13:00:00Z".to_string()),
        is_deleted: false,
        posted_uid: None,
        file_attachment: None,
    });

    // Should match with 6+ char prefix
    let result = resolve_comment(&cache, "note-a");
    assert!(result.is_ok());
    let (id, is_task, _, _) = result.unwrap();
    assert_eq!(id, "note-abc123def456");
    assert!(is_task);
}

// ========================================================================
// Comments Delete Tests
// ========================================================================

#[test]
fn test_comments_delete_options() {
    let opts = CommentsDeleteOptions {
        comment_id: "note-123".to_string(),
        force: false,
    };

    assert_eq!(opts.comment_id, "note-123");
    assert!(!opts.force);
}

#[test]
fn test_comments_delete_options_with_force() {
    let opts = CommentsDeleteOptions {
        comment_id: "note-456".to_string(),
        force: true,
    };

    assert_eq!(opts.comment_id, "note-456");
    assert!(opts.force);
}

#[test]
fn test_comment_delete_result_task() {
    let result = CommentDeleteResult {
        id: "note-123".to_string(),
        content: "Deleted comment".to_string(),
        is_task_comment: true,
        parent_id: "task-1".to_string(),
        parent_name: Some("My Task".to_string()),
    };

    assert_eq!(result.id, "note-123");
    assert_eq!(result.content, "Deleted comment");
    assert!(result.is_task_comment);
    assert_eq!(result.parent_id, "task-1");
    assert_eq!(result.parent_name, Some("My Task".to_string()));
}

#[test]
fn test_comment_delete_result_project() {
    let result = CommentDeleteResult {
        id: "pnote-456".to_string(),
        content: "Deleted project comment".to_string(),
        is_task_comment: false,
        parent_id: "project-1".to_string(),
        parent_name: Some("My Project".to_string()),
    };

    assert_eq!(result.id, "pnote-456");
    assert_eq!(result.content, "Deleted project comment");
    assert!(!result.is_task_comment);
    assert_eq!(result.parent_id, "project-1");
    assert_eq!(result.parent_name, Some("My Project".to_string()));
}

#[test]
fn test_get_comment_content_task_note() {
    let cache = make_test_cache();
    let content = get_comment_content(&cache, "note-1");
    assert_eq!(content, "First comment");
}

#[test]
fn test_get_comment_content_project_note() {
    let cache = make_test_cache();
    let content = get_comment_content(&cache, "pnote-1");
    assert_eq!(content, "Project comment");
}

#[test]
fn test_get_comment_content_not_found() {
    let cache = make_test_cache();
    let content = get_comment_content(&cache, "nonexistent");
    assert_eq!(content, "");
}

#[test]
fn deleting_a_long_comment_reports_a_preview() {
    let mut cache = make_test_cache();
    cache.notes[0].content = "a".repeat(50);
    let found = resolve_comment(&cache, "note-1").unwrap();
    let opts = CommentsDeleteOptions { comment_id: "note-1".to_string(), force: true };
    let result = plan_comment_delete(&cache, &found, &opts, false).unwrap();
    assert_eq!(result.content, format!("{}...", "a".repeat(37)));
    let found = resolve_comment(&cache, "note-2").unwrap();
    let result = plan_comment_delete(&cache, &found, &opts, false).unwrap();
    assert_eq!(result.content, "Second comment");
    let opts = CommentsDeleteOptions { comment_id: "note-2".to_string(), force: false };
    assert!(plan_comment_delete(&cache, &found, &opts, false).is_err());
}

#[test]
fn comment_commands_are_named_alike_for_tasks_and_projects() {
    assert_eq!(note_command(NoteAction::Add), "note_add");
    assert_eq!(note_command(NoteAction::Update), "note_update");
    assert_eq!(note_command(NoteAction::Delete), "note_delete");
}

#[test]
fn comment_lines_show_a_preview() {
    let added = CommentAddResult {
        id: "note-123456".to_string(),
        content: "x".repeat(45),
        is_task_comment: true,
        parent_id: "task-1".to_string(),
        parent_name: Some("My Task".to_string()),
    };
    assert_eq!(comment_added_line(&added), format!("Added comment (note-1) to My Task: {}...", "x".repeat(37)));
    let edited = CommentEditResult {
        id: "note-123456".to_string(),
        content: "short".to_string(),
        is_task_comment: false,
        parent_id: "proj-1".to_string(),
        parent_name: None,
    };
    assert_eq!(comment_updated_line(&edited), "Updated comment (note-1) on proj-1: short");
}
