use td::output::helpers::{attached_line, entity_line, format_labels, format_priority, truncate_id, truncate_str};


#[test]
fn test_truncate_id() {
    assert_eq!(truncate_id("abcdef"), "abcdef");
    assert_eq!(truncate_id("abcdefgh"), "abcdef");
    assert_eq!(truncate_id("abc"), "abc");
}

#[test]
fn helpers_test_truncate_str() {
    assert_eq!(truncate_str("short", 10), "short");
    assert_eq!(truncate_str("this is long", 10), "this is...");
}

#[test]
fn helpers_test_format_priority_no_colors() {
    assert_eq!(format_priority(4, false), "p1");
    assert_eq!(format_priority(3, false), "p2");
    assert_eq!(format_priority(2, false), "p3");
    assert_eq!(format_priority(1, false), "p4");
}

#[test]
fn test_format_labels() {
    assert_eq!(format_labels(&[], 15), "");
    assert_eq!(format_labels(&["urgent".to_string()], 15), "@urgent");
    assert_eq!(
        format_labels(&["a".to_string(), "b".to_string()], 15),
        "@a @b"
    );
}

#[test]
fn write_command_lines() {
    assert_eq!(entity_line("Created", "@", "home", "label-123456", true), "Created: @home (label-)");
    assert_eq!(entity_line("Created task", "", "Call", "task-123456", false), "Created task: Call (task-123456)");
    assert_eq!(
        attached_line("Added comment", "note-123456", "to ", "Call", None),
        "Added comment (note-1) to Call"
    );
    assert_eq!(
        attached_line("Updated comment", "note-123456", "on ", "Call", Some("new text")),
        "Updated comment (note-1) on Call: new text"
    );
}
