use td::commands::sync::{SyncOptions, SyncSummary, format_sync_table, sync_output};


#[test]
fn test_sync_options_defaults() {
    let opts = SyncOptions { full: false };
    assert!(!opts.full);
}

#[test]
fn test_sync_options_full() {
    let opts = SyncOptions { full: true };
    assert!(opts.full);
}

#[test]
fn test_format_sync_json_incremental() {
    let summary = SyncSummary {
        full_sync: false,
        tasks: 10,
        projects: 3,
        labels: 5,
        sections: 2,
        comments: 1,
        reminders: 0,
        filters: 2,
    };

    let out = sync_output(&summary);

    assert_eq!(out.status, "success");
    assert_eq!(out.sync_type, "incremental");
    assert_eq!(out.summary.tasks, 10);
    assert_eq!(out.summary.projects, 3);
}

#[test]
fn test_format_sync_json_full() {
    let summary = SyncSummary {
        full_sync: true,
        tasks: 25,
        projects: 5,
        labels: 8,
        sections: 4,
        comments: 3,
        reminders: 2,
        filters: 1,
    };

    let out = sync_output(&summary);

    assert_eq!(out.status, "success");
    assert_eq!(out.sync_type, "full");
    assert_eq!(out.summary.tasks, 25);
    assert_eq!(out.summary.filters, 1);
}

#[test]
fn test_format_sync_table_incremental() {
    let summary = SyncSummary {
        full_sync: false,
        tasks: 10,
        projects: 3,
        labels: 5,
        sections: 2,
        comments: 1,
        reminders: 0,
        filters: 2,
    };

    let output = format_sync_table(&summary, false);
    assert!(output.contains("Incremental sync completed"));
    assert!(output.contains("Tasks:     10"));
    assert!(output.contains("Projects:  3"));
}

#[test]
fn test_format_sync_table_full() {
    let summary = SyncSummary {
        full_sync: true,
        tasks: 25,
        projects: 5,
        labels: 8,
        sections: 4,
        comments: 3,
        reminders: 2,
        filters: 1,
    };

    let output = format_sync_table(&summary, false);
    assert!(output.contains("Full sync completed"));
    assert!(output.contains("Tasks:     25"));
}
