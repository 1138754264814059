use td::commands::bulk::{bulk_report, BulkReport, TaskResult};
use td::commands::delete::DeleteResult;
use td::commands::done::DoneResult;
use td::commands::reopen::ReopenResult;
use td::commands::{confirmation_answer, plan_bulk_confirmation, BulkConfirmation, ConfirmResult};

/// What the program answers to a confirmation decision when it need not ask.
fn answered(d: BulkConfirmation) -> ConfirmResult {
    match d {
        BulkConfirmation::Proceed | BulkConfirmation::ProceedWithWarning(_) => confirmation_answer(true),
        BulkConfirmation::Ask { .. } => panic!("a question was asked"),
    }
}

fn two_results() -> Vec<TaskResult> {
    vec![
        TaskResult { id: "abc123".to_string(), content: "Task 1".to_string(), success: true, error: None },
        TaskResult {
            id: "def456".to_string(),
            content: "Task 2".to_string(),
            success: false,
            error: Some("Not found".to_string()),
        },
    ]
}

fn check_report(report: &BulkReport) {
    assert_eq!(report.total_succeeded, 1);
    assert_eq!(report.total_failed, 1);
    assert_eq!(report.succeeded[0].content, "Task 1");
    assert_eq!(report.failed[0].content, "Task 2");
    assert_eq!(report.failed[0].error.as_deref(), Some("Not found"));
}

#[test]
fn test_confirm_bulk_single_item_no_confirmation() {
    let items = vec![("abc123", "Task 1")];
    let result = answered(plan_bulk_confirmation("delete", &items, false, false, true));
    assert_eq!(result, ConfirmResult::Confirmed);
}

#[test]
fn test_confirm_bulk_empty_items_no_confirmation() {
    let items: Vec<(&str, &str)> = vec![];
    let result = answered(plan_bulk_confirmation("delete", &items, false, false, true));
    assert_eq!(result, ConfirmResult::Confirmed);
}

#[test]
fn test_confirm_bulk_force_skips_confirmation() {
    let items = vec![("abc123", "Task 1"), ("def456", "Task 2")];
    let result = answered(plan_bulk_confirmation("delete", &items, true, false, true));
    assert_eq!(result, ConfirmResult::Confirmed);
}

#[test]
fn test_confirm_bulk_quiet_skips_confirmation() {
    let items = vec![("abc123", "Task 1"), ("def456", "Task 2")];
    let result = answered(plan_bulk_confirmation("delete", &items, false, true, true));
    assert_eq!(result, ConfirmResult::Confirmed);
}

#[test]
fn test_confirm_bulk_force_and_quiet_skips_confirmation() {
    let items = vec![("abc123", "Task 1"), ("def456", "Task 2"), ("ghi789", "Task 3")];
    let result = answered(plan_bulk_confirmation("complete", &items, true, true, true));
    assert_eq!(result, ConfirmResult::Confirmed);
}

#[test]
fn test_confirm_bulk_non_tty_proceeds() {
    let items = vec![("abc123", "Task 1"), ("def456", "Task 2")];
    let decision = plan_bulk_confirmation("reopen", &items, false, false, false);
    match &decision {
        BulkConfirmation::ProceedWithWarning(w) => assert_eq!(
            w,
            "Warning: About to reopen 2 tasks (non-interactive mode, proceeding automatically)"
        ),
        _ => panic!("expected a warning"),
    }
    assert_eq!(answered(decision), ConfirmResult::Confirmed);
}

#[test]
fn test_confirm_bulk_tty_asks_with_listing() {
    let items = vec![("abc123", "Task 1"), ("def456", "Task 2")];
    match plan_bulk_confirmation("delete", &items, false, false, true) {
        BulkConfirmation::Ask { listing, question } => {
            assert_eq!(listing, "About to delete 2 tasks:\n  abc123  Task 1\n  def456  Task 2\n\n");
            assert_eq!(question, "Continue with delete 2 tasks?");
        }
        _ => panic!("expected a question"),
    }
    assert_eq!(confirmation_answer(false), ConfirmResult::Aborted);
}

#[test]
fn test_format_done_results_json() {
    let results: Vec<DoneResult> = two_results();
    check_report(&bulk_report(&results));
}

#[test]
fn test_format_delete_results_json() {
    let results: Vec<DeleteResult> = two_results();
    check_report(&bulk_report(&results));
}

#[test]
fn test_format_reopen_results_json() {
    let results: Vec<ReopenResult> = two_results();
    check_report(&bulk_report(&results));
}
