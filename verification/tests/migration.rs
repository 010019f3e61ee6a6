use pumas_core::error::PumasError;
use pumas_core::migration::{
    mark_partial_download_moves_unsupported, normalize_absolute_local_path,
    normalize_migration_report_path, path_display, recompute_execution_report_counts,
    MigrationExecutionItem, MigrationExecutionReport,
};

fn item(model_id: &str, target: &str, action: &str, error: Option<&str>) -> MigrationExecutionItem {
    MigrationExecutionItem {
        model_id: model_id.to_string(),
        target_model_id: target.to_string(),
        action: action.to_string(),
        error: error.map(str::to_string),
    }
}

fn report(results: Vec<MigrationExecutionItem>) -> MigrationExecutionReport {
    MigrationExecutionReport {
        results,
        completed_move_count: 0,
        skipped_move_count: 0,
        error_count: 0,
        referential_integrity_ok: true,
        referential_integrity_errors: Vec::new(),
    }
}

fn cwd() -> Result<String, String> {
    Ok("/work".to_string())
}

#[test]
fn unsupported_partial_move_preserves_files_and_completed_results() {
    let mut report = report(vec![
        item("llm/old/model", "llm/new/model", "skipped_partial_download", None),
        item("llm/old/complete", "llm/new/complete", "moved", None),
    ]);
    assert!(mark_partial_download_moves_unsupported(&mut report));
    recompute_execution_report_counts(&mut report);
    assert_eq!(report.results[0].action, "skipped_partial_download");
    assert!(report.results[0].error.as_deref().unwrap().contains("unsupported"));
    assert_eq!(report.results[1].action, "moved");
    assert!(report.results[1].error.is_none());
    assert_eq!(report.completed_move_count, 1);
    assert_eq!(report.skipped_move_count, 1);
    assert_eq!(report.error_count, 0);
    assert!(!mark_partial_download_moves_unsupported(&mut report));
}

#[test]
fn normalize_migration_report_path_accepts_relative_report_path() {
    let normalized =
        normalize_migration_report_path("/tmp/lib", "dry-run/report-20260425.md", &cwd())
            .expect("relative report path should normalize");
    assert_eq!(normalized, "/tmp/lib/migration-reports/dry-run/report-20260425.md");
}

#[test]
fn normalize_migration_report_path_rejects_path_outside_reports_root() {
    let error = normalize_migration_report_path("/tmp/lib", "/tmp/lib/outside.md", &cwd())
        .expect_err("path outside migration reports root should be rejected");
    assert!(matches!(
        error,
        PumasError::InvalidParams { message }
            if message.contains("within migration reports directory")
    ));
}

#[test]
fn report_path_with_parent_steps_cannot_escape_the_reports_root() {
    assert!(normalize_migration_report_path("/tmp/lib", "../outside.md", &cwd()).is_err());
    assert_eq!(
        normalize_migration_report_path("/tmp/lib", "a/../b/./r.md", &cwd()).unwrap(),
        "/tmp/lib/migration-reports/b/r.md"
    );
    assert!(matches!(
        normalize_migration_report_path("/tmp/lib", "   ", &cwd()),
        Err(PumasError::InvalidParams { message }) if message == "report_path is required"
    ));
}

#[test]
fn relative_library_root_resolves_against_the_current_directory() {
    assert_eq!(
        normalize_migration_report_path("lib", "r.md", &cwd()).unwrap(),
        "/work/lib/migration-reports/r.md"
    );
    let failed: Result<String, String> = Err("gone".to_string());
    assert!(matches!(
        normalize_migration_report_path("lib", "r.md", &failed),
        Err(PumasError::Other(message))
            if message == "Failed to resolve current directory for report_path: gone"
    ));
}

#[test]
fn absolute_local_paths_are_normalized_lexically() {
    let p = normalize_absolute_local_path(" /a/./b/../c/ ", "root", &cwd()).unwrap();
    assert!(p.absolute);
    assert_eq!(p.parts, vec!["a".to_string(), "c".to_string()]);
    assert_eq!(path_display(&p), "/a/c");
    assert!(matches!(
        normalize_absolute_local_path("", "root", &cwd()),
        Err(PumasError::InvalidParams { message }) if message == "root is required"
    ));
}

#[test]
fn report_counts_follow_row_actions_and_integrity_errors() {
    let mut report = report(vec![
        item("a", "a2", "moved", None),
        item("b", "b2", "already_migrated", None),
        item("c", "c2", "moved_partial", Some("x")),
        item("d", "d2", "blocked_collision", None),
        item("e", "e2", "missing_source", None),
        item("f", "f2", "failed", None),
    ]);
    report.referential_integrity_ok = false;
    report.referential_integrity_errors = vec!["r1".to_string(), "r2".to_string()];
    recompute_execution_report_counts(&mut report);
    assert_eq!(report.completed_move_count, 3);
    assert_eq!(report.skipped_move_count, 2);
    assert_eq!(report.error_count, 1 + 1 + 2);
}
