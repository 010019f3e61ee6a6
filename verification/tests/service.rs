use pumas_core::error::PumasError;
use pumas_core::service::{
    download_repo_id, explicit_cursor, refetch_repo_id, require_hf_client, ModelDownloadUpdateStreamQuery, ModelLibraryUpdateStreamQuery,
    RuntimeProfileUpdateStreamQuery, ServingStatusUpdateStreamQuery, StatusTelemetryUpdateStreamQuery,
    TaskStartState,
};

#[test]
fn missing_hf_client_is_a_configuration_error() {
    let client = 7u32;
    assert_eq!(*require_hf_client(Some(&client)).unwrap(), 7);
    assert!(matches!(
        require_hf_client::<u32>(None),
        Err(PumasError::Config { message }) if message == "HuggingFace client not initialized"
    ));
}

#[test]
fn task_start_state_round_trips_through_its_stored_value() {
    for state in [TaskStartState::Gated, TaskStartState::Running, TaskStartState::Abandoned] {
        assert_eq!(TaskStartState::load(state.raw()), state);
    }
    assert_eq!(TaskStartState::load(9), TaskStartState::Abandoned);
}

#[test]
fn blank_cursor_means_resume_from_latest() {
    assert_eq!(explicit_cursor(&Some("c-9".to_string())), Some("c-9".to_string()));
    assert_eq!(explicit_cursor(&Some("  ".to_string())), None);
    assert_eq!(explicit_cursor(&None), None);
}

#[test]
fn stream_queries_default_to_no_cursor() {
    assert!(ModelLibraryUpdateStreamQuery::default().cursor.is_none());
    assert!(ModelDownloadUpdateStreamQuery::default().cursor.is_none());
    assert!(RuntimeProfileUpdateStreamQuery::default().cursor.is_none());
    assert!(ServingStatusUpdateStreamQuery::default().cursor.is_none());
    assert!(StatusTelemetryUpdateStreamQuery::default().cursor.is_none());
}

#[test]
fn download_ids_name_a_remote_repository() {
    assert_eq!(download_repo_id("download:org/model"), Some("org/model".to_string()));
    assert_eq!(download_repo_id("download:"), Some(String::new()));
    assert_eq!(download_repo_id("download"), None);
    assert_eq!(download_repo_id("llm/org/model"), None);
    assert_eq!(download_repo_id("xdownload:org/model"), None);
}

#[test]
fn refetch_prefers_the_recorded_repository() {
    assert_eq!(refetch_repo_id("llm/org/model", Some("other/repo".to_string())), Some("other/repo".to_string()));
    assert_eq!(refetch_repo_id("llm/org/model", None), Some("org/model".to_string()));
    assert_eq!(refetch_repo_id("llm/org/sub/model", None), Some("org/sub/model".to_string()));
    assert_eq!(refetch_repo_id("a//b", None), Some("/b".to_string()));
    assert_eq!(refetch_repo_id("llm/model", None), None);
    assert_eq!(refetch_repo_id("model", None), None);
}
