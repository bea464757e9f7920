use ocr_job_runtime::job_state::{
    job_state_on_exit, job_state_on_start, job_state_on_start_failure, queued_job_state,
    ExitReport, JobState, JobStateStatus,
};

fn queued() -> JobState {
    queued_job_state("1700_scan".to_string(), "/jobs/1700_scan".to_string(), "/inbox/scan".to_string(), 1700)
}

fn report(success: bool, description: &str) -> ExitReport {
    ExitReport { success, description: description.to_string() }
}

#[test]
fn an_accepted_bundle_gives_a_queued_record() {
    let state = queued();
    assert_eq!(state.status, JobStateStatus::Queued);
    assert_eq!(state.job_id, "1700_scan");
    assert_eq!(state.job_root_directory_path, "/jobs/1700_scan");
    assert_eq!(state.source_bundle_directory_path, Some("/inbox/scan".to_string()));
    assert_eq!(state.accepted_unix_timestamp_millis, 1700);
    assert_eq!(state.started_unix_timestamp_millis, None);
    assert_eq!(state.finished_unix_timestamp_millis, None);
    assert_eq!(state.output_markdown_path, None);
    assert_eq!(state.error_message, None);
}

#[test]
fn a_start_makes_the_record_running() {
    let state = job_state_on_start(Some(queued()), "/jobs/1700_scan", 2000, 1900);
    assert_eq!(state.status, JobStateStatus::Running);
    assert_eq!(state.started_unix_timestamp_millis, Some(1900));
    assert_eq!(state.job_id, "1700_scan");
    assert_eq!(state.accepted_unix_timestamp_millis, 1700);
    assert_eq!(state.source_bundle_directory_path, Some("/inbox/scan".to_string()));
    assert_eq!(state.finished_unix_timestamp_millis, None);
}

#[test]
fn a_start_without_a_readable_record_uses_a_stand_in() {
    let state = job_state_on_start(None, "/jobs/x", 2000, 1900);
    assert_eq!(state.status, JobStateStatus::Running);
    assert_eq!(state.job_id, "unknown");
    assert_eq!(state.job_root_directory_path, "/jobs/x");
    assert_eq!(state.source_bundle_directory_path, None);
    assert_eq!(state.accepted_unix_timestamp_millis, 2000);
    assert_eq!(state.started_unix_timestamp_millis, Some(1900));
    assert_eq!(state.output_markdown_path, None);
    assert_eq!(state.error_message, None);
}

#[test]
fn a_successful_exit_completes_the_record() {
    let running = job_state_on_start(Some(queued()), "/jobs/1700_scan", 2000, 1900);
    let state = job_state_on_exit(
        Some(running),
        "/jobs/1700_scan",
        5000,
        &report(true, "exit status: 0"),
        Some("/jobs/1700_scan/out.md".to_string()),
    );
    assert_eq!(state.status, JobStateStatus::Completed);
    assert_eq!(state.finished_unix_timestamp_millis, Some(5000));
    assert_eq!(state.started_unix_timestamp_millis, Some(1900));
    assert_eq!(state.error_message, None);
    assert_eq!(state.output_markdown_path, Some("/jobs/1700_scan/out.md".to_string()));
    assert_eq!(state.job_id, "1700_scan");
}

#[test]
fn a_successful_exit_keeps_an_output_path_that_is_recorded() {
    let mut running = job_state_on_start(Some(queued()), "/jobs/1700_scan", 2000, 1900);
    running.output_markdown_path = Some("/jobs/1700_scan/kept.md".to_string());
    running.error_message = Some("stale".to_string());
    let state = job_state_on_exit(
        Some(running),
        "/jobs/1700_scan",
        5000,
        &report(true, "exit status: 0"),
        Some("/jobs/1700_scan/detected.md".to_string()),
    );
    assert_eq!(state.output_markdown_path, Some("/jobs/1700_scan/kept.md".to_string()));
    assert_eq!(state.error_message, None);
}

#[test]
fn a_successful_exit_without_any_output_path_records_none() {
    let state = job_state_on_exit(Some(queued()), "/jobs/1700_scan", 5000, &report(true, "exit status: 0"), None);
    assert_eq!(state.status, JobStateStatus::Completed);
    assert_eq!(state.output_markdown_path, None);
}

#[test]
fn a_failed_exit_fails_the_record_with_the_exit_status() {
    let running = job_state_on_start(Some(queued()), "/jobs/1700_scan", 2000, 1900);
    let state = job_state_on_exit(
        Some(running),
        "/jobs/1700_scan",
        5000,
        &report(false, "exit status: 137"),
        Some("/jobs/1700_scan/out.md".to_string()),
    );
    assert_eq!(state.status, JobStateStatus::Failed);
    assert_eq!(state.finished_unix_timestamp_millis, Some(5000));
    assert_eq!(state.error_message, Some("OCR process failed: exit status: 137".to_string()));
    assert_eq!(state.output_markdown_path, None);
}

#[test]
fn an_exit_without_a_readable_record_uses_a_stand_in() {
    let state = job_state_on_exit(None, "/jobs/x", 5000, &report(false, "signal: 9"), None);
    assert_eq!(state.status, JobStateStatus::Failed);
    assert_eq!(state.job_id, "unknown");
    assert_eq!(state.job_root_directory_path, "/jobs/x");
    assert_eq!(state.accepted_unix_timestamp_millis, 5000);
    assert_eq!(state.started_unix_timestamp_millis, None);
    assert_eq!(state.finished_unix_timestamp_millis, Some(5000));
    assert_eq!(state.error_message, Some("OCR process failed: signal: 9".to_string()));
}

#[test]
fn a_start_that_failed_fails_the_record_with_the_reason() {
    let state = job_state_on_start_failure(Some(queued()), "/jobs/1700_scan", 2000, "Failed to start docker compose job.");
    assert_eq!(state.status, JobStateStatus::Failed);
    assert_eq!(state.error_message, Some("Failed to start docker compose job.".to_string()));
    assert_eq!(state.job_id, "1700_scan");
    assert_eq!(state.job_root_directory_path, "/jobs/1700_scan");
    assert_eq!(state.source_bundle_directory_path, Some("/inbox/scan".to_string()));
    assert_eq!(state.accepted_unix_timestamp_millis, 1700);
    assert_eq!(state.started_unix_timestamp_millis, None);
    assert_eq!(state.finished_unix_timestamp_millis, None);
    assert_eq!(state.output_markdown_path, None);
}

#[test]
fn a_start_that_failed_without_a_readable_record_uses_a_stand_in() {
    let state = job_state_on_start_failure(None, "/jobs/x", 2000, "disk full");
    assert_eq!(state.status, JobStateStatus::Failed);
    assert_eq!(state.error_message, Some("disk full".to_string()));
    assert_eq!(state.job_id, "unknown");
    assert_eq!(state.job_root_directory_path, "/jobs/x");
    assert_eq!(state.source_bundle_directory_path, None);
    assert_eq!(state.accepted_unix_timestamp_millis, 2000);
    assert_eq!(state.started_unix_timestamp_millis, None);
    assert_eq!(state.finished_unix_timestamp_millis, None);
}
