use ocr_job_runtime::job_state::ExitReport;
use ocr_job_runtime::log_buffer::MAX_LOG_LINES;
use ocr_job_runtime::registry::{RunningJobHandle, StartError};
use ocr_job_runtime::runtime::{
    append_log_line, append_stream_line, cancel_job, fail_wait, finish_job, get_job_logs,
    is_any_job_running, kill_outcome, record_cancellation, start_error_message, start_job,
    JobRuntimeState, KillOutcome,
};

fn running_job(child: u32, start: i64) -> Result<RunningJobHandle<u32>, String> {
    Ok(RunningJobHandle { child, start_unix_timestamp_millis: start })
}

fn exited(success: bool, description: &str) -> ExitReport {
    ExitReport { success, description: description.to_string() }
}

#[test]
fn a_new_state_runs_nothing_and_has_no_logs() {
    let state: JobRuntimeState<u32> = JobRuntimeState::new();
    assert!(!is_any_job_running(Some(&state)));
    assert!(get_job_logs(&state, "/jobs/a").lines.is_empty());
    assert!(!state.is_watch_job("/jobs/a"));
    assert!(!state.registry().is_running("/jobs/a"));
}

#[test]
fn an_unreadable_state_counts_as_running() {
    assert!(is_any_job_running::<u32>(None));
}

#[test]
fn cancel_without_a_running_job_is_a_no_op() {
    let mut state: JobRuntimeState<u32> = JobRuntimeState::new();
    append_log_line(&mut state, "/jobs/a", "earlier".to_string());
    assert!(cancel_job(&state, "/jobs/a").is_none());
    assert!(cancel_job(&state, "/jobs/never").is_none());
    assert_eq!(get_job_logs(&state, "/jobs/a").lines, vec!["earlier".to_string()]);
    assert!(!is_any_job_running(Some(&state)));
}

#[test]
fn cancel_names_the_process_of_the_running_job() {
    let mut state: JobRuntimeState<u32> = JobRuntimeState::new();
    assert!(matches!(start_job(&mut state, "/jobs/a", || running_job(41, 100)), Ok(false)));
    assert_eq!(cancel_job(&state, "/jobs/a"), Some(&41));
    assert_eq!(cancel_job(&state, "/jobs/b"), None);
}

#[test]
fn a_kill_that_went_through_is_logged() {
    let mut state: JobRuntimeState<u32> = JobRuntimeState::new();
    assert!(start_job(&mut state, "/jobs/a", || running_job(41, 100)).is_ok());
    assert_eq!(record_cancellation(&mut state, "/jobs/a", KillOutcome::Killed), Ok(()));
    assert_eq!(get_job_logs(&state, "/jobs/a").lines, vec!["[backend] cancellation requested".to_string()]);
    assert!(state.registry().is_running("/jobs/a"));
}

#[test]
fn cancelling_a_job_whose_process_has_exited_is_no_error() {
    let mut state: JobRuntimeState<u32> = JobRuntimeState::new();
    assert!(start_job(&mut state, "/jobs/a", || running_job(41, 100)).is_ok());
    assert!(cancel_job(&state, "/jobs/a").is_some());
    assert_eq!(record_cancellation(&mut state, "/jobs/a", KillOutcome::AlreadyExited), Ok(()));
    assert_eq!(record_cancellation(&mut state, "/jobs/a", KillOutcome::AlreadyExited), Ok(()));
    assert!(get_job_logs(&state, "/jobs/a").lines.is_empty());
    assert!(state.registry().is_running("/jobs/a"));
    let _ = finish_job(&mut state, "/jobs/a", &exited(true, "exit status: 0"));
    assert!(!state.registry().is_running("/jobs/a"));
    assert_eq!(get_job_logs(&state, "/jobs/a").lines, vec!["[backend] finished: exit status: 0".to_string()]);
}

#[test]
fn a_kill_that_failed_on_a_running_process_is_reported_and_not_logged() {
    let mut state: JobRuntimeState<u32> = JobRuntimeState::new();
    assert!(start_job(&mut state, "/jobs/a", || running_job(41, 100)).is_ok());
    let kill = KillOutcome::Failed("operation not permitted".to_string());
    let result = record_cancellation(&mut state, "/jobs/a", kill);
    assert_eq!(result, Err("operation not permitted".to_string()));
    assert!(get_job_logs(&state, "/jobs/a").lines.is_empty());
    assert!(state.registry().is_running("/jobs/a"));
}

#[test]
fn a_kill_is_judged_by_what_it_returned_and_by_whether_the_process_has_exited() {
    assert!(matches!(kill_outcome(Ok(()), false), KillOutcome::Killed));
    assert!(matches!(kill_outcome(Ok(()), true), KillOutcome::Killed));
    assert!(matches!(kill_outcome(Err("no such process".to_string()), true), KillOutcome::AlreadyExited));
    match kill_outcome(Err("operation not permitted".to_string()), false) {
        KillOutcome::Failed(reason) => assert_eq!(reason, "operation not permitted"),
        _ => panic!("a kill that failed on a running process is a failure"),
    }
}

#[test]
fn a_watch_job_that_could_not_be_started_is_no_longer_kept_track_of() {
    let mut state: JobRuntimeState<u32> = JobRuntimeState::new();
    state.track_watch_job("/jobs/w".to_string(), "/jobs/w/job_state.json".to_string());
    state.track_watch_job("/jobs/v".to_string(), "/jobs/v/job_state.json".to_string());
    let outcome = start_job(&mut state, "/jobs/w", || Err::<RunningJobHandle<u32>, String>("no docker".to_string()));
    assert!(matches!(outcome, Err(StartError::SpawnFailed(_))));
    assert!(state.is_watch_job("/jobs/w"));
    assert_eq!(state.untrack_watch_job("/jobs/w"), Some("/jobs/w/job_state.json".to_string()));
    assert!(!state.is_watch_job("/jobs/w"));
    assert!(state.is_watch_job("/jobs/v"));
    assert!(!state.registry().is_running("/jobs/w"));
    assert_eq!(state.untrack_watch_job("/jobs/w"), None);
    assert_eq!(state.untrack_watch_job("/jobs/never"), None);
}

#[test]
fn double_cancel_after_exit_is_a_no_op() {
    let mut state: JobRuntimeState<u32> = JobRuntimeState::new();
    assert!(start_job(&mut state, "/jobs/a", || running_job(41, 100)).is_ok());
    assert!(cancel_job(&state, "/jobs/a").is_some());
    let _ = finish_job(&mut state, "/jobs/a", &exited(false, "signal: 9"));
    assert!(cancel_job(&state, "/jobs/a").is_none());
    assert!(cancel_job(&state, "/jobs/a").is_none());
}

#[test]
fn a_start_seeds_an_empty_log_and_keeps_an_earlier_one() {
    let mut state: JobRuntimeState<u32> = JobRuntimeState::new();
    assert!(matches!(start_job(&mut state, "/jobs/a", || running_job(1, 100)), Ok(false)));
    assert!(get_job_logs(&state, "/jobs/a").lines.is_empty());
    append_stream_line(&mut state, "/jobs/a", "stdout", "page 1 done");
    let _ = finish_job(&mut state, "/jobs/a", &exited(true, "exit status: 0"));
    assert!(matches!(start_job(&mut state, "/jobs/a", || running_job(2, 200)), Ok(false)));
    assert_eq!(
        get_job_logs(&state, "/jobs/a").lines,
        vec!["[stdout] page 1 done".to_string(), "[backend] finished: exit status: 0".to_string()]
    );
}

#[test]
fn a_second_start_for_a_running_root_is_refused_without_spawning() {
    let mut state: JobRuntimeState<u32> = JobRuntimeState::new();
    assert!(start_job(&mut state, "/jobs/a", || running_job(1, 100)).is_ok());
    let mut spawned = false;
    let second = start_job(&mut state, "/jobs/a", || {
        spawned = true;
        running_job(2, 200)
    });
    assert!(matches!(second, Err(StartError::AlreadyRunning)));
    assert!(!spawned);
    assert_eq!(state.registry().get_start_time("/jobs/a"), Some(100));
}

#[test]
fn a_failed_spawn_registers_nothing() {
    let mut state: JobRuntimeState<u32> = JobRuntimeState::new();
    let outcome = start_job(&mut state, "/jobs/a", || Err::<RunningJobHandle<u32>, String>("no docker".to_string()));
    match outcome {
        Err(StartError::SpawnFailed(reason)) => assert_eq!(reason, "no docker"),
        _ => panic!("the spawn error is expected"),
    }
    assert!(!is_any_job_running(Some(&state)));
}

#[test]
fn start_errors_as_text() {
    assert_eq!(
        start_error_message(&StartError::AlreadyRunning),
        "A job is already running for this output directory."
    );
    assert_eq!(
        start_error_message(&StartError::SpawnFailed("No such file or directory".to_string())),
        "Failed to start docker compose job. Is the image built and GPU enabled?\nNo such file or directory"
    );
}

#[test]
fn a_watch_job_is_reported_at_start_and_its_record_at_exit() {
    let mut state: JobRuntimeState<u32> = JobRuntimeState::new();
    state.track_watch_job("/jobs/w".to_string(), "/jobs/w/job_state.json".to_string());
    assert!(state.is_watch_job("/jobs/w"));
    assert!(matches!(start_job(&mut state, "/jobs/w", || running_job(1, 100)), Ok(true)));
    assert!(matches!(start_job(&mut state, "/jobs/manual", || running_job(2, 100)), Ok(false)));
    assert!(is_any_job_running(Some(&state)));

    let record = finish_job(&mut state, "/jobs/w", &exited(true, "exit status: 0"));
    assert_eq!(record, Some("/jobs/w/job_state.json".to_string()));
    assert!(!state.is_watch_job("/jobs/w"));
    assert!(!state.registry().is_running("/jobs/w"));
    assert!(state.registry().is_running("/jobs/manual"));
    assert_eq!(get_job_logs(&state, "/jobs/w").lines, vec!["[backend] finished: exit status: 0".to_string()]);

    let manual = finish_job(&mut state, "/jobs/manual", &exited(false, "exit status: 1"));
    assert_eq!(manual, None);
    assert!(!is_any_job_running(Some(&state)));
    assert_eq!(get_job_logs(&state, "/jobs/manual").lines, vec!["[backend] finished: exit status: 1".to_string()]);
}

#[test]
fn a_failed_wait_is_logged_and_frees_the_root() {
    let mut state: JobRuntimeState<u32> = JobRuntimeState::new();
    state.track_watch_job("/jobs/w".to_string(), "/jobs/w/job_state.json".to_string());
    assert!(start_job(&mut state, "/jobs/w", || running_job(1, 100)).is_ok());
    fail_wait(&mut state, "/jobs/w", "No child processes");
    assert!(!state.registry().is_running("/jobs/w"));
    assert!(state.is_watch_job("/jobs/w"));
    assert_eq!(get_job_logs(&state, "/jobs/w").lines, vec!["[backend] wait error: No child processes".to_string()]);
}

#[test]
fn stream_lines_are_tagged() {
    let mut state: JobRuntimeState<u32> = JobRuntimeState::new();
    append_stream_line(&mut state, "/jobs/a", "stdout", "hello");
    append_stream_line(&mut state, "/jobs/a", "stderr", "warning: slow");
    append_stream_line(&mut state, "/jobs/a", "stdout", "");
    assert_eq!(
        get_job_logs(&state, "/jobs/a").lines,
        vec!["[stdout] hello".to_string(), "[stderr] warning: slow".to_string(), "[stdout] ".to_string()]
    );
}

#[test]
fn logs_are_kept_per_root() {
    let mut state: JobRuntimeState<u32> = JobRuntimeState::new();
    append_log_line(&mut state, "/jobs/a", "a1".to_string());
    append_log_line(&mut state, "/jobs/b", "b1".to_string());
    append_log_line(&mut state, "/jobs/a", "a2".to_string());
    assert_eq!(get_job_logs(&state, "/jobs/a").lines, vec!["a1".to_string(), "a2".to_string()]);
    assert_eq!(get_job_logs(&state, "/jobs/b").lines, vec!["b1".to_string()]);
    assert!(get_job_logs(&state, "/jobs/c").lines.is_empty());
}

#[test]
fn the_log_of_a_root_is_bounded_and_drops_the_oldest_lines() {
    let mut state: JobRuntimeState<u32> = JobRuntimeState::new();
    for i in 0..(MAX_LOG_LINES + 7) {
        append_log_line(&mut state, "/jobs/a", format!("line {i}"));
        assert!(get_job_logs(&state, "/jobs/a").lines.len() <= MAX_LOG_LINES);
    }
    append_log_line(&mut state, "/jobs/b", "other".to_string());
    let lines = get_job_logs(&state, "/jobs/a").lines;
    assert_eq!(lines.len(), 1500);
    assert_eq!(lines[0], "line 7");
    assert_eq!(lines[1499], "line 1506");
    assert_eq!(get_job_logs(&state, "/jobs/b").lines.len(), 1);
}
