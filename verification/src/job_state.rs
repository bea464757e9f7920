//! The lifecycle record of a job that the watch folder created.
//!
//! The record is created when a bundle is accepted, and changed when the
//! job's process starts and when it exits. Where the record of a job cannot
//! be read back, a stand-in takes its place, so that a start or an exit is
//! always recorded.

use vstd::prelude::*;
use vstd::string::*;
use crate::text::{joined, opt_view};

verus! {

/// Where a job stands.
#[derive(Clone, Copy, Debug, PartialEq, Eq, Structural)]
pub enum JobStateStatus {
    Queued,
    Running,
    Completed,
    Failed,
}

/// The lifecycle record of one job.
#[derive(Debug, Clone)]
pub struct JobState {
    pub status: JobStateStatus,
    pub job_id: String,
    pub job_root_directory_path: String,
    pub source_bundle_directory_path: Option<String>,
    pub accepted_unix_timestamp_millis: i64,
    pub started_unix_timestamp_millis: Option<i64>,
    pub finished_unix_timestamp_millis: Option<i64>,
    pub output_markdown_path: Option<String>,
    pub error_message: Option<String>,
}

/// A `JobState` as plain values.
pub struct JobStateView {
    pub status: JobStateStatus,
    pub job_id: Seq<char>,
    pub job_root_directory_path: Seq<char>,
    pub source_bundle_directory_path: Option<Seq<char>>,
    pub accepted_unix_timestamp_millis: i64,
    pub started_unix_timestamp_millis: Option<i64>,
    pub finished_unix_timestamp_millis: Option<i64>,
    pub output_markdown_path: Option<Seq<char>>,
    pub error_message: Option<Seq<char>>,
}

impl View for JobState {
    type V = JobStateView;

    open spec fn view(&self) -> JobStateView {
        JobStateView {
            status: self.status,
            job_id: self.job_id@,
            job_root_directory_path: self.job_root_directory_path@,
            source_bundle_directory_path: opt_view(self.source_bundle_directory_path),
            accepted_unix_timestamp_millis: self.accepted_unix_timestamp_millis,
            started_unix_timestamp_millis: self.started_unix_timestamp_millis,
            finished_unix_timestamp_millis: self.finished_unix_timestamp_millis,
            output_markdown_path: opt_view(self.output_markdown_path),
            error_message: opt_view(self.error_message),
        }
    }
}

/// How a job's process ended: whether it succeeded, and the exit status as
/// text.
#[derive(Debug, Clone)]
pub struct ExitReport {
    pub success: bool,
    pub description: String,
}

/// The view of an optional record.
pub open spec fn opt_state_view(state: Option<JobState>) -> Option<JobStateView> {
    match state {
        Some(s) => Some(s@),
        None => None,
    }
}

/// The record of a job that was accepted from a bundle and waits to start.
pub open spec fn queued_state(
    job_id: Seq<char>,
    job_root: Seq<char>,
    bundle: Seq<char>,
    accepted_at: i64,
) -> JobStateView {
    JobStateView {
        status: JobStateStatus::Queued,
        job_id,
        job_root_directory_path: job_root,
        source_bundle_directory_path: Some(bundle),
        accepted_unix_timestamp_millis: accepted_at,
        started_unix_timestamp_millis: None,
        finished_unix_timestamp_millis: None,
        output_markdown_path: None,
        error_message: None,
    }
}

/// The record that stands in for one that cannot be read back.
pub open spec fn stand_in_state(status: JobStateStatus, job_root: Seq<char>, now: i64) -> JobStateView {
    JobStateView {
        status,
        job_id: "unknown"@,
        job_root_directory_path: job_root,
        source_bundle_directory_path: None,
        accepted_unix_timestamp_millis: now,
        started_unix_timestamp_millis: None,
        finished_unix_timestamp_millis: None,
        output_markdown_path: None,
        error_message: None,
    }
}

/// The record of a job once its process was started at `started_at`.
pub open spec fn state_after_start(
    existing: Option<JobStateView>,
    job_root: Seq<char>,
    now: i64,
    started_at: i64,
) -> JobStateView {
    let base = match existing {
        Some(state) => state,
        None => stand_in_state(JobStateStatus::Queued, job_root, now),
    };
    JobStateView {
        status: JobStateStatus::Running,
        started_unix_timestamp_millis: Some(started_at),
        ..base
    }
}

/// The record of a job whose process could not be started, for the reason
/// `message`: the job has failed with that reason as its error, and all
/// else stays as it was.
pub open spec fn state_after_start_failure(
    existing: Option<JobStateView>,
    job_root: Seq<char>,
    now: i64,
    message: Seq<char>,
) -> JobStateView {
    let base = match existing {
        Some(state) => state,
        None => stand_in_state(JobStateStatus::Queued, job_root, now),
    };
    JobStateView { status: JobStateStatus::Failed, error_message: Some(message), ..base }
}

/// The error text recorded for a process that failed with exit status
/// `description`.
pub open spec fn failure_message(description: Seq<char>) -> Seq<char> {
    "OCR process failed: "@ + description
}

/// The record of a job once its process has exited at `now`.
///
/// A success completes the job, clears its error and keeps the output path it
/// had, or else takes `detected_output`. A failure fails the job with the
/// exit status as error text.
pub open spec fn state_after_exit(
    existing: Option<JobStateView>,
    job_root: Seq<char>,
    now: i64,
    success: bool,
    description: Seq<char>,
    detected_output: Option<Seq<char>>,
) -> JobStateView {
    let base = match existing {
        Some(state) => state,
        None => stand_in_state(JobStateStatus::Running, job_root, now),
    };
    if success {
        JobStateView {
            status: JobStateStatus::Completed,
            finished_unix_timestamp_millis: Some(now),
            error_message: None,
            output_markdown_path: if base.output_markdown_path is Some {
                base.output_markdown_path
            } else {
                detected_output
            },
            ..base
        }
    } else {
        JobStateView {
            status: JobStateStatus::Failed,
            finished_unix_timestamp_millis: Some(now),
            error_message: Some(failure_message(description)),
            ..base
        }
    }
}

/// The record of a job that was accepted from the bundle at
/// `source_bundle_directory_path` and waits to start.
pub fn queued_job_state(
    job_id: String,
    job_root_directory_path: String,
    source_bundle_directory_path: String,
    accepted_unix_timestamp_millis: i64,
) -> (state: JobState)
    ensures
        state@ == queued_state(
            job_id@,
            job_root_directory_path@,
            source_bundle_directory_path@,
            accepted_unix_timestamp_millis,
        ),
{
    JobState {
        status: JobStateStatus::Queued,
        job_id,
        job_root_directory_path,
        source_bundle_directory_path: Some(source_bundle_directory_path),
        accepted_unix_timestamp_millis,
        started_unix_timestamp_millis: None,
        finished_unix_timestamp_millis: None,
        output_markdown_path: None,
        error_message: None,
    }
}

fn stand_in_job_state(status: JobStateStatus, job_root_directory_path: &str, now: i64) -> (state:
    JobState)
    ensures
        state@ == stand_in_state(status, job_root_directory_path@, now),
{
    JobState {
        status,
        job_id: String::from_str("unknown"),
        job_root_directory_path: job_root_directory_path.to_owned(),
        source_bundle_directory_path: None,
        accepted_unix_timestamp_millis: now,
        started_unix_timestamp_millis: None,
        finished_unix_timestamp_millis: None,
        output_markdown_path: None,
        error_message: None,
    }
}

/// The record of the job of `job_root_directory_path` once its process was
/// started at `started_unix_timestamp_millis`. `existing` is the record read
/// back, if it could be read; `now` is the current time.
pub fn job_state_on_start(
    existing: Option<JobState>,
    job_root_directory_path: &str,
    now: i64,
    started_unix_timestamp_millis: i64,
) -> (state: JobState)
    ensures
        state@ == state_after_start(
            opt_state_view(existing),
            job_root_directory_path@,
            now,
            started_unix_timestamp_millis,
        ),
{
    let mut state = match existing {
        Some(state) => state,
        None => stand_in_job_state(JobStateStatus::Queued, job_root_directory_path, now),
    };
    state.status = JobStateStatus::Running;
    state.started_unix_timestamp_millis = Some(started_unix_timestamp_millis);
    state
}

/// The record of the job of `job_root_directory_path` when the job could not
/// be started: when its inputs could not be made ready or its process could
/// not be spawned. `existing` is the record read back, if it could be read;
/// `now` is the current time; `message` says why the start failed.
pub fn job_state_on_start_failure(
    existing: Option<JobState>,
    job_root_directory_path: &str,
    now: i64,
    message: &str,
) -> (state: JobState)
    ensures
        state@ == state_after_start_failure(
            opt_state_view(existing),
            job_root_directory_path@,
            now,
            message@,
        ),
{
    let mut state = match existing {
        Some(state) => state,
        None => stand_in_job_state(JobStateStatus::Queued, job_root_directory_path, now),
    };
    state.status = JobStateStatus::Failed;
    state.error_message = Some(message.to_owned());
    state
}

/// The record of the job of `job_root_directory_path` once its process has
/// exited. `existing` is the record read back, if it could be read; `now` is
/// the current time; `detected_output` is the output file that the job's
/// settings name, if they name one.
pub fn job_state_on_exit(
    existing: Option<JobState>,
    job_root_directory_path: &str,
    now: i64,
    exit: &ExitReport,
    detected_output: Option<String>,
) -> (state: JobState)
    ensures
        state@ == state_after_exit(
            opt_state_view(existing),
            job_root_directory_path@,
            now,
            exit.success,
            exit.description@,
            opt_view(detected_output),
        ),
{
    let mut state = match existing {
        Some(state) => state,
        None => stand_in_job_state(JobStateStatus::Running, job_root_directory_path, now),
    };
    state.finished_unix_timestamp_millis = Some(now);
    if exit.success {
        state.status = JobStateStatus::Completed;
        state.error_message = None;
        if state.output_markdown_path.is_none() {
            state.output_markdown_path = detected_output;
        }
    } else {
        state.status = JobStateStatus::Failed;
        state.error_message = Some(joined("OCR process failed: ", exit.description.as_str()));
    }
    state
}

/// A job's record moves forward only: a start leaves it running, an exit
/// leaves it completed or failed with the time of the exit, a start that
/// failed leaves it failed with the reason, and none of them changes who the
/// job is or when it was accepted.
pub proof fn lemma_job_state_moves_forward(
    existing: JobStateView,
    job_root: Seq<char>,
    now: i64,
    started_at: i64,
    success: bool,
    description: Seq<char>,
    detected_output: Option<Seq<char>>,
)
    ensures
        state_after_start(Some(existing), job_root, now, started_at).status
            == JobStateStatus::Running,
        state_after_start(Some(existing), job_root, now, started_at).job_id == existing.job_id,
        state_after_start(Some(existing), job_root, now, started_at).accepted_unix_timestamp_millis
            == existing.accepted_unix_timestamp_millis,
        ({
            let after = state_after_exit(
                Some(existing),
                job_root,
                now,
                success,
                description,
                detected_output,
            );
            &&& after.status == if success {
                JobStateStatus::Completed
            } else {
                JobStateStatus::Failed
            }
            &&& after.finished_unix_timestamp_millis == Some(now)
            &&& after.job_id == existing.job_id
            &&& after.accepted_unix_timestamp_millis == existing.accepted_unix_timestamp_millis
            &&& after.started_unix_timestamp_millis == existing.started_unix_timestamp_millis
            &&& success ==> after.error_message is None
            &&& !success ==> after.error_message is Some
        }),
        ({
            let after = state_after_start_failure(Some(existing), job_root, now, description);
            &&& after.status == JobStateStatus::Failed
            &&& after.error_message == Some(description)
            &&& after.job_id == existing.job_id
            &&& after.job_root_directory_path == existing.job_root_directory_path
            &&& after.source_bundle_directory_path == existing.source_bundle_directory_path
            &&& after.accepted_unix_timestamp_millis == existing.accepted_unix_timestamp_millis
        }),
{
}

} // verus!
