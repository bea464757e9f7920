//! Progress of a job, derived from a snapshot of its task queue and from the
//! registry of running jobs.
//!
//! The queue belongs to the engine that runs the job; this module only reads
//! a snapshot of it. A queue that does not exist yet counts as empty.

use vstd::prelude::*;
use crate::clock::now_unix_timestamp_millis;
use crate::registry::JobRegistry;
use crate::registry::RunningJobHandle;
use crate::text::str_eq;

verus! {

/// One row of the task queue.
#[derive(Debug, Clone)]
pub struct TaskRow {
    pub task_id: i64,
    pub status: String,
    pub error_message: Option<String>,
    pub task_kind: String,
    pub source_path: String,
    pub pdf_page_index: Option<i64>,
    pub pdf_total_pages: Option<i64>,
}

/// The number of tasks in each state.
#[derive(Debug, Clone, Copy)]
pub struct StatusCounts {
    pub pending_tasks: i64,
    pub running_tasks: i64,
    pub completed_tasks: i64,
    pub failed_tasks: i64,
}

/// What a status query reports of a job.
#[derive(Debug, Clone)]
pub struct JobStatus {
    pub job_root_directory_path: String,
    pub is_running: bool,
    pub start_unix_timestamp_millis: Option<i64>,
    pub total_tasks: i64,
    pub pending_tasks: i64,
    pub running_tasks: i64,
    pub completed_tasks: i64,
    pub failed_tasks: i64,
    pub last_error_message: Option<String>,
    pub estimated_time_remaining_seconds: Option<i64>,
}

/// The rows of a queue snapshot; none where the queue does not exist.
pub open spec fn snapshot_rows(queue: Option<&Vec<TaskRow>>) -> Seq<TaskRow> {
    match queue {
        Some(rows) => rows@,
        None => Seq::empty(),
    }
}

/// How many of `rows` are in state `status`.
pub open spec fn count_with_status(rows: Seq<TaskRow>, status: Seq<char>) -> nat
    decreases rows.len(),
{
    if rows.len() == 0 {
        0
    } else {
        let last: nat = if rows.last().status@ == status {
            1
        } else {
            0
        };
        count_with_status(rows.drop_last(), status) + last
    }
}

/// How many of `rows` are in one of the four known states.
pub open spec fn count_known(rows: Seq<TaskRow>) -> nat {
    count_with_status(rows, "pending"@) + count_with_status(rows, "running"@) + count_with_status(
        rows,
        "completed"@,
    ) + count_with_status(rows, "failed"@)
}

proof fn lemma_status_names_differ()
    ensures
        "pending"@ != "running"@,
        "pending"@ != "completed"@,
        "pending"@ != "failed"@,
        "running"@ != "completed"@,
        "running"@ != "failed"@,
        "completed"@ != "failed"@,
{
    reveal_strlit("pending");
    reveal_strlit("running");
    reveal_strlit("completed");
    reveal_strlit("failed");
    assert("pending"@[0] != "running"@[0]);
    assert("pending"@.len() != "completed"@.len());
    assert("pending"@.len() != "failed"@.len());
    assert("running"@.len() != "completed"@.len());
    assert("running"@.len() != "failed"@.len());
    assert("completed"@.len() != "failed"@.len());
}

/// No task is counted twice: the tasks in known states are at most all tasks.
pub proof fn lemma_known_tasks_bounded(rows: Seq<TaskRow>)
    ensures
        count_known(rows) <= rows.len(),
    decreases rows.len(),
{
    lemma_status_names_differ();
    if rows.len() > 0 {
        lemma_known_tasks_bounded(rows.drop_last());
    }
}

/// Counts the tasks of a queue snapshot by state. Rows in a state other than
/// the four known ones are not counted.
pub fn query_status_counts(queue: Option<&Vec<TaskRow>>) -> (counts: StatusCounts)
    requires
        snapshot_rows(queue).len() <= i64::MAX,
    ensures
        counts.pending_tasks == count_with_status(snapshot_rows(queue), "pending"@),
        counts.running_tasks == count_with_status(snapshot_rows(queue), "running"@),
        counts.completed_tasks == count_with_status(snapshot_rows(queue), "completed"@),
        counts.failed_tasks == count_with_status(snapshot_rows(queue), "failed"@),
{
    let mut counts = StatusCounts {
        pending_tasks: 0,
        running_tasks: 0,
        completed_tasks: 0,
        failed_tasks: 0,
    };
    let rows = match queue {
        Some(rows) => rows,
        None => {
            return counts;
        },
    };
    let mut i: usize = 0;
    while i < rows.len()
        invariant
            i <= rows.len(),
            rows.len() <= i64::MAX,
            counts.pending_tasks == count_with_status(rows@.take(i as int), "pending"@),
            counts.running_tasks == count_with_status(rows@.take(i as int), "running"@),
            counts.completed_tasks == count_with_status(rows@.take(i as int), "completed"@),
            counts.failed_tasks == count_with_status(rows@.take(i as int), "failed"@),
        decreases rows.len() - i,
    {
        proof {
            lemma_known_tasks_bounded(rows@.take(i as int));
            assert(rows@.take(i + 1).drop_last() =~= rows@.take(i as int));
        }
        let status = rows[i].status.as_str();
        if str_eq(status, "pending") {
            counts.pending_tasks = counts.pending_tasks + 1;
        }
        if str_eq(status, "running") {
            counts.running_tasks = counts.running_tasks + 1;
        }
        if str_eq(status, "completed") {
            counts.completed_tasks = counts.completed_tasks + 1;
        }
        if str_eq(status, "failed") {
            counts.failed_tasks = counts.failed_tasks + 1;
        }
        i += 1;
    }
    assert(rows@.take(rows@.len() as int) =~= rows@);
    counts
}

/// Whether a row is a failed task that carries an error text.
pub open spec fn reports_failure(row: TaskRow) -> bool {
    row.status@ == "failed"@ && row.error_message is Some
}

/// Whether row `i` is the most recent reported failure of `rows`: no reported
/// failure has a higher task id, and none with the same id stands before it.
pub open spec fn is_latest_failure(rows: Seq<TaskRow>, i: int) -> bool {
    &&& 0 <= i < rows.len()
    &&& reports_failure(rows[i])
    &&& forall|j: int|
        0 <= j < rows.len() && #[trigger] reports_failure(rows[j]) ==> rows[j].task_id
            < rows[i].task_id || (rows[j].task_id == rows[i].task_id && i <= j)
}

/// A queue has at most one most recent reported failure.
pub proof fn lemma_latest_failure_is_unique(rows: Seq<TaskRow>, i: int, j: int)
    requires
        is_latest_failure(rows, i),
        is_latest_failure(rows, j),
    ensures
        i == j,
{
}

/// The error text of the most recent failed task of a queue snapshot: the one
/// with the highest task id among the failed tasks that carry a text.
pub fn query_last_error_message(queue: Option<&Vec<TaskRow>>) -> (message: Option<String>)
    ensures
        match message {
            Some(text) => exists|i: int|
                is_latest_failure(snapshot_rows(queue), i) && #[trigger] snapshot_rows(
                    queue,
                )[i].error_message == Some(text),
            None => forall|j: int|
                0 <= j < snapshot_rows(queue).len() ==> !reports_failure(
                    #[trigger] snapshot_rows(queue)[j],
                ),
        },
{
    let rows = match queue {
        Some(rows) => rows,
        None => {
            return None;
        },
    };
    let mut best: Option<usize> = None;
    let mut i: usize = 0;
    while i < rows.len()
        invariant
            i <= rows.len(),
            match best {
                Some(b) => b < i && is_latest_failure(rows@.take(i as int), b as int),
                None => forall|j: int| 0 <= j < i ==> !reports_failure(#[trigger] rows@[j]),
            },
        decreases rows.len() - i,
    {
        let ghost seen = rows@.take(i as int);
        let ghost next = rows@.take(i + 1);
        assert(forall|j: int| 0 <= j < i ==> seen[j] == next[j]);
        let row = &rows[i];
        if str_eq(row.status.as_str(), "failed") && row.error_message.is_some() {
            let better = match best {
                None => true,
                Some(b) => rows[b].task_id < row.task_id,
            };
            if better {
                best = Some(i);
            }
        }
        proof {
            match best {
                Some(b) => {
                    assert(is_latest_failure(next, b as int));
                },
                None => {},
            }
        }
        i += 1;
    }
    assert(rows@.take(rows@.len() as int) =~= rows@);
    match best {
        Some(b) => {
            match &rows[b].error_message {
                Some(text) => {
                    let copy = text.clone();
                    assert(is_latest_failure(snapshot_rows(queue), b as int) && snapshot_rows(
                        queue,
                    )[b as int].error_message == Some(copy));
                    Some(copy)
                },
                None => None,
            }
        },
        None => None,
    }
}

/// Whether row `i` is the running task that the queue took up first: no
/// running task has a lower task id, and none with the same id stands before
/// it.
pub open spec fn is_current_task(rows: Seq<TaskRow>, i: int) -> bool {
    &&& 0 <= i < rows.len()
    &&& rows[i].status@ == "running"@
    &&& forall|j: int|
        0 <= j < rows.len() && (#[trigger] rows[j]).status@ == "running"@ ==> rows[i].task_id
            < rows[j].task_id || (rows[j].task_id == rows[i].task_id && i <= j)
}

/// The task that runs now: the running task with the lowest task id, if any
/// task runs.
pub fn query_current_running_task(queue: Option<&Vec<TaskRow>>) -> (current: Option<&TaskRow>)
    ensures
        match current {
            Some(task) => exists|i: int|
                is_current_task(snapshot_rows(queue), i) && #[trigger] snapshot_rows(queue)[i]
                    == *task,
            None => forall|j: int|
                0 <= j < snapshot_rows(queue).len() ==> (#[trigger] snapshot_rows(
                    queue,
                )[j]).status@ != "running"@,
        },
{
    let rows = match queue {
        Some(rows) => rows,
        None => {
            return None;
        },
    };
    let mut best: Option<usize> = None;
    let mut i: usize = 0;
    while i < rows.len()
        invariant
            i <= rows.len(),
            match best {
                Some(b) => b < i && is_current_task(rows@.take(i as int), b as int),
                None => forall|j: int| 0 <= j < i ==> (#[trigger] rows@[j]).status@ != "running"@,
            },
        decreases rows.len() - i,
    {
        let ghost seen = rows@.take(i as int);
        let ghost next = rows@.take(i + 1);
        assert(forall|j: int| 0 <= j < i ==> seen[j] == next[j]);
        let row = &rows[i];
        if str_eq(row.status.as_str(), "running") {
            let better = match best {
                None => true,
                Some(b) => row.task_id < rows[b].task_id,
            };
            if better {
                best = Some(i);
            }
        }
        proof {
            match best {
                Some(b) => {
                    assert(is_current_task(next, b as int));
                },
                None => {},
            }
        }
        i += 1;
    }
    assert(rows@.take(rows@.len() as int) =~= rows@);
    match best {
        Some(b) => {
            assert(is_current_task(snapshot_rows(queue), b as int) && snapshot_rows(queue)[b as int]
                == rows[b as int]);
            Some(&rows[b])
        },
        None => None,
    }
}

/// `value`, or the nearest 64-bit signed integer where it does not fit.
pub open spec fn saturate_i64(value: int) -> int {
    if value > i64::MAX {
        i64::MAX as int
    } else if value < i64::MIN {
        i64::MIN as int
    } else {
        value
    }
}

fn saturating_i64(value: i128) -> (clamped: i64)
    ensures
        clamped == saturate_i64(value as int),
{
    if value > i64::MAX as i128 {
        i64::MAX
    } else if value < i64::MIN as i128 {
        i64::MIN
    } else {
        value as i64
    }
}

/// The estimated seconds that remain at time `now`, for a job started at
/// `start` of whose `total_tasks` tasks `completed_tasks` are done.
///
/// The estimate is the average time per completed task so far, times the
/// tasks that remain, in whole seconds and never negative: where no time has
/// passed since the start it is zero. It is unknown without a start time,
/// without tasks and without a completed task, and only then: an estimate of
/// zero says that no time remains, not that nothing is known.
pub open spec fn eta_seconds(
    start: Option<i64>,
    total_tasks: i64,
    completed_tasks: i64,
    now: i64,
) -> Option<i64> {
    match start {
        None => None,
        Some(start_millis) => {
            let elapsed_millis = saturate_i64(now - start_millis);
            if total_tasks <= 0 || completed_tasks <= 0 {
                None
            } else if elapsed_millis <= 0 {
                Some(0i64)
            } else {
                let average_millis_per_task = elapsed_millis / (completed_tasks as int);
                let remaining_tasks = saturate_i64(total_tasks - completed_tasks);
                let remaining_millis = saturate_i64(average_millis_per_task * remaining_tasks);
                if remaining_millis <= 0 {
                    Some(0i64)
                } else {
                    Some((remaining_millis / 1000) as i64)
                }
            }
        },
    }
}

/// The estimate is unknown exactly where there is no start time, no task or
/// no completed task. A known estimate is never negative, and it is zero
/// where the clock stands at or before the start.
pub proof fn lemma_eta_unknown_without_samples(
    start: Option<i64>,
    total_tasks: i64,
    completed_tasks: i64,
    now: i64,
)
    ensures
        eta_seconds(start, total_tasks, completed_tasks, now) is None <==> start is None
            || total_tasks <= 0 || completed_tasks <= 0,
        eta_seconds(start, total_tasks, completed_tasks, now) matches Some(seconds) ==> seconds
            >= 0,
        start matches Some(start_millis) ==> (total_tasks > 0 && completed_tasks > 0 && now
            <= start_millis ==> eta_seconds(start, total_tasks, completed_tasks, now) == Some(
            0i64,
        )),
{
}

/// The estimated seconds that remain at time `now`.
pub fn estimated_time_remaining_seconds_at(
    start_unix_timestamp_millis: Option<i64>,
    total_tasks: i64,
    completed_tasks: i64,
    now_unix_timestamp_millis: i64,
) -> (eta: Option<i64>)
    ensures
        eta == eta_seconds(
            start_unix_timestamp_millis,
            total_tasks,
            completed_tasks,
            now_unix_timestamp_millis,
        ),
{
    let start_millis: i64 = match start_unix_timestamp_millis {
        Some(value) => value,
        None => {
            return None;
        },
    };
    if total_tasks <= 0 {
        return None;
    }
    if completed_tasks <= 0 {
        return None;
    }
    let elapsed_millis: i64 = saturating_i64(now_unix_timestamp_millis as i128 - start_millis as i128);
    if elapsed_millis <= 0 {
        return Some(0);
    }
    let average_millis_per_task: i64 = elapsed_millis / completed_tasks;
    let remaining_tasks: i64 = saturating_i64(total_tasks as i128 - completed_tasks as i128);
    assert(-0x8000_0000_0000_0000_0000_0000_0000_0000 < (average_millis_per_task as int) * (
    remaining_tasks as int) < 0x8000_0000_0000_0000_0000_0000_0000_0000) by (nonlinear_arith)
        requires
            0 <= average_millis_per_task <= 0x7fff_ffff_ffff_ffff,
            -0x8000_0000_0000_0000 <= remaining_tasks <= 0x7fff_ffff_ffff_ffff,
    ;
    let product: i128 = average_millis_per_task as i128 * remaining_tasks as i128;
    let remaining_millis: i64 = saturating_i64(product);
    if remaining_millis <= 0 {
        Some(0)
    } else {
        Some(remaining_millis / 1000)
    }
}

/// The estimated seconds that remain, at the time of the call. The estimate
/// is the one of `eta_seconds` at whatever time the clock reports.
pub fn compute_estimated_time_remaining_seconds(
    start_unix_timestamp_millis: Option<i64>,
    total_tasks: i64,
    completed_tasks: i64,
) -> (eta: Option<i64>)
    ensures
        exists|now: i64|
            eta == #[trigger] eta_seconds(
                start_unix_timestamp_millis,
                total_tasks,
                completed_tasks,
                now,
            ),
        eta is None <==> start_unix_timestamp_millis is None || total_tasks <= 0
            || completed_tasks <= 0,
        eta matches Some(seconds) ==> seconds >= 0,
{
    let now: i64 = now_unix_timestamp_millis();
    estimated_time_remaining_seconds_at(
        start_unix_timestamp_millis,
        total_tasks,
        completed_tasks,
        now,
    )
}

/// The status of the job of `root` as plain values, given what the queue and
/// the registry hold and the estimate `eta`.
pub open spec fn status_matches<H>(
    status: JobStatus,
    root: Seq<char>,
    rows: Seq<TaskRow>,
    jobs: Map<Seq<char>, RunningJobHandle<H>>,
) -> bool {
    &&& status.job_root_directory_path@ == root
    &&& status.is_running == jobs.contains_key(root)
    &&& status.start_unix_timestamp_millis == start_time_of(jobs, root)
    &&& status.pending_tasks == count_with_status(rows, "pending"@)
    &&& status.running_tasks == count_with_status(rows, "running"@)
    &&& status.completed_tasks == count_with_status(rows, "completed"@)
    &&& status.failed_tasks == count_with_status(rows, "failed"@)
    &&& status.total_tasks == count_known(rows)
    &&& match status.last_error_message {
        Some(text) => exists|i: int|
            is_latest_failure(rows, i) && #[trigger] rows[i].error_message == Some(text),
        None => forall|j: int| 0 <= j < rows.len() ==> !reports_failure(#[trigger] rows[j]),
    }
}

/// When the job of `root` was started, if one runs.
pub open spec fn start_time_of<H>(jobs: Map<Seq<char>, RunningJobHandle<H>>, root: Seq<char>) -> Option<
    i64,
> {
    if jobs.contains_key(root) {
        Some(jobs[root].start_unix_timestamp_millis)
    } else {
        None
    }
}

/// The status of the job of `root` at time `now`: whether it runs and since
/// when, as the registry has it; the task counts and the last error, as the
/// queue snapshot has them; and the estimate of the time that remains.
pub fn get_job_status_at<H>(
    root: &str,
    queue: Option<&Vec<TaskRow>>,
    registry: &JobRegistry<H>,
    now_unix_timestamp_millis: i64,
) -> (status: JobStatus)
    requires
        snapshot_rows(queue).len() <= i64::MAX,
    ensures
        status_matches(status, root@, snapshot_rows(queue), registry@),
        status.estimated_time_remaining_seconds == eta_seconds(
            start_time_of(registry@, root@),
            count_known(snapshot_rows(queue)) as i64,
            count_with_status(snapshot_rows(queue), "completed"@) as i64,
            now_unix_timestamp_millis,
        ),
{
    let counts = query_status_counts(queue);
    proof {
        lemma_known_tasks_bounded(snapshot_rows(queue));
    }
    let total_tasks: i64 = counts.pending_tasks + counts.running_tasks + counts.completed_tasks
        + counts.failed_tasks;
    let start_unix_timestamp_millis = registry.get_start_time(root);
    let estimated_time_remaining_seconds = estimated_time_remaining_seconds_at(
        start_unix_timestamp_millis,
        total_tasks,
        counts.completed_tasks,
        now_unix_timestamp_millis,
    );
    let last_error_message = query_last_error_message(queue);
    JobStatus {
        job_root_directory_path: root.to_owned(),
        is_running: start_unix_timestamp_millis.is_some(),
        start_unix_timestamp_millis,
        total_tasks,
        pending_tasks: counts.pending_tasks,
        running_tasks: counts.running_tasks,
        completed_tasks: counts.completed_tasks,
        failed_tasks: counts.failed_tasks,
        last_error_message,
        estimated_time_remaining_seconds,
    }
}

/// The status of the job of `root` at the time of the call. All but the
/// estimate is as `get_job_status_at` gives it; the estimate is the one at
/// whatever time the clock reports, and it is known exactly where a job runs
/// for the root and a task is completed.
pub fn get_job_status<H>(root: &str, queue: Option<&Vec<TaskRow>>, registry: &JobRegistry<H>) -> (status:
    JobStatus)
    requires
        snapshot_rows(queue).len() <= i64::MAX,
    ensures
        status_matches(status, root@, snapshot_rows(queue), registry@),
        exists|now: i64|
            status.estimated_time_remaining_seconds == #[trigger] eta_seconds(
                start_time_of(registry@, root@),
                count_known(snapshot_rows(queue)) as i64,
                count_with_status(snapshot_rows(queue), "completed"@) as i64,
                now,
            ),
        status.estimated_time_remaining_seconds is None <==> !registry@.contains_key(root@)
            || count_with_status(snapshot_rows(queue), "completed"@) == 0,
{
    proof {
        lemma_known_tasks_bounded(snapshot_rows(queue));
    }
    let now: i64 = now_unix_timestamp_millis();
    get_job_status_at(root, queue, registry, now)
}

} // verus!
