//! The state shared by everything that supervises jobs: which jobs run, what
//! they logged, and which of them the watch folder created.
//!
//! The state is a plain value, to be owned by the application and guarded by
//! whatever lock it uses. No function here waits for a process: spawning,
//! waiting and killing are the caller's, and each function only records what
//! the caller did or decides what it should do.

use vstd::prelude::*;
use vstd::string::*;
use crate::job_state::ExitReport;
use crate::log_buffer::{appended, LogBuffer, MAX_LOG_LINES};
use crate::registry::{after_start, start_accepted, JobRegistry, RunningJobHandle, StartError};
use crate::root_map::RootMap;
use crate::text::{joined, result_view, views};

verus! {

/// The jobs that run, the log of every root that ever ran a job, and the
/// path of the lifecycle record of every job that the watch folder created
/// and that has not exited yet.
pub struct JobRuntimeState<H> {
    running_job_by_root: JobRegistry<H>,
    log_lines_by_root: RootMap<LogBuffer>,
    job_state_file_path_by_root: RootMap<String>,
}

/// A `JobRuntimeState` as plain values.
pub struct RuntimeView<H> {
    pub jobs: Map<Seq<char>, RunningJobHandle<H>>,
    pub logs: Map<Seq<char>, Seq<Seq<char>>>,
    pub job_state_paths: Map<Seq<char>, Seq<char>>,
}

/// The log of `root`: empty where the root has none.
pub open spec fn log_of<H>(state: RuntimeView<H>, root: Seq<char>) -> Seq<Seq<char>> {
    if state.logs.contains_key(root) {
        state.logs[root]
    } else {
        Seq::empty()
    }
}

/// The state after `line` was appended to the log of `root`.
pub open spec fn with_log_line<H>(state: RuntimeView<H>, root: Seq<char>, line: Seq<char>) -> RuntimeView<
    H,
> {
    RuntimeView { logs: state.logs.insert(root, appended(log_of(state, root), line)), ..state }
}

/// The state after `job` was registered for the idle root `root`: the job
/// runs, and the root has a log, the one it had or else an empty one.
pub open spec fn with_started_job<H>(
    state: RuntimeView<H>,
    root: Seq<char>,
    job: RunningJobHandle<H>,
) -> RuntimeView<H> {
    RuntimeView {
        jobs: after_start(state.jobs, root, job),
        logs: state.logs.insert(root, log_of(state, root)),
        ..state
    }
}

/// A line of a process's output, tagged with the stream it came from.
pub open spec fn tagged_line(stream_name: Seq<char>, line: Seq<char>) -> Seq<char> {
    "["@ + stream_name + "] "@ + line
}

/// The line logged when the process of a job has exited.
pub open spec fn finished_line(description: Seq<char>) -> Seq<char> {
    "[backend] finished: "@ + description
}

/// The line logged when waiting for the process of a job failed.
pub open spec fn wait_error_line(reason: Seq<char>) -> Seq<char> {
    "[backend] wait error: "@ + reason
}

/// The state after the process of the job of `root` has exited with exit
/// status `description`: the exit is logged, the job no longer runs, and its
/// lifecycle record is no longer kept track of.
pub open spec fn with_finished_job<H>(
    state: RuntimeView<H>,
    root: Seq<char>,
    description: Seq<char>,
) -> RuntimeView<H> {
    let logged = with_log_line(state, root, finished_line(description));
    RuntimeView {
        jobs: logged.jobs.remove(root),
        job_state_paths: logged.job_state_paths.remove(root),
        ..logged
    }
}

/// The state after waiting for the process of the job of `root` failed: the
/// failure is logged and the job no longer runs.
pub open spec fn with_failed_wait<H>(
    state: RuntimeView<H>,
    root: Seq<char>,
    reason: Seq<char>,
) -> RuntimeView<H> {
    let logged = with_log_line(state, root, wait_error_line(reason));
    RuntimeView { jobs: logged.jobs.remove(root), ..logged }
}

/// Whether no log of the state holds more than `MAX_LOG_LINES` lines.
pub open spec fn logs_bounded<H>(state: RuntimeView<H>) -> bool {
    forall|root: Seq<char>| #[trigger]
        state.logs.contains_key(root) ==> state.logs[root].len() <= MAX_LOG_LINES
}

impl<H> JobRuntimeState<H> {
    #[verifier::type_invariant]
    spec fn every_log_is_bounded(self) -> bool {
        forall|root: Seq<char>| #[trigger]
            self.log_lines_by_root@.contains_key(root) ==> self.log_lines_by_root@[root]@.len()
                <= MAX_LOG_LINES
    }

    /// The state as plain values.
    pub closed spec fn view(&self) -> RuntimeView<H> {
        RuntimeView {
            jobs: self.running_job_by_root@,
            logs: self.log_lines_by_root@.map_values(|buffer: LogBuffer| buffer@),
            job_state_paths: self.job_state_file_path_by_root@.map_values(|path: String| path@),
        }
    }

    /// A state without jobs, logs or records.
    pub fn new() -> (state: Self)
        ensures
            state@.jobs == Map::<Seq<char>, RunningJobHandle<H>>::empty(),
            state@.logs == Map::<Seq<char>, Seq<Seq<char>>>::empty(),
            state@.job_state_paths == Map::<Seq<char>, Seq<char>>::empty(),
            logs_bounded(state@),
    {
        let state = JobRuntimeState {
            running_job_by_root: JobRegistry::new(),
            log_lines_by_root: RootMap::new(),
            job_state_file_path_by_root: RootMap::new(),
        };
        assert(state@.logs =~= Map::<Seq<char>, Seq<Seq<char>>>::empty());
        assert(state@.job_state_paths =~= Map::<Seq<char>, Seq<char>>::empty());
        state
    }

    /// The registry of running jobs.
    pub fn registry(&self) -> (registry: &JobRegistry<H>)
        ensures
            registry@ == self@.jobs,
    {
        &self.running_job_by_root
    }

    /// Whether the job of `root` was created by the watch folder and has not
    /// exited yet.
    pub fn is_watch_job(&self, root: &str) -> (watch_job: bool)
        ensures
            watch_job == self@.job_state_paths.contains_key(root@),
    {
        self.job_state_file_path_by_root.contains_key(root)
    }

    /// Records that the watch folder created the job of `root`, whose
    /// lifecycle record is kept at `job_state_file_path`.
    pub fn track_watch_job(&mut self, root: String, job_state_file_path: String)
        ensures
            final(self)@ == (RuntimeView {
                job_state_paths: old(self)@.job_state_paths.insert(root@, job_state_file_path@),
                ..old(self)@
            }),
            logs_bounded(final(self)@),
    {
        proof {
            use_type_invariant(&*self);
        }
        let ghost key = root@;
        let mut paths: RootMap<String> = RootMap::new();
        core::mem::swap(&mut self.job_state_file_path_by_root, &mut paths);
        let _ = paths.insert(root, job_state_file_path);
        self.job_state_file_path_by_root = paths;
        assert(self@.job_state_paths =~= old(self)@.job_state_paths.insert(
            key,
            job_state_file_path@,
        ));
    }

    /// Forgets that the watch folder created the job of `root`, and hands
    /// back the path of the job's lifecycle record if it was kept: for a job
    /// that could not be started, that record is due its failure.
    pub fn untrack_watch_job(&mut self, root: &str) -> (record: Option<String>)
        ensures
            final(self)@ == (RuntimeView {
                job_state_paths: old(self)@.job_state_paths.remove(root@),
                ..old(self)@
            }),
            match record {
                Some(path) => old(self)@.job_state_paths.contains_key(root@) && path@
                    == old(self)@.job_state_paths[root@],
                None => !old(self)@.job_state_paths.contains_key(root@),
            },
            logs_bounded(final(self)@),
    {
        proof {
            use_type_invariant(&*self);
        }
        let mut paths: RootMap<String> = RootMap::new();
        core::mem::swap(&mut self.job_state_file_path_by_root, &mut paths);
        let record = paths.remove(root);
        self.job_state_file_path_by_root = paths;
        assert(self@.job_state_paths =~= old(self)@.job_state_paths.remove(root@));
        record
    }

    fn remove_job(&mut self, root: &str)
        ensures
            final(self)@ == (RuntimeView { jobs: old(self)@.jobs.remove(root@), ..old(self)@ }),
    {
        proof {
            use_type_invariant(&*self);
        }
        let mut jobs: JobRegistry<H> = JobRegistry::new();
        core::mem::swap(&mut self.running_job_by_root, &mut jobs);
        let _ = jobs.remove(root);
        self.running_job_by_root = jobs;
    }
}

/// Whether any job runs. `None` stands for a state that cannot be read
/// because a holder of its lock panicked: then a job is taken to run, so
/// that nothing new is started.
pub fn is_any_job_running<H>(state: Option<&JobRuntimeState<H>>) -> (running: bool)
    ensures
        running == match state {
            Some(s) => s@.jobs != Map::<Seq<char>, RunningJobHandle<H>>::empty(),
            None => true,
        },
{
    match state {
        Some(s) => s.running_job_by_root.is_any_job_running(),
        None => true,
    }
}

/// Appends `line` to the log of `root`. The log is created if the root has
/// none; no log ever holds more than `MAX_LOG_LINES` lines.
pub fn append_log_line<H>(state: &mut JobRuntimeState<H>, root: &str, line: String)
    ensures
        final(state)@ == with_log_line(old(state)@, root@, line@),
        logs_bounded(final(state)@),
{
    proof {
        use_type_invariant(&*state);
    }
    let ghost before = state.log_lines_by_root@;
    let mut logs: RootMap<LogBuffer> = RootMap::new();
    core::mem::swap(&mut state.log_lines_by_root, &mut logs);
    let mut lines = match logs.remove(root) {
        Some(lines) => lines,
        None => LogBuffer::new(),
    };
    assert(lines@ == log_of(old(state)@, root@));
    lines.append(line);
    let ghost after_append = lines;
    let _ = logs.insert(root.to_owned(), lines);
    assert(logs@ =~= before.insert(root@, after_append));
    state.log_lines_by_root = logs;
    assert(state@.logs =~= old(state)@.logs.insert(
        root@,
        appended(log_of(old(state)@, root@), line@),
    ));
}

/// Appends a line of a process's output to the log of `root`, tagged with the
/// name of the stream it came from.
pub fn append_stream_line<H>(
    state: &mut JobRuntimeState<H>,
    root: &str,
    stream_name: &str,
    line: &str,
)
    ensures
        final(state)@ == with_log_line(old(state)@, root@, tagged_line(stream_name@, line@)),
        logs_bounded(final(state)@),
{
    let mut tagged = String::from_str("[");
    tagged.append(stream_name);
    tagged.append("] ");
    tagged.append(line);
    append_log_line(state, root, tagged);
}

/// The recent log lines of a job root.
#[derive(Debug, Clone)]
pub struct JobLogResponse {
    pub lines: Vec<String>,
}

/// The log of `root`, oldest line first; empty where the root has none.
pub fn get_job_logs<H>(state: &JobRuntimeState<H>, root: &str) -> (response: JobLogResponse)
    ensures
        views(response.lines@) == log_of(state@, root@),
        response.lines@.len() <= MAX_LOG_LINES,
{
    match state.log_lines_by_root.get(root) {
        Some(lines) => JobLogResponse { lines: lines.lines() },
        None => {
            let lines: Vec<String> = Vec::new();
            assert(views(lines@) =~= Seq::<Seq<char>>::empty());
            JobLogResponse { lines }
        },
    }
}

/// Starts a job for `root`: `spawn_fn` is called only if no job runs for the
/// root, and the job it returns is registered.
///
/// On success the root has a log, the one it had or else an empty one, and
/// the result tells whether the watch folder created the job, in which case
/// its lifecycle record is due an update.
pub fn start_job<H, E, F: FnOnce() -> Result<RunningJobHandle<H>, E>>(
    state: &mut JobRuntimeState<H>,
    root: &str,
    spawn_fn: F,
) -> (outcome: Result<bool, StartError<E>>)
    requires
        start_accepted(old(state)@.jobs, root@) ==> spawn_fn.requires(()),
    ensures
        match outcome {
            Ok(watch_job) => {
                &&& start_accepted(old(state)@.jobs, root@)
                &&& final(state)@.jobs.contains_key(root@)
                &&& spawn_fn.ensures((), Ok(final(state)@.jobs[root@]))
                &&& final(state)@ == with_started_job(
                    old(state)@,
                    root@,
                    final(state)@.jobs[root@],
                )
                &&& watch_job == old(state)@.job_state_paths.contains_key(root@)
            },
            Err(StartError::AlreadyRunning) => {
                &&& !start_accepted(old(state)@.jobs, root@)
                &&& final(state)@ == old(state)@
            },
            Err(StartError::SpawnFailed(e)) => {
                &&& start_accepted(old(state)@.jobs, root@)
                &&& spawn_fn.ensures((), Err(e))
                &&& final(state)@ == old(state)@
            },
        },
        logs_bounded(final(state)@),
{
    proof {
        use_type_invariant(&*state);
    }
    let mut jobs: JobRegistry<H> = JobRegistry::new();
    core::mem::swap(&mut state.running_job_by_root, &mut jobs);
    let started = jobs.start(root.to_owned(), spawn_fn);
    state.running_job_by_root = jobs;
    match started {
        Ok(()) => {
            if !state.log_lines_by_root.contains_key(root) {
                let ghost before = state.log_lines_by_root@;
                let mut logs: RootMap<LogBuffer> = RootMap::new();
                core::mem::swap(&mut state.log_lines_by_root, &mut logs);
                let lines = LogBuffer::new();
                let ghost empty = lines;
                let _ = logs.insert(root.to_owned(), lines);
                assert(logs@ =~= before.insert(root@, empty));
                state.log_lines_by_root = logs;
            }
            assert(state@.logs =~= old(state)@.logs.insert(root@, log_of(old(state)@, root@)));
            Ok(state.job_state_file_path_by_root.contains_key(root))
        },
        Err(e) => Err(e),
    }
}

/// Records that the process of the job of `root` has exited: the exit is
/// logged and the job no longer runs. Hands back the path of the job's
/// lifecycle record if the watch folder created the job: that record is then
/// due an update.
pub fn finish_job<H>(state: &mut JobRuntimeState<H>, root: &str, exit: &ExitReport) -> (record:
    Option<String>)
    ensures
        final(state)@ == with_finished_job(old(state)@, root@, exit.description@),
        match record {
            Some(path) => old(state)@.job_state_paths.contains_key(root@) && path@
                == old(state)@.job_state_paths[root@],
            None => !old(state)@.job_state_paths.contains_key(root@),
        },
        logs_bounded(final(state)@),
{
    append_log_line(state, root, joined("[backend] finished: ", exit.description.as_str()));
    state.remove_job(root);
    state.untrack_watch_job(root)
}

/// Records that waiting for the process of the job of `root` failed: the
/// failure is logged and the job no longer runs.
pub fn fail_wait<H>(state: &mut JobRuntimeState<H>, root: &str, reason: &str)
    ensures
        final(state)@ == with_failed_wait(old(state)@, root@, reason@),
        logs_bounded(final(state)@),
{
    append_log_line(state, root, joined("[backend] wait error: ", reason));
    state.remove_job(root);
    proof {
        use_type_invariant(&*state);
    }
}

/// The process to kill in order to cancel the job of `root`. Without a
/// running job there is nothing to cancel, which is no error.
pub fn cancel_job<'a, H>(state: &'a JobRuntimeState<H>, root: &str) -> (target: Option<&'a H>)
    ensures
        match target {
            Some(child) => state@.jobs.contains_key(root@) && *child == state@.jobs[root@].child,
            None => !state@.jobs.contains_key(root@),
        },
{
    match state.running_job_by_root.get(root) {
        Some(job) => Some(&job.child),
        None => None,
    }
}

/// What came of an attempt to kill the process of a job.
#[derive(Debug, Clone)]
pub enum KillOutcome {
    /// The process ran and was killed.
    Killed,
    /// The process had exited already, so that there was nothing to kill.
    AlreadyExited,
    /// The process runs on: it could not be killed, and the text says why.
    Failed(String),
}

/// A `KillOutcome` as plain values.
pub enum KillView {
    Killed,
    AlreadyExited,
    Failed(Seq<char>),
}

impl View for KillOutcome {
    type V = KillView;

    open spec fn view(&self) -> KillView {
        match *self {
            KillOutcome::Killed => KillView::Killed,
            KillOutcome::AlreadyExited => KillView::AlreadyExited,
            KillOutcome::Failed(reason) => KillView::Failed(reason@),
        }
    }
}

/// What an attempt to kill a process came to, given what the kill returned
/// and whether the process is seen to have exited: a kill that failed on a
/// process that has exited found nothing to kill, which is no failure.
pub open spec fn kill_view(kill: Result<(), Seq<char>>, process_has_exited: bool) -> KillView {
    match kill {
        Ok(()) => KillView::Killed,
        Err(reason) => if process_has_exited {
            KillView::AlreadyExited
        } else {
            KillView::Failed(reason)
        },
    }
}

/// Judges an attempt to kill a process, given what the kill returned and
/// whether the process is seen to have exited.
pub fn kill_outcome(kill: Result<(), String>, process_has_exited: bool) -> (outcome: KillOutcome)
    ensures
        outcome@ == kill_view(result_view(kill), process_has_exited),
{
    match kill {
        Ok(()) => KillOutcome::Killed,
        Err(reason) => {
            if process_has_exited {
                KillOutcome::AlreadyExited
            } else {
                KillOutcome::Failed(reason)
            }
        },
    }
}

/// What a cancellation amounts to, given what came of killing the process:
/// a success where the process was killed or had exited already, and the
/// reason where the process could not be killed.
pub open spec fn cancellation_result(kill: KillView) -> Result<(), Seq<char>> {
    match kill {
        KillView::Killed => Ok(()),
        KillView::AlreadyExited => Ok(()),
        KillView::Failed(reason) => Err(reason),
    }
}

/// The state after the attempt to kill the process of the job of `root`
/// came to `kill`: a kill that went through is logged, and nothing else
/// changes the state.
pub open spec fn with_cancellation<H>(state: RuntimeView<H>, root: Seq<char>, kill: KillView) -> RuntimeView<
    H,
> {
    match kill {
        KillView::Killed => with_log_line(state, root, "[backend] cancellation requested"@),
        _ => state,
    }
}

/// Records what came of killing the process of the job of `root`. A kill
/// that went through is logged. A process that had exited already needs no
/// kill, and a kill that found it gone is no error: the cancellation
/// succeeds and nothing is logged. Only a process that could not be killed
/// is an error. The job keeps its registry entry in every case: it leaves
/// the registry once, when its process is seen to exit.
pub fn record_cancellation<H>(state: &mut JobRuntimeState<H>, root: &str, kill: KillOutcome) -> (result:
    Result<(), String>)
    ensures
        result_view(result) == cancellation_result(kill@),
        final(state)@ == with_cancellation(old(state)@, root@, kill@),
        final(state)@.jobs == old(state)@.jobs,
        logs_bounded(final(state)@),
{
    proof {
        use_type_invariant(&*state);
    }
    match kill {
        KillOutcome::Killed => {
            append_log_line(state, root, String::from_str("[backend] cancellation requested"));
            Ok(())
        },
        KillOutcome::AlreadyExited => Ok(()),
        KillOutcome::Failed(reason) => Err(reason),
    }
}

/// The text that reports a start that did not register a job.
pub open spec fn start_error_text(error: StartError<String>) -> Seq<char> {
    match error {
        StartError::AlreadyRunning => "A job is already running for this output directory."@,
        StartError::SpawnFailed(reason) => spawn_failure_text(reason@),
    }
}

/// The text that reports a process that could not be spawned for `reason`.
pub open spec fn spawn_failure_text(reason: Seq<char>) -> Seq<char> {
    "Failed to start docker compose job. Is the image built and GPU enabled?\n"@ + reason
}

/// The text that reports a start that did not register a job.
pub fn start_error_message(error: &StartError<String>) -> (message: String)
    ensures
        message@ == start_error_text(*error),
{
    match error {
        StartError::AlreadyRunning => String::from_str(
            "A job is already running for this output directory.",
        ),
        StartError::SpawnFailed(reason) => joined(
            "Failed to start docker compose job. Is the image built and GPU enabled?\n",
            reason.as_str(),
        ),
    }
}

} // verus!
