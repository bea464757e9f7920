//! The registry of running jobs.
//!
//! A job root is the unit of exclusivity: the registry holds at most one
//! running job per root. Starting a job checks for an entry and inserts the new
//! one in a single step, so a second start for the same root is refused and
//! its process is never spawned.

use vstd::prelude::*;
use crate::root_map::RootMap;

verus! {

/// A running job: the handle of its process and the time it was started.
#[derive(Debug)]
pub struct RunningJobHandle<H> {
    pub child: H,
    pub start_unix_timestamp_millis: i64,
}

/// Why a start request did not register a job.
#[derive(Debug)]
pub enum StartError<E> {
    /// The root already has a running job; nothing was spawned.
    AlreadyRunning,
    /// Spawning the process failed with the given error.
    SpawnFailed(E),
}

/// Whether a start request for `root` is accepted by a registry holding `jobs`.
pub open spec fn start_accepted<H>(
    jobs: Map<Seq<char>, RunningJobHandle<H>>,
    root: Seq<char>,
) -> bool {
    !jobs.contains_key(root)
}

/// The registry contents after a start request for `root` that would run `job`.
pub open spec fn after_start<H>(
    jobs: Map<Seq<char>, RunningJobHandle<H>>,
    root: Seq<char>,
    job: RunningJobHandle<H>,
) -> Map<Seq<char>, RunningJobHandle<H>> {
    if start_accepted(jobs, root) {
        jobs.insert(root, job)
    } else {
        jobs
    }
}

/// How many of the start requests `requests`, all for `root` and taken one
/// after the other, are accepted by a registry that holds `jobs` at first.
pub open spec fn accepted_starts<H>(
    jobs: Map<Seq<char>, RunningJobHandle<H>>,
    root: Seq<char>,
    requests: Seq<RunningJobHandle<H>>,
) -> nat
    decreases requests.len(),
{
    if requests.len() == 0 {
        0
    } else {
        let first: nat = if start_accepted(jobs, root) {
            1
        } else {
            0
        };
        first + accepted_starts(after_start(jobs, root, requests[0]), root, requests.drop_first())
    }
}

/// The registry contents after the start requests `requests` for `root`.
pub open spec fn after_starts<H>(
    jobs: Map<Seq<char>, RunningJobHandle<H>>,
    root: Seq<char>,
    requests: Seq<RunningJobHandle<H>>,
) -> Map<Seq<char>, RunningJobHandle<H>>
    decreases requests.len(),
{
    if requests.len() == 0 {
        jobs
    } else {
        after_starts(after_start(jobs, root, requests[0]), root, requests.drop_first())
    }
}

/// Of any number of start requests for one root, exactly one is accepted when
/// the root is idle, and none when it already runs a job. The job that stays
/// registered is the one of the accepted request.
///
/// A start takes the registry by exclusive reference, so requests that are
/// made at the same time are served one after the other, in some order: what
/// holds of every order holds of them.
pub proof fn lemma_one_start_per_root<H>(
    jobs: Map<Seq<char>, RunningJobHandle<H>>,
    root: Seq<char>,
    requests: Seq<RunningJobHandle<H>>,
)
    ensures
        jobs.contains_key(root) ==> accepted_starts(jobs, root, requests) == 0,
        jobs.contains_key(root) ==> after_starts(jobs, root, requests) == jobs,
        !jobs.contains_key(root) && requests.len() > 0 ==> accepted_starts(jobs, root, requests)
            == 1,
        !jobs.contains_key(root) && requests.len() > 0 ==> after_starts(jobs, root, requests)
            == jobs.insert(root, requests[0]),
    decreases requests.len(),
{
    if requests.len() > 0 {
        lemma_one_start_per_root(after_start(jobs, root, requests[0]), root, requests.drop_first());
    }
}

/// The running jobs, by job root.
pub struct JobRegistry<H> {
    running: RootMap<RunningJobHandle<H>>,
}

impl<H> JobRegistry<H> {
    /// The running jobs by root.
    pub closed spec fn view(&self) -> Map<Seq<char>, RunningJobHandle<H>> {
        self.running@
    }

    /// A registry without running jobs.
    pub fn new() -> (registry: Self)
        ensures
            registry@ == Map::<Seq<char>, RunningJobHandle<H>>::empty(),
    {
        JobRegistry { running: RootMap::new() }
    }

    /// Whether a job runs for `root`.
    pub fn is_running(&self, root: &str) -> (running: bool)
        ensures
            running == self@.contains_key(root@),
    {
        self.running.contains_key(root)
    }

    /// Whether any job runs at all.
    pub fn is_any_job_running(&self) -> (running: bool)
        ensures
            running == (self@ != Map::<Seq<char>, RunningJobHandle<H>>::empty()),
    {
        !self.running.is_empty()
    }

    /// The running job of `root`, if there is one.
    pub fn get(&self, root: &str) -> (job: Option<&RunningJobHandle<H>>)
        ensures
            match job {
                Some(j) => self@.contains_key(root@) && *j == self@[root@],
                None => !self@.contains_key(root@),
            },
    {
        self.running.get(root)
    }

    /// When the job of `root` was started, if one runs.
    pub fn get_start_time(&self, root: &str) -> (start: Option<i64>)
        ensures
            match start {
                Some(t) => self@.contains_key(root@) && t == self@[root@].start_unix_timestamp_millis,
                None => !self@.contains_key(root@),
            },
    {
        match self.running.get(root) {
            Some(job) => Some(job.start_unix_timestamp_millis),
            None => None,
        }
    }

    /// Registers `job` for `root` unless the root already runs a job; then the
    /// registry stays as it is and `job` is handed back.
    pub fn register(&mut self, root: String, job: RunningJobHandle<H>) -> (outcome: Result<
        (),
        RunningJobHandle<H>,
    >)
        ensures
            final(self)@ == after_start(old(self)@, root@, job),
            match outcome {
                Ok(()) => start_accepted(old(self)@, root@),
                Err(refused) => !start_accepted(old(self)@, root@) && refused == job,
            },
    {
        if self.running.contains_key(root.as_str()) {
            Err(job)
        } else {
            let _ = self.running.insert(root, job);
            Ok(())
        }
    }

    /// Starts a job for `root`: `spawn_fn` is called only if the root is idle,
    /// and the job it returns is registered.
    pub fn start<E, F: FnOnce() -> Result<RunningJobHandle<H>, E>>(
        &mut self,
        root: String,
        spawn_fn: F,
    ) -> (outcome: Result<(), StartError<E>>)
        requires
            start_accepted(old(self)@, root@) ==> spawn_fn.requires(()),
        ensures
            match outcome {
                Ok(()) => {
                    &&& start_accepted(old(self)@, root@)
                    &&& final(self)@.contains_key(root@)
                    &&& spawn_fn.ensures((), Ok(final(self)@[root@]))
                    &&& final(self)@ == after_start(old(self)@, root@, final(self)@[root@])
                },
                Err(StartError::AlreadyRunning) => {
                    &&& !start_accepted(old(self)@, root@)
                    &&& final(self)@ == old(self)@
                },
                Err(StartError::SpawnFailed(e)) => {
                    &&& start_accepted(old(self)@, root@)
                    &&& spawn_fn.ensures((), Err(e))
                    &&& final(self)@ == old(self)@
                },
            },
    {
        if self.running.contains_key(root.as_str()) {
            return Err(StartError::AlreadyRunning);
        }
        match spawn_fn() {
            Ok(job) => {
                let _ = self.running.insert(root, job);
                Ok(())
            },
            Err(e) => Err(StartError::SpawnFailed(e)),
        }
    }

    /// Removes the job of `root` and hands it back; without one, nothing changes.
    pub fn remove(&mut self, root: &str) -> (removed: Option<RunningJobHandle<H>>)
        ensures
            final(self)@ == old(self)@.remove(root@),
            match removed {
                Some(job) => old(self)@.contains_key(root@) && job == old(self)@[root@],
                None => !old(self)@.contains_key(root@),
            },
    {
        self.running.remove(root)
    }
}

} // verus!
