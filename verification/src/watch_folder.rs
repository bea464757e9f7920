//! The watch-folder poller's lifecycle: stopped, running, stopped again.
//!
//! The state records the poller thread, the directories it watches and the
//! most recent error of a poll tick. Starting is refused while a poller runs;
//! stopping hands the thread back so that it can be joined without holding
//! the state.
//!
//! What the poller does with the bundles of its inbox is in `bundle` and
//! `poll`; the functions on bundles can be reached from here as well.

use core::time::Duration;
use vstd::prelude::*;
pub use crate::bundle::{
    list_ready_bundle_directories, mark_bundle_failed, mark_bundle_processed,
    try_lock_bundle_for_processing,
};
use vstd::string::*;
use crate::text::{clone_opt_text, opt_view, result_view};

verus! {

/// The poll interval used when none is configured, in milliseconds.
pub const DEFAULT_WATCH_POLL_INTERVAL_MILLIS: u64 = 1000;

/// The duration that `Duration::from_millis` makes of a number of milliseconds.
pub uninterp spec fn duration_of_millis(millis: u64) -> Duration;

/// `Duration::from_millis` of the standard library. Assumed: the result
/// depends on the argument alone.
pub assume_specification[ Duration::from_millis ](millis: u64) -> (duration: Duration)
    ensures
        duration == duration_of_millis(millis),
;

/// The poll interval used when none is configured: one second.
pub fn default_poll_interval() -> (interval: Duration)
    ensures
        interval == duration_of_millis(DEFAULT_WATCH_POLL_INTERVAL_MILLIS),
{
    Duration::from_millis(DEFAULT_WATCH_POLL_INTERVAL_MILLIS)
}

/// What a client sees of the watch folder.
#[derive(Debug, Clone)]
pub struct WatchFolderStatus {
    pub is_running: bool,
    pub inbox_directory_path: Option<String>,
    pub jobs_root_directory_path: Option<String>,
    pub last_error_message: Option<String>,
}

/// Where a poller looks for bundles, where it creates job roots, and how long
/// it sleeps between ticks.
#[derive(Debug)]
pub struct WatchFolderConfig {
    pub inbox_directory_path: String,
    pub jobs_root_directory_path: String,
    pub poll_interval: Duration,
}

impl Clone for WatchFolderConfig {
    fn clone(&self) -> (copy: Self)
        ensures
            copy == *self,
    {
        WatchFolderConfig {
            inbox_directory_path: self.inbox_directory_path.clone(),
            jobs_root_directory_path: self.jobs_root_directory_path.clone(),
            poll_interval: self.poll_interval,
        }
    }
}

/// A watch-folder status as plain values.
pub struct WatchFolderView {
    pub is_running: bool,
    pub inbox_directory_path: Option<Seq<char>>,
    pub jobs_root_directory_path: Option<Seq<char>>,
    pub last_error_message: Option<Seq<char>>,
}

impl View for WatchFolderStatus {
    type V = WatchFolderView;

    open spec fn view(&self) -> WatchFolderView {
        WatchFolderView {
            is_running: self.is_running,
            inbox_directory_path: opt_view(self.inbox_directory_path),
            jobs_root_directory_path: opt_view(self.jobs_root_directory_path),
            last_error_message: opt_view(self.last_error_message),
        }
    }
}

/// The state of one watcher. `T` is whatever the caller needs to stop and
/// join the poller thread.
pub struct WatchFolderRuntimeState<T> {
    running_thread: Option<T>,
    inbox_directory_path: Option<String>,
    jobs_root_directory_path: Option<String>,
    last_error_message: Option<String>,
}

impl<T> WatchFolderRuntimeState<T> {
    /// The poller thread, while one runs.
    pub closed spec fn running_thread(&self) -> Option<T> {
        self.running_thread
    }

    /// What a status query reports of this state.
    pub closed spec fn view(&self) -> WatchFolderView {
        WatchFolderView {
            is_running: self.running_thread is Some,
            inbox_directory_path: opt_view(self.inbox_directory_path),
            jobs_root_directory_path: opt_view(self.jobs_root_directory_path),
            last_error_message: opt_view(self.last_error_message),
        }
    }

    /// A poller runs exactly when the state holds its thread.
    pub proof fn lemma_running_iff_thread(&self)
        ensures
            self@.is_running == (self.running_thread() is Some),
    {
    }

    /// Whether a poller runs.
    pub fn is_running(&self) -> (running: bool)
        ensures
            running == self@.is_running,
    {
        self.running_thread.is_some()
    }
}

/// The status reported when the state cannot be read.
pub open spec fn unreadable_status() -> WatchFolderView {
    WatchFolderView {
        is_running: false,
        inbox_directory_path: None,
        jobs_root_directory_path: None,
        last_error_message: Some("Watch folder state lock poisoned"@),
    }
}

/// The state of a watcher that was never started.
pub open spec fn initial_state() -> WatchFolderView {
    WatchFolderView {
        is_running: false,
        inbox_directory_path: None,
        jobs_root_directory_path: None,
        last_error_message: None,
    }
}

/// The state of a watcher that has never run.
pub fn new_shared_watch_folder_state<T>() -> (state: WatchFolderRuntimeState<T>)
    ensures
        state@ == initial_state(),
        state.running_thread() is None,
{
    WatchFolderRuntimeState {
        running_thread: None,
        inbox_directory_path: None,
        jobs_root_directory_path: None,
        last_error_message: None,
    }
}

/// The status of a watcher. `None` stands for a state that cannot be read
/// because a holder of its lock panicked.
pub fn get_watch_folder_status<T>(state: Option<&WatchFolderRuntimeState<T>>) -> (status:
    WatchFolderStatus)
    ensures
        status@ == match state {
            Some(s) => s@,
            None => unreadable_status(),
        },
{
    match state {
        None => WatchFolderStatus {
            is_running: false,
            inbox_directory_path: None,
            jobs_root_directory_path: None,
            last_error_message: Some(String::from_str("Watch folder state lock poisoned")),
        },
        Some(s) => WatchFolderStatus {
            is_running: s.running_thread.is_some(),
            inbox_directory_path: clone_opt_text(&s.inbox_directory_path),
            jobs_root_directory_path: clone_opt_text(&s.jobs_root_directory_path),
            last_error_message: clone_opt_text(&s.last_error_message),
        },
    }
}

/// Why `config` cannot be used to start a watcher, if it cannot: it must name
/// both directories.
pub open spec fn config_refusal(config: WatchFolderConfig) -> Option<Seq<char>> {
    if config.inbox_directory_path@.len() == 0 {
        Some("inbox_directory_path is empty"@)
    } else if config.jobs_root_directory_path@.len() == 0 {
        Some("jobs_root_directory_path is empty"@)
    } else {
        None
    }
}

/// Why a start request with `config` is refused by a watcher in state
/// `state`, if it is: the configuration cannot be used, or a poller runs.
pub open spec fn start_refusal(state: WatchFolderView, config: WatchFolderConfig) -> Option<
    Seq<char>,
> {
    if config_refusal(config) is Some {
        config_refusal(config)
    } else if state.is_running {
        Some("Watch folder is already running."@)
    } else {
        None
    }
}

/// Tells whether `config` can be used to start a watcher, whatever state the
/// watcher is in.
pub fn check_watch_folder_config(config: &WatchFolderConfig) -> (checked: Result<(), String>)
    ensures
        result_view(checked) == match config_refusal(*config) {
            Some(reason) => Err(reason),
            None => Ok(()),
        },
{
    if config.inbox_directory_path.as_str().is_empty() {
        return Err(String::from_str("inbox_directory_path is empty"));
    }
    if config.jobs_root_directory_path.as_str().is_empty() {
        return Err(String::from_str("jobs_root_directory_path is empty"));
    }
    Ok(())
}

/// The state of a watcher right after it was started with `config`.
pub open spec fn started_state(config: WatchFolderConfig) -> WatchFolderView {
    WatchFolderView {
        is_running: true,
        inbox_directory_path: Some(config.inbox_directory_path@),
        jobs_root_directory_path: Some(config.jobs_root_directory_path@),
        last_error_message: None,
    }
}

/// Starts the watcher: unless the request is refused, `spawn_poller` is
/// called once and the thread it returns is recorded. A refused request
/// leaves the state as it is and spawns nothing.
pub fn start_watch_folder<T, F: FnOnce() -> T>(
    state: &mut WatchFolderRuntimeState<T>,
    config: &WatchFolderConfig,
    spawn_poller: F,
) -> (outcome: Result<(), String>)
    requires
        start_refusal(old(state)@, *config) is None ==> spawn_poller.requires(()),
    ensures
        match outcome {
            Ok(()) => {
                &&& start_refusal(old(state)@, *config) is None
                &&& final(state)@ == started_state(*config)
                &&& final(state).running_thread() is Some
                &&& spawn_poller.ensures((), final(state).running_thread()->0)
            },
            Err(message) => {
                &&& start_refusal(old(state)@, *config) == Some(message@)
                &&& *final(state) == *old(state)
            },
        },
{
    match check_watch_folder_config(config) {
        Err(reason) => {
            return Err(reason);
        },
        Ok(()) => {},
    }
    if state.running_thread.is_some() {
        return Err(String::from_str("Watch folder is already running."));
    }
    state.inbox_directory_path = Some(config.inbox_directory_path.clone());
    state.jobs_root_directory_path = Some(config.jobs_root_directory_path.clone());
    state.last_error_message = None;
    state.running_thread = Some(spawn_poller());
    Ok(())
}

/// The state of a watcher after it was stopped.
pub open spec fn stopped_state(state: WatchFolderView) -> WatchFolderView {
    WatchFolderView { is_running: false, ..state }
}

/// Stops the watcher and hands back its thread, to be signalled and joined
/// by the caller. On a stopped watcher nothing changes.
pub fn stop_watch_folder<T>(state: &mut WatchFolderRuntimeState<T>) -> (thread: Option<T>)
    ensures
        thread == old(state).running_thread(),
        final(state).running_thread() is None,
        final(state)@ == stopped_state(old(state)@),
{
    state.running_thread.take()
}

/// Records the outcome of one poll tick: an error replaces the last error
/// message, a success leaves it. The watcher keeps running either way.
pub fn record_poll_result<T>(state: &mut WatchFolderRuntimeState<T>, result: Result<(), String>)
    ensures
        final(state).running_thread() == old(state).running_thread(),
        final(state)@ == match result {
            Ok(()) => old(state)@,
            Err(message) => (WatchFolderView { last_error_message: Some(message@), ..old(state)@ }),
        },
{
    match result {
        Ok(()) => {},
        Err(message) => {
            state.last_error_message = Some(message);
        },
    }
}

/// Stopping twice is the same as stopping once, stopping a stopped watcher
/// changes nothing, and a stopped watcher accepts any start whose two
/// directories are named.
pub proof fn lemma_stop_is_idempotent(state: WatchFolderView, config: WatchFolderConfig)
    ensures
        stopped_state(stopped_state(state)) == stopped_state(state),
        !state.is_running ==> stopped_state(state) == state,
        start_refusal(stopped_state(state), config) is None <==> config.inbox_directory_path@.len()
            > 0 && config.jobs_root_directory_path@.len() > 0,
{
}

} // verus!
