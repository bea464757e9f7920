//! Runtime for long-running batch jobs started from a controlling process:
//! a registry that allows one job per work directory, bounded log buffers,
//! progress derived from an externally owned task queue, and a watch folder
//! whose bundles are claimed through marker files.

pub mod bundle;
pub mod clock;
pub mod command;
pub mod decimal;
pub mod document;
pub mod job_state;
pub mod layout;
pub mod log_buffer;
pub mod naming;
pub mod paths;
pub mod poll;
pub mod progress;
pub mod registry;
pub mod root_map;
pub mod runtime;
pub mod scan;
pub mod settings;
pub mod text;
pub mod watch_folder;
