//! Where the files of a job root and of a repository are.
//!
//! A path is given by its parts: what is pushed, one part after the other,
//! onto an empty path to make it. The parts hold no separator of their own
//! making, so that the same parts name the same file whatever a platform
//! writes between them. The first part is the directory that the caller
//! named; a part that is itself an absolute path replaces what stands before
//! it, as it does when it is pushed onto a path.

use vstd::prelude::*;
use vstd::string::*;
use crate::layout::{
    PreviewLocation, PreviewLocationView, DEFAULT_INPUT_DIRECTORY_NAME,
    DEFAULT_JOB_SETTINGS_DIRECTORY_NAME, DEFAULT_JOB_SETTINGS_FILENAME,
    DEFAULT_OUTPUT_DIRECTORY_NAME, DEFAULT_QUEUE_DATABASE_FILENAME,
    DEFAULT_WATCH_JOBS_DIRECTORY_NAME, DEFAULT_WATCH_JOB_STATE_FILENAME,
};
use crate::settings::JobSettings;
use crate::text::views;

verus! {

/// The file that describes the services of a repository.
pub const COMPOSE_FILENAME: &'static str = "compose.yaml";

/// The directory under the output directory that holds rendered pages.
pub const WORK_DIRECTORY_NAME: &'static str = "work";

fn two_parts(first: &str, second: &str) -> (path: Vec<String>)
    ensures
        views(path@) == seq![first@, second@],
{
    let mut path: Vec<String> = Vec::new();
    path.push(first.to_owned());
    path.push(second.to_owned());
    assert(views(path@) =~= seq![first@, second@]);
    path
}

fn three_parts(first: &str, second: &str, third: &str) -> (path: Vec<String>)
    ensures
        views(path@) == seq![first@, second@, third@],
{
    let mut path: Vec<String> = Vec::new();
    path.push(first.to_owned());
    path.push(second.to_owned());
    path.push(third.to_owned());
    assert(views(path@) =~= seq![first@, second@, third@]);
    path
}

/// The directory that holds the settings of a job root.
pub fn job_settings_directory_path(job_root_directory_path: &str) -> (path: Vec<String>)
    ensures
        views(path@) == seq![job_root_directory_path@, DEFAULT_JOB_SETTINGS_DIRECTORY_NAME@],
{
    two_parts(job_root_directory_path, DEFAULT_JOB_SETTINGS_DIRECTORY_NAME)
}

/// The file that holds the settings of a job root.
pub fn job_settings_file_path(job_root_directory_path: &str) -> (path: Vec<String>)
    ensures
        views(path@) == seq![
            job_root_directory_path@,
            DEFAULT_JOB_SETTINGS_DIRECTORY_NAME@,
            DEFAULT_JOB_SETTINGS_FILENAME@,
        ],
{
    three_parts(
        job_root_directory_path,
        DEFAULT_JOB_SETTINGS_DIRECTORY_NAME,
        DEFAULT_JOB_SETTINGS_FILENAME,
    )
}

/// The file that holds the task queue of a job root.
pub fn get_queue_database_path(job_root_directory_path: &str) -> (path: Vec<String>)
    ensures
        views(path@) == seq![job_root_directory_path@, DEFAULT_QUEUE_DATABASE_FILENAME@],
{
    two_parts(job_root_directory_path, DEFAULT_QUEUE_DATABASE_FILENAME)
}

/// The file that holds the lifecycle record of the job of a job root.
pub fn job_state_file_path(job_root_directory_path: &str) -> (path: Vec<String>)
    ensures
        views(path@) == seq![job_root_directory_path@, DEFAULT_WATCH_JOB_STATE_FILENAME@],
{
    two_parts(job_root_directory_path, DEFAULT_WATCH_JOB_STATE_FILENAME)
}

/// The directory that holds the inputs of a job root.
pub fn job_input_directory_path(job_root_directory_path: &str) -> (path: Vec<String>)
    ensures
        views(path@) == seq![job_root_directory_path@, DEFAULT_INPUT_DIRECTORY_NAME@],
{
    two_parts(job_root_directory_path, DEFAULT_INPUT_DIRECTORY_NAME)
}

/// The directory that holds the work files of a job root.
pub fn job_output_directory_path(job_root_directory_path: &str) -> (path: Vec<String>)
    ensures
        views(path@) == seq![job_root_directory_path@, DEFAULT_OUTPUT_DIRECTORY_NAME@],
{
    two_parts(job_root_directory_path, DEFAULT_OUTPUT_DIRECTORY_NAME)
}

/// The file that describes the services of the repository at `repo_root`.
pub fn compose_file_path(repo_root: &str) -> (path: Vec<String>)
    ensures
        views(path@) == seq![repo_root@, COMPOSE_FILENAME@],
{
    two_parts(repo_root, COMPOSE_FILENAME)
}

/// The directory under which the watch folder creates job roots where the
/// caller names none: `jobs` under the inbox.
pub fn default_watch_jobs_root(inbox_directory_path: &str) -> (path: Vec<String>)
    ensures
        views(path@) == seq![inbox_directory_path@, DEFAULT_WATCH_JOBS_DIRECTORY_NAME@],
{
    two_parts(inbox_directory_path, DEFAULT_WATCH_JOBS_DIRECTORY_NAME)
}

/// The job root of the job `job_id` of the watch folder.
pub fn watch_job_root(jobs_root_directory_path: &str, job_id: &str) -> (path: Vec<String>)
    ensures
        views(path@) == seq![jobs_root_directory_path@, job_id@],
{
    two_parts(jobs_root_directory_path, job_id)
}

/// The path of a preview image found at `location` for a job root.
pub open spec fn preview_parts(job_root: Seq<char>, location: PreviewLocationView) -> Seq<Seq<char>> {
    match location {
        PreviewLocationView::UnderInput(relative) => seq![
            job_root,
            DEFAULT_INPUT_DIRECTORY_NAME@,
            relative,
        ],
        PreviewLocationView::AtSource(path) => seq![path],
        PreviewLocationView::UnderWork(name) => seq![
            job_root,
            DEFAULT_OUTPUT_DIRECTORY_NAME@,
            WORK_DIRECTORY_NAME@,
            name,
        ],
    }
}

/// The path of a preview image found at `location` for the job root at
/// `job_root_directory_path`.
pub fn preview_image_path(job_root_directory_path: &str, location: &PreviewLocation) -> (path: Vec<
    String,
>)
    ensures
        views(path@) == preview_parts(job_root_directory_path@, location@),
{
    match location {
        PreviewLocation::UnderInput(relative) => three_parts(
            job_root_directory_path,
            DEFAULT_INPUT_DIRECTORY_NAME,
            relative.as_str(),
        ),
        PreviewLocation::AtSource(source) => {
            let mut path: Vec<String> = Vec::new();
            path.push(source.clone());
            assert(views(path@) =~= seq![source@]);
            path
        },
        PreviewLocation::UnderWork(name) => {
            let mut path = three_parts(
                job_root_directory_path,
                DEFAULT_OUTPUT_DIRECTORY_NAME,
                WORK_DIRECTORY_NAME,
            );
            let ghost before = views(path@);
            path.push(name.clone());
            assert(views(path@) =~= before.push(name@));
            path
        },
    }
}

/// The output file of the last run of a job root, if its settings name one:
/// the file to look for when a job has exited.
pub fn detect_last_output_markdown_path(job_root_directory_path: &str, settings: &JobSettings) -> (path:
    Option<Vec<String>>)
    ensures
        match path {
            Some(parts) => settings@.last_output_markdown_filename is Some && views(parts@)
                == seq![job_root_directory_path@, settings@.last_output_markdown_filename->0],
            None => settings@.last_output_markdown_filename is None,
        },
{
    match &settings.last_output_markdown_filename {
        Some(filename) => Some(two_parts(job_root_directory_path, filename.as_str())),
        None => None,
    }
}

} // verus!
