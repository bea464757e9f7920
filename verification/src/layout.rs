//! What a job root holds and what may be copied into it.
//!
//! The functions here judge what a caller found on disk; they read nothing
//! themselves. A `PathProbe` carries what was found at a path.

use vstd::prelude::*;
use vstd::string::*;
use crate::bundle::{is_marker_filename, marker_name, Marker};
use crate::decimal::{decimal_text, signed_to_decimal, unsigned_to_decimal};
use crate::naming::{copy_name, sanitize_filename_for_copy};
use crate::progress::TaskRow;
use crate::scan::{has_prefix, lowercase_of, strip_prefix, trim, trimmed};
use crate::text::{joined, opt_str_view, opt_view, result_view, str_eq};

verus! {

/// The file that holds the task queue of a job root.
pub const DEFAULT_QUEUE_DATABASE_FILENAME: &'static str = "queue.sqlite3";

/// The directory of a job root that holds its inputs.
pub const DEFAULT_INPUT_DIRECTORY_NAME: &'static str = "input";

/// The directory of a job root that holds the engine's work files.
pub const DEFAULT_OUTPUT_DIRECTORY_NAME: &'static str = "output";

/// The directory of a job root that holds its settings.
pub const DEFAULT_JOB_SETTINGS_DIRECTORY_NAME: &'static str = ".ocr-agent";

/// The file that holds the settings of a job root.
pub const DEFAULT_JOB_SETTINGS_FILENAME: &'static str = "job.json";

/// The file that holds the lifecycle record of a job.
pub const DEFAULT_WATCH_JOB_STATE_FILENAME: &'static str = "job_state.json";

/// The directory of an inbox under which job roots are created by default.
pub const DEFAULT_WATCH_JOBS_DIRECTORY_NAME: &'static str = "jobs";

/// The largest preview image that is read into memory, in bytes.
pub const MAX_PREVIEW_IMAGE_BYTES: u64 = 8_000_000;

/// What was found at a path.
#[derive(Clone, Copy, Debug, PartialEq, Eq, Structural)]
pub struct PathProbe {
    pub exists: bool,
    pub is_directory: bool,
    pub is_file: bool,
}

/// Why a path cannot serve as a job root, if it cannot.
pub open spec fn job_root_refusal(path: Seq<char>, probe: PathProbe) -> Option<Seq<char>> {
    if path.len() == 0 {
        Some("job_root_directory_path is empty"@)
    } else if !probe.exists {
        Some("Selected output directory does not exist."@)
    } else if !probe.is_directory {
        Some("Selected output path is not a directory."@)
    } else {
        None
    }
}

/// The directories that every job root holds.
pub open spec fn job_root_directories() -> Seq<Seq<char>> {
    seq![
        DEFAULT_INPUT_DIRECTORY_NAME@,
        DEFAULT_OUTPUT_DIRECTORY_NAME@,
        DEFAULT_JOB_SETTINGS_DIRECTORY_NAME@,
    ]
}

/// The view of a list of static names.
pub open spec fn name_views(names: Seq<&'static str>) -> Seq<Seq<char>> {
    names.map_values(|name: &'static str| name@)
}

/// Judges whether `job_root_directory_path` can serve as a job root, given
/// what was found there. Where it can, the directories to create under it
/// are handed back; where it cannot, the reason.
pub fn ensure_job_directory_layout(job_root_directory_path: &str, probe: &PathProbe) -> (layout:
    Result<Vec<&'static str>, String>)
    ensures
        match layout {
            Ok(directories) => job_root_refusal(job_root_directory_path@, *probe) is None
                && name_views(directories@) == job_root_directories(),
            Err(reason) => job_root_refusal(job_root_directory_path@, *probe) == Some(reason@),
        },
{
    if job_root_directory_path.is_empty() {
        return Err(String::from_str("job_root_directory_path is empty"));
    }
    if !probe.exists {
        return Err(String::from_str("Selected output directory does not exist."));
    }
    if !probe.is_directory {
        return Err(String::from_str("Selected output path is not a directory."));
    }
    let mut directories: Vec<&'static str> = Vec::new();
    directories.push(DEFAULT_INPUT_DIRECTORY_NAME);
    directories.push(DEFAULT_OUTPUT_DIRECTORY_NAME);
    directories.push(DEFAULT_JOB_SETTINGS_DIRECTORY_NAME);
    assert(name_views(directories@) =~= job_root_directories());
    Ok(directories)
}

/// Why a directory cannot be copied, if it cannot.
pub open spec fn copy_source_refusal(path: Seq<char>, probe: PathProbe) -> Option<Seq<char>> {
    if !probe.exists {
        Some("Input directory does not exist: "@ + path)
    } else if !probe.is_directory {
        Some("Not a directory: "@ + path)
    } else {
        None
    }
}

/// Judges whether the directory at `source_directory_path` can be copied,
/// given what was found there.
pub fn check_copy_source(source_directory_path: &str, probe: &PathProbe) -> (checked: Result<
    (),
    String,
>)
    ensures
        result_view(checked) == match copy_source_refusal(source_directory_path@, *probe) {
            Some(reason) => Err(reason),
            None => Ok(()),
        },
{
    if !probe.exists {
        return Err(joined("Input directory does not exist: ", source_directory_path));
    }
    if !probe.is_directory {
        return Err(joined("Not a directory: ", source_directory_path));
    }
    Ok(())
}

/// Whether an entry found while walking a directory is copied: directories
/// are not copied themselves, and marker files are left behind where
/// `without_markers` says so.
pub fn should_copy_entry(is_directory: bool, file_name: &str, without_markers: bool) -> (copy: bool)
    ensures
        copy == (!is_directory && !(without_markers && exists|marker: Marker|
            file_name@ == #[trigger] marker_name(marker))),
{
    if is_directory {
        return false;
    }
    if without_markers && is_marker_filename(file_name) {
        return false;
    }
    true
}

/// What to do with a path that was dropped on a job root.
#[derive(Debug, Clone)]
pub enum DroppedInput {
    /// Copy the file into the input directory under the given name.
    File(String),
    /// Copy the directory and all it holds into the input directory under
    /// the given name.
    Directory(String),
}

/// `DroppedInput` as plain values.
pub enum DroppedInputView {
    File(Seq<char>),
    Directory(Seq<char>),
}

impl View for DroppedInput {
    type V = DroppedInputView;

    open spec fn view(&self) -> DroppedInputView {
        match *self {
            DroppedInput::File(name) => DroppedInputView::File(name@),
            DroppedInput::Directory(name) => DroppedInputView::Directory(name@),
        }
    }
}

/// What to do with the dropped path `path`, whose last component is
/// `file_name`, given what was found there: a file or a directory is copied
/// under its name made safe, `input_file` or `input_directory` where it has
/// no name; a path that does not exist or is neither is an error.
pub open spec fn dropped_input_plan(
    path: Seq<char>,
    file_name: Option<Seq<char>>,
    probe: PathProbe,
) -> Result<DroppedInputView, Seq<char>> {
    if !probe.exists {
        Err("Dropped path does not exist: "@ + path)
    } else if probe.is_file {
        Ok(
            DroppedInputView::File(
                match file_name {
                    Some(name) => copy_name(name),
                    None => "input_file"@,
                },
            ),
        )
    } else if probe.is_directory {
        Ok(
            DroppedInputView::Directory(
                match file_name {
                    Some(name) => copy_name(name),
                    None => "input_directory"@,
                },
            ),
        )
    } else {
        Err("Unsupported dropped path type: "@ + path)
    }
}

/// The view of a plan for a dropped path.
pub open spec fn plan_view(plan: Result<DroppedInput, String>) -> Result<DroppedInputView, Seq<char>> {
    match plan {
        Ok(input) => Ok(input@),
        Err(reason) => Err(reason@),
    }
}

/// Decides what to do with a path that was dropped on a job root.
pub fn plan_dropped_input(path: &str, file_name: Option<&str>, probe: &PathProbe) -> (plan: Result<
    DroppedInput,
    String,
>)
    ensures
        plan_view(plan) == dropped_input_plan(path@, opt_str_view(file_name), *probe),
{
    if !probe.exists {
        return Err(joined("Dropped path does not exist: ", path));
    }
    if probe.is_file {
        let name = match file_name {
            Some(name) => sanitize_filename_for_copy(name),
            None => String::from_str("input_file"),
        };
        return Ok(DroppedInput::File(name));
    }
    if probe.is_directory {
        let name = match file_name {
            Some(name) => sanitize_filename_for_copy(name),
            None => String::from_str("input_directory"),
        };
        return Ok(DroppedInput::Directory(name));
    }
    Err(joined("Unsupported dropped path type: ", path))
}

/// Where the image of a task is found.
#[derive(Debug, Clone)]
pub enum PreviewLocation {
    /// Under the input directory of the job root, at the given relative path.
    UnderInput(String),
    /// At the given path, as the queue names it.
    AtSource(String),
    /// Under the `work` directory of the output directory, in the given file.
    UnderWork(String),
}

/// `PreviewLocation` as plain values.
pub enum PreviewLocationView {
    UnderInput(Seq<char>),
    AtSource(Seq<char>),
    UnderWork(Seq<char>),
}

impl View for PreviewLocation {
    type V = PreviewLocationView;

    open spec fn view(&self) -> PreviewLocationView {
        match *self {
            PreviewLocation::UnderInput(path) => PreviewLocationView::UnderInput(path@),
            PreviewLocation::AtSource(path) => PreviewLocationView::AtSource(path@),
            PreviewLocation::UnderWork(name) => PreviewLocationView::UnderWork(name@),
        }
    }
}

/// The view of an optional location.
pub open spec fn opt_location_view(location: Option<PreviewLocation>) -> Option<PreviewLocationView> {
    match location {
        Some(l) => Some(l@),
        None => None,
    }
}

/// The work file that holds the rendered page `pdf_page_index` of the PDF
/// task `task_id`. Pages are numbered from 1 in file names.
pub open spec fn page_image_name(task_id: i64, pdf_page_index: i64) -> Seq<char> {
    "pdf_"@ + decimal_text(task_id as int) + "_page_"@ + decimal_text(pdf_page_index + 1)
        + ".png"@
}

/// Where the image of `task` is found, given the task's kind in lowercase.
///
/// An image task shows its source: a source inside the container's input
/// directory is found under the job root's input directory, any other where
/// the queue says. A PDF page task shows the rendered page, if the task
/// names its page. Other tasks have no image.
pub open spec fn preview_location(task: TaskRow, kind_lowercase: Seq<char>) -> Option<
    PreviewLocationView,
> {
    if kind_lowercase == "image"@ {
        if has_prefix(task.source_path@, "/data/input/"@) {
            Some(
                PreviewLocationView::UnderInput(task.source_path@.skip("/data/input/"@.len() as int)),
            )
        } else {
            Some(PreviewLocationView::AtSource(task.source_path@))
        }
    } else if kind_lowercase != "pdf_page"@ {
        None
    } else {
        match task.pdf_page_index {
            Some(index) => Some(PreviewLocationView::UnderWork(page_image_name(task.task_id, index))),
            None => None,
        }
    }
}

/// Where the image of `task` is found, given the task's kind in lowercase.
pub fn preview_location_for(task: &TaskRow, kind_lowercase: &str) -> (location: Option<
    PreviewLocation,
>)
    ensures
        opt_location_view(location) == preview_location(*task, kind_lowercase@),
{
    if str_eq(kind_lowercase, "image") {
        return match strip_prefix(task.source_path.as_str(), "/data/input/") {
            Some(relative) => Some(PreviewLocation::UnderInput(relative)),
            None => Some(PreviewLocation::AtSource(task.source_path.clone())),
        };
    }
    if !str_eq(kind_lowercase, "pdf_page") {
        return None;
    }
    match task.pdf_page_index {
        Some(index) => {
            let mut name = String::from_str("pdf_");
            name.append(signed_to_decimal(task.task_id as i128).as_str());
            name.append("_page_");
            name.append(signed_to_decimal(index as i128 + 1).as_str());
            name.append(".png");
            Some(PreviewLocation::UnderWork(name))
        },
        None => None,
    }
}

/// Where the image of `task` is found. The kind of the task counts in any
/// letter case.
pub fn resolve_preview_image_path_for_task(task: &TaskRow) -> (location: Option<PreviewLocation>)
    ensures
        opt_location_view(location) == preview_location(*task, lowercase_of(task.task_kind@)),
{
    let kind_lowercase = task.task_kind.as_str().to_lowercase();
    preview_location_for(task, kind_lowercase.as_str())
}

/// Whether a preview image is read, given what was found at its path and
/// its length in bytes: an image that is not there yet, or is no file, is
/// not read, which is no error; one that is too large is refused.
pub open spec fn preview_read(probe: PathProbe, length: u64) -> Result<bool, Seq<char>> {
    if !probe.exists || !probe.is_file {
        Ok(false)
    } else if length > MAX_PREVIEW_IMAGE_BYTES {
        Err(
            "Preview image is too large to load in GUI ("@ + decimal_text(length as int)
                + " bytes)."@,
        )
    } else {
        Ok(true)
    }
}

/// Decides whether a preview image is read.
pub fn check_preview_image(probe: &PathProbe, length: u64) -> (read: Result<bool, String>)
    ensures
        result_view(read) == preview_read(*probe, length),
{
    if !probe.exists || !probe.is_file {
        return Ok(false);
    }
    if length > MAX_PREVIEW_IMAGE_BYTES {
        let mut message = String::from_str("Preview image is too large to load in GUI (");
        message.append(unsigned_to_decimal(length).as_str());
        message.append(" bytes).");
        return Err(message);
    }
    Ok(true)
}

/// A path without the prefix that marks it as verbatim: `\\?\C:\dir` stands
/// for `C:\dir`, and `\\?\UNC\host\share` for `\\host\share`. Other paths
/// stay as they are.
pub open spec fn without_verbatim_prefix(raw: Seq<char>) -> Seq<char> {
    if has_prefix(raw, "\\\\?\\"@) {
        let stripped = raw.skip("\\\\?\\"@.len() as int);
        if has_prefix(stripped, "UNC\\"@) {
            "\\\\"@ + stripped.skip("UNC\\"@.len() as int)
        } else {
            stripped
        }
    } else {
        raw
    }
}

/// A path as the container tool accepts it. On Windows the prefix that marks
/// a path as verbatim is taken off; elsewhere the path stays as it is.
pub fn normalize_windows_path_lossy(raw: &str, on_windows: bool) -> (path: String)
    ensures
        path@ == if on_windows {
            without_verbatim_prefix(raw@)
        } else {
            raw@
        },
{
    if !on_windows {
        return raw.to_owned();
    }
    match strip_prefix(raw, "\\\\?\\") {
        Some(stripped) => match strip_prefix(stripped.as_str(), "UNC\\") {
            Some(share) => joined("\\\\", share.as_str()),
            None => stripped,
        },
        None => raw.to_owned(),
    }
}

/// What was typed for a setting, without the white space around it; nothing
/// where nothing or only white space was typed.
pub open spec fn non_blank(typed: Option<Seq<char>>) -> Option<Seq<char>> {
    match typed {
        Some(text) => if trimmed(text).len() == 0 {
            None
        } else {
            Some(trimmed(text))
        },
        None => None,
    }
}

/// The directory that a setting names, where it names one: what was typed,
/// without the white space around it. The watch folder takes its inbox and
/// the directory for its job roots this way; where no directory for job
/// roots is named, they go to the default directory under the inbox.
pub fn configured_directory(typed: Option<&str>) -> (configured: Option<String>)
    ensures
        opt_view(configured) == non_blank(opt_str_view(typed)),
{
    match typed {
        Some(raw) => {
            let candidate = trim(raw);
            if candidate.as_str().is_empty() {
                None
            } else {
                Some(candidate)
            }
        },
        None => None,
    }
}

/// The repository root that the environment names: the value without the
/// white space around it. A value that is blank is an error.
pub fn configured_repo_root(value: &str) -> (root: Result<String, String>)
    ensures
        match root {
            Ok(path) => trimmed(value@).len() > 0 && path@ == trimmed(value@),
            Err(reason) => trimmed(value@).len() == 0 && reason@
                == "OCR_AGENT_REPO_ROOT is set but empty"@,
        },
{
    let candidate = trim(value);
    if candidate.as_str().is_empty() {
        return Err(String::from_str("OCR_AGENT_REPO_ROOT is set but empty"));
    }
    Ok(candidate)
}

} // verus!
