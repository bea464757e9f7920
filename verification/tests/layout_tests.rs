use ocr_job_runtime::layout::{
    check_copy_source, check_preview_image, configured_directory, configured_repo_root,
    ensure_job_directory_layout, normalize_windows_path_lossy, plan_dropped_input,
    preview_location_for, resolve_preview_image_path_for_task, should_copy_entry, DroppedInput,
    PathProbe, PreviewLocation, DEFAULT_INPUT_DIRECTORY_NAME, DEFAULT_JOB_SETTINGS_DIRECTORY_NAME,
    DEFAULT_JOB_SETTINGS_FILENAME, DEFAULT_OUTPUT_DIRECTORY_NAME, DEFAULT_QUEUE_DATABASE_FILENAME,
    DEFAULT_WATCH_JOBS_DIRECTORY_NAME, DEFAULT_WATCH_JOB_STATE_FILENAME, MAX_PREVIEW_IMAGE_BYTES,
};
use ocr_job_runtime::progress::TaskRow;

const MISSING: PathProbe = PathProbe { exists: false, is_directory: false, is_file: false };
const DIRECTORY: PathProbe = PathProbe { exists: true, is_directory: true, is_file: false };
const FILE: PathProbe = PathProbe { exists: true, is_directory: false, is_file: true };
const OTHER: PathProbe = PathProbe { exists: true, is_directory: false, is_file: false };

fn task(task_id: i64, kind: &str, source: &str, page: Option<i64>) -> TaskRow {
    TaskRow {
        task_id,
        status: "running".to_string(),
        error_message: None,
        task_kind: kind.to_string(),
        source_path: source.to_string(),
        pdf_page_index: page,
        pdf_total_pages: page.map(|_| 30),
    }
}

#[test]
fn names_of_the_layout() {
    assert_eq!(DEFAULT_QUEUE_DATABASE_FILENAME, "queue.sqlite3");
    assert_eq!(DEFAULT_INPUT_DIRECTORY_NAME, "input");
    assert_eq!(DEFAULT_OUTPUT_DIRECTORY_NAME, "output");
    assert_eq!(DEFAULT_JOB_SETTINGS_DIRECTORY_NAME, ".ocr-agent");
    assert_eq!(DEFAULT_JOB_SETTINGS_FILENAME, "job.json");
    assert_eq!(DEFAULT_WATCH_JOB_STATE_FILENAME, "job_state.json");
    assert_eq!(DEFAULT_WATCH_JOBS_DIRECTORY_NAME, "jobs");
    assert_eq!(MAX_PREVIEW_IMAGE_BYTES, 8_000_000);
}

#[test]
fn a_directory_can_serve_as_a_job_root() {
    assert_eq!(
        ensure_job_directory_layout("/jobs/a", &DIRECTORY),
        Ok(vec!["input", "output", ".ocr-agent"])
    );
}

#[test]
fn an_empty_job_root_path_is_refused() {
    assert_eq!(ensure_job_directory_layout("", &DIRECTORY), Err("job_root_directory_path is empty".to_string()));
    assert_eq!(ensure_job_directory_layout("", &MISSING), Err("job_root_directory_path is empty".to_string()));
}

#[test]
fn a_missing_job_root_is_refused() {
    assert_eq!(
        ensure_job_directory_layout("/jobs/a", &MISSING),
        Err("Selected output directory does not exist.".to_string())
    );
}

#[test]
fn a_job_root_that_is_a_file_is_refused() {
    assert_eq!(
        ensure_job_directory_layout("/jobs/a", &FILE),
        Err("Selected output path is not a directory.".to_string())
    );
}

#[test]
fn only_an_existing_directory_is_copied() {
    assert_eq!(check_copy_source("/in/b", &DIRECTORY), Ok(()));
    assert_eq!(check_copy_source("/in/b", &MISSING), Err("Input directory does not exist: /in/b".to_string()));
    assert_eq!(check_copy_source("/in/b", &FILE), Err("Not a directory: /in/b".to_string()));
}

#[test]
fn directories_are_walked_but_not_copied() {
    assert!(!should_copy_entry(true, "pages", false));
    assert!(!should_copy_entry(true, "pages", true));
    assert!(should_copy_entry(false, "page.png", false));
    assert!(should_copy_entry(false, "page.png", true));
}

#[test]
fn marker_files_stay_behind_when_a_bundle_is_copied() {
    for name in [".ready", ".processing", ".processed", ".failed"] {
        assert!(!should_copy_entry(false, name, true));
        assert!(should_copy_entry(false, name, false));
    }
    assert!(should_copy_entry(false, ".readme", true));
    assert!(should_copy_entry(false, "", true));
}

#[test]
fn a_dropped_file_is_copied_under_its_safe_name() {
    match plan_dropped_input("/home/u/a:b.png", Some("a:b.png"), &FILE) {
        Ok(DroppedInput::File(name)) => assert_eq!(name, "a_b.png"),
        _ => panic!("a file copy is expected"),
    }
    match plan_dropped_input("/", None, &FILE) {
        Ok(DroppedInput::File(name)) => assert_eq!(name, "input_file"),
        _ => panic!("a file copy is expected"),
    }
}

#[test]
fn a_dropped_directory_is_copied_under_its_safe_name() {
    match plan_dropped_input("/home/u/scans", Some("scans"), &DIRECTORY) {
        Ok(DroppedInput::Directory(name)) => assert_eq!(name, "scans"),
        _ => panic!("a directory copy is expected"),
    }
    match plan_dropped_input("/", None, &DIRECTORY) {
        Ok(DroppedInput::Directory(name)) => assert_eq!(name, "input_directory"),
        _ => panic!("a directory copy is expected"),
    }
    match plan_dropped_input("/home/u/ ", Some(" "), &DIRECTORY) {
        Ok(DroppedInput::Directory(name)) => assert_eq!(name, "input"),
        _ => panic!("a directory copy is expected"),
    }
}

#[test]
fn a_dropped_path_that_is_missing_or_odd_is_an_error() {
    match plan_dropped_input("/gone", Some("gone"), &MISSING) {
        Err(reason) => assert_eq!(reason, "Dropped path does not exist: /gone"),
        Ok(_) => panic!("an error is expected"),
    }
    match plan_dropped_input("/dev/null", Some("null"), &OTHER) {
        Err(reason) => assert_eq!(reason, "Unsupported dropped path type: /dev/null"),
        Ok(_) => panic!("an error is expected"),
    }
}

#[test]
fn the_image_of_an_image_task_is_its_source() {
    match resolve_preview_image_path_for_task(&task(3, "image", "/data/input/scans/p1.png", None)) {
        Some(PreviewLocation::UnderInput(relative)) => assert_eq!(relative, "scans/p1.png"),
        _ => panic!("a path under the input directory is expected"),
    }
    match resolve_preview_image_path_for_task(&task(3, "IMAGE", "/mnt/other/p1.png", None)) {
        Some(PreviewLocation::AtSource(path)) => assert_eq!(path, "/mnt/other/p1.png"),
        _ => panic!("the source path is expected"),
    }
    match resolve_preview_image_path_for_task(&task(3, "Image", "/data/input", None)) {
        Some(PreviewLocation::AtSource(path)) => assert_eq!(path, "/data/input"),
        _ => panic!("the source path is expected"),
    }
}

#[test]
fn the_image_of_a_pdf_page_task_is_the_rendered_page() {
    match resolve_preview_image_path_for_task(&task(12, "pdf_page", "/data/input/doc.pdf", Some(0))) {
        Some(PreviewLocation::UnderWork(name)) => assert_eq!(name, "pdf_12_page_1.png"),
        _ => panic!("a work file is expected"),
    }
    match resolve_preview_image_path_for_task(&task(7, "PDF_PAGE", "/data/input/doc.pdf", Some(41))) {
        Some(PreviewLocation::UnderWork(name)) => assert_eq!(name, "pdf_7_page_42.png"),
        _ => panic!("a work file is expected"),
    }
    match resolve_preview_image_path_for_task(&task(7, "pdf_page", "/data/input/doc.pdf", Some(i64::MAX))) {
        Some(PreviewLocation::UnderWork(name)) => assert_eq!(name, "pdf_7_page_9223372036854775808.png"),
        _ => panic!("a work file is expected"),
    }
    assert!(resolve_preview_image_path_for_task(&task(7, "pdf_page", "/data/input/doc.pdf", None)).is_none());
}

#[test]
fn other_tasks_have_no_image() {
    assert!(resolve_preview_image_path_for_task(&task(7, "pdf", "/data/input/doc.pdf", Some(1))).is_none());
    assert!(resolve_preview_image_path_for_task(&task(7, "", "/data/input/doc.pdf", None)).is_none());
    assert!(preview_location_for(&task(7, "image", "/data/input/a.png", None), "IMAGE").is_none());
}

#[test]
fn a_preview_is_read_only_if_it_is_a_file_of_moderate_size() {
    assert_eq!(check_preview_image(&FILE, 0), Ok(true));
    assert_eq!(check_preview_image(&FILE, 8_000_000), Ok(true));
    assert_eq!(check_preview_image(&MISSING, 10), Ok(false));
    assert_eq!(check_preview_image(&DIRECTORY, 10), Ok(false));
    assert_eq!(check_preview_image(&MISSING, 9_000_000), Ok(false));
    assert_eq!(
        check_preview_image(&FILE, 8_000_001),
        Err("Preview image is too large to load in GUI (8000001 bytes).".to_string())
    );
    assert_eq!(
        check_preview_image(&FILE, u64::MAX),
        Err("Preview image is too large to load in GUI (18446744073709551615 bytes).".to_string())
    );
}

#[test]
fn verbatim_prefixes_are_taken_off_on_windows() {
    assert_eq!(normalize_windows_path_lossy("\\\\?\\C:\\jobs\\a", true), "C:\\jobs\\a");
    assert_eq!(normalize_windows_path_lossy("\\\\?\\UNC\\host\\share\\a", true), "\\\\host\\share\\a");
    assert_eq!(normalize_windows_path_lossy("C:\\jobs\\a", true), "C:\\jobs\\a");
    assert_eq!(normalize_windows_path_lossy("\\\\?\\", true), "");
    assert_eq!(normalize_windows_path_lossy("UNC\\host", true), "UNC\\host");
    assert_eq!(normalize_windows_path_lossy("", true), "");
}

#[test]
fn paths_stay_as_they_are_elsewhere() {
    assert_eq!(normalize_windows_path_lossy("\\\\?\\C:\\jobs\\a", false), "\\\\?\\C:\\jobs\\a");
    assert_eq!(normalize_windows_path_lossy("/jobs/a", false), "/jobs/a");
}

#[test]
fn a_named_directory_is_trimmed() {
    assert_eq!(configured_directory(Some("  /jobs  ")), Some("/jobs".to_string()));
    assert_eq!(configured_directory(Some("/jobs")), Some("/jobs".to_string()));
    assert_eq!(configured_directory(Some("   ")), None);
    assert_eq!(configured_directory(Some("")), None);
    assert_eq!(configured_directory(None), None);
}

#[test]
fn a_configured_repo_root_must_not_be_blank() {
    assert_eq!(configured_repo_root(" /repo\n"), Ok("/repo".to_string()));
    assert_eq!(configured_repo_root(""), Err("OCR_AGENT_REPO_ROOT is set but empty".to_string()));
    assert_eq!(configured_repo_root(" \t"), Err("OCR_AGENT_REPO_ROOT is set but empty".to_string()));
}
