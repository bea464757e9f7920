use std::path::PathBuf;

use ocr_job_runtime::layout::PreviewLocation;
use ocr_job_runtime::paths::{
    compose_file_path, default_watch_jobs_root, get_queue_database_path, job_input_directory_path,
    job_output_directory_path, job_settings_directory_path, job_settings_file_path,
    job_state_file_path, preview_image_path, watch_job_root, COMPOSE_FILENAME,
    WORK_DIRECTORY_NAME,
};

fn parts(items: &[&str]) -> Vec<String> {
    items.iter().map(|item| item.to_string()).collect()
}

fn pushed(path: Vec<String>) -> PathBuf {
    path.iter().collect()
}

#[test]
fn files_of_a_job_root() {
    assert_eq!(job_settings_directory_path("/jobs/a"), parts(&["/jobs/a", ".ocr-agent"]));
    assert_eq!(job_settings_file_path("/jobs/a"), parts(&["/jobs/a", ".ocr-agent", "job.json"]));
    assert_eq!(get_queue_database_path("/jobs/a"), parts(&["/jobs/a", "queue.sqlite3"]));
    assert_eq!(job_state_file_path("/jobs/a"), parts(&["/jobs/a", "job_state.json"]));
    assert_eq!(job_input_directory_path("/jobs/a"), parts(&["/jobs/a", "input"]));
    assert_eq!(job_output_directory_path("/jobs/a"), parts(&["/jobs/a", "output"]));
}

#[test]
fn files_of_a_repository_and_of_a_watch_folder() {
    assert_eq!(COMPOSE_FILENAME, "compose.yaml");
    assert_eq!(WORK_DIRECTORY_NAME, "work");
    assert_eq!(compose_file_path("/repo"), parts(&["/repo", "compose.yaml"]));
    assert_eq!(default_watch_jobs_root("/inbox"), parts(&["/inbox", "jobs"]));
    assert_eq!(watch_job_root("/inbox/jobs", "17_scan"), parts(&["/inbox/jobs", "17_scan"]));
}

#[test]
fn parts_pushed_onto_a_path_give_what_joining_gives() {
    let root = PathBuf::from("/jobs/a");
    assert_eq!(pushed(job_settings_file_path("/jobs/a")), root.join(".ocr-agent").join("job.json"));
    assert_eq!(pushed(job_state_file_path("/jobs/a")), root.join("job_state.json"));
    assert_eq!(pushed(get_queue_database_path("")), PathBuf::from("").join("queue.sqlite3"));
    assert_eq!(pushed(watch_job_root("/inbox/jobs/", "17_scan")), PathBuf::from("/inbox/jobs/").join("17_scan"));
}

#[test]
fn preview_images_under_the_job_root() {
    assert_eq!(
        preview_image_path("/jobs/a", &PreviewLocation::UnderInput("scans/p1.png".to_string())),
        parts(&["/jobs/a", "input", "scans/p1.png"])
    );
    assert_eq!(
        preview_image_path("/jobs/a", &PreviewLocation::UnderWork("pdf_3_page_1.png".to_string())),
        parts(&["/jobs/a", "output", "work", "pdf_3_page_1.png"])
    );
    assert_eq!(
        preview_image_path("/jobs/a", &PreviewLocation::AtSource("/mnt/x.png".to_string())),
        parts(&["/mnt/x.png"])
    );
    assert_eq!(
        pushed(preview_image_path("/jobs/a", &PreviewLocation::AtSource("/mnt/x.png".to_string()))),
        PathBuf::from("/mnt/x.png")
    );
}
