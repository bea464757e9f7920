use ocr_job_runtime::naming::{
    default_markdown_filename_at, derive_compose_project_name, derive_compose_service_image_name,
    derive_default_unique_markdown_filename, derive_non_conflicting_destination_path,
    derive_watch_job_id, derive_watch_job_id_at, desired_output_filename_at,
    ensure_markdown_extension, infer_image_mime_type, markdown_filename_for, mime_type_for,
    sanitize_filename_for_copy, sanitize_output_markdown_filename, split_filename_and_extension,
    too_many_collisions_message, MAX_COPY_COLLISION_ATTEMPTS,
};

fn split(name: &str) -> (String, String) {
    split_filename_and_extension(name)
}

#[test]
fn split_before_the_last_dot() {
    assert_eq!(split("scan.png"), ("scan".to_string(), ".png".to_string()));
    assert_eq!(split("archive.tar.gz"), ("archive.tar".to_string(), ".gz".to_string()));
    assert_eq!(split("trailing."), ("trailing".to_string(), ".".to_string()));
    assert_eq!(split("é.ü"), ("é".to_string(), ".ü".to_string()));
}

#[test]
fn names_without_an_extension_are_not_split() {
    assert_eq!(split("README"), ("README".to_string(), String::new()));
    assert_eq!(split(".env"), (".env".to_string(), String::new()));
    assert_eq!(split(""), (String::new(), String::new()));
    assert_eq!(split("."), (".".to_string(), String::new()));
}

#[test]
fn hidden_files_with_an_extension_are_split_at_the_last_dot() {
    assert_eq!(split(".env.local"), (".env".to_string(), ".local".to_string()));
    assert_eq!(split(".."), (".".to_string(), ".".to_string()));
}

#[test]
fn copied_names_lose_separators_and_colons() {
    assert_eq!(sanitize_filename_for_copy("scan.png"), "scan.png");
    assert_eq!(sanitize_filename_for_copy("a/b\\c:d"), "a_b_c_d");
    assert_eq!(sanitize_filename_for_copy(" my file.pdf "), " my file.pdf ");
    assert_eq!(sanitize_filename_for_copy("C:\\scans\\1.png"), "C__scans_1.png");
}

#[test]
fn blank_copied_names_become_input() {
    assert_eq!(sanitize_filename_for_copy(""), "input");
    assert_eq!(sanitize_filename_for_copy("   "), "input");
    assert_eq!(sanitize_filename_for_copy("\t\n"), "input");
}

#[test]
fn output_names_are_trimmed_and_made_safe() {
    assert_eq!(sanitize_output_markdown_filename("result"), "result");
    assert_eq!(sanitize_output_markdown_filename("  my result.md  "), "my_result.md");
    assert_eq!(sanitize_output_markdown_filename("a/b\\c:d\ne\rf\tg h"), "a_b_c_d_e_f_g_h");
    assert_eq!(sanitize_output_markdown_filename("\u{3000}wide\u{a0}"), "wide");
}

#[test]
fn blank_output_names_become_output() {
    assert_eq!(sanitize_output_markdown_filename(""), "output");
    assert_eq!(sanitize_output_markdown_filename(" \t\r\n "), "output");
}

#[test]
fn markdown_extension_is_appended_where_missing() {
    assert_eq!(ensure_markdown_extension("notes"), "notes.md");
    assert_eq!(ensure_markdown_extension("notes.txt"), "notes.txt.md");
    assert_eq!(ensure_markdown_extension(""), ".md");
    assert_eq!(ensure_markdown_extension("md"), "md.md");
}

#[test]
fn markdown_extension_is_kept_in_any_letter_case() {
    assert_eq!(ensure_markdown_extension("notes.md"), "notes.md");
    assert_eq!(ensure_markdown_extension("NOTES.MD"), "NOTES.MD");
    assert_eq!(ensure_markdown_extension("notes.Markdown"), "notes.Markdown");
    assert_eq!(ensure_markdown_extension("notes.MARKDOWN"), "notes.MARKDOWN");
    assert_eq!(ensure_markdown_extension(".md"), ".md");
}

#[test]
fn markdown_extension_given_the_lowercase_form() {
    assert_eq!(markdown_filename_for("A.MD", "a.md"), "A.MD");
    assert_eq!(markdown_filename_for("A.MD", "A.MD"), "A.MD.md");
    assert_eq!(markdown_filename_for("a", "a.markdown"), "a");
    assert_eq!(markdown_filename_for("a.mdx", "a.mdx"), "a.mdx.md");
}

#[test]
fn default_output_name_holds_the_time() {
    assert_eq!(default_markdown_filename_at(1700000000123), "ocr_output_1700000000123.md");
    assert_eq!(default_markdown_filename_at(0), "ocr_output_0.md");
    assert_eq!(default_markdown_filename_at(-5), "ocr_output_-5.md");
}

#[test]
fn default_output_name_at_the_time_of_the_call() {
    let name = derive_default_unique_markdown_filename();
    assert!(name.starts_with("ocr_output_"));
    assert!(name.ends_with(".md"));
    let digits = &name["ocr_output_".len()..name.len() - ".md".len()];
    assert!(!digits.is_empty());
    assert!(digits.chars().all(|c| c.is_ascii_digit()));
}

#[test]
fn desired_output_name() {
    assert_eq!(desired_output_filename_at(None, 42), "ocr_output_42.md");
    assert_eq!(desired_output_filename_at(Some(" my notes "), 42), "my_notes.md");
    assert_eq!(desired_output_filename_at(Some("Report.MD"), 42), "Report.MD");
    assert_eq!(desired_output_filename_at(Some("  "), 42), "output.md");
}

#[test]
fn collision_candidates_count_up_from_two() {
    assert_eq!(derive_non_conflicting_destination_path("scan.png", 0), Some("scan.png".to_string()));
    assert_eq!(derive_non_conflicting_destination_path("scan.png", 1), Some("scan_2.png".to_string()));
    assert_eq!(derive_non_conflicting_destination_path("scan.png", 2), Some("scan_3.png".to_string()));
    assert_eq!(derive_non_conflicting_destination_path("scan.png", 999), Some("scan_1000.png".to_string()));
    assert_eq!(derive_non_conflicting_destination_path("README", 1), Some("README_2".to_string()));
    assert_eq!(derive_non_conflicting_destination_path(".env", 1), Some(".env_2".to_string()));
    assert_eq!(derive_non_conflicting_destination_path("a.tar.gz", 9), Some("a.tar_10.gz".to_string()));
}

#[test]
fn collision_candidates_run_out_after_a_thousand_names() {
    assert_eq!(MAX_COPY_COLLISION_ATTEMPTS, 1000);
    assert_eq!(derive_non_conflicting_destination_path("scan.png", 1000), None);
    assert_eq!(derive_non_conflicting_destination_path("scan.png", u32::MAX), None);
    assert_eq!(
        too_many_collisions_message("/jobs/a/input", "scan.png"),
        "Too many name collisions while copying into: /jobs/a/input (base name: scan.png)"
    );
}

#[test]
fn watch_job_id_is_the_time_and_the_safe_bundle_name() {
    assert_eq!(derive_watch_job_id_at(Some("scan 01"), 1700000000123), "1700000000123_scan_01");
    assert_eq!(derive_watch_job_id_at(Some("a/b\\c:d e"), 5), "5_a_b_c_d_e");
    assert_eq!(derive_watch_job_id_at(None, 5), "5_bundle");
    assert_eq!(derive_watch_job_id_at(Some(""), 5), "5_");
    assert_eq!(derive_watch_job_id_at(Some("tab\there"), 5), "5_tab\there");
}

#[test]
fn watch_job_id_at_the_time_of_the_call() {
    let id = derive_watch_job_id(Some("scan 01"));
    assert!(id.ends_with("_scan_01"));
    let digits = &id[..id.len() - "_scan_01".len()];
    assert!(!digits.is_empty());
    assert!(digits.chars().all(|c| c.is_ascii_digit()));
}

#[test]
fn compose_names() {
    assert_eq!(derive_compose_project_name(Some("ocr-agent")), "ocr-agent");
    assert_eq!(derive_compose_project_name(Some("my_repo")), "my_repo");
    assert_eq!(derive_compose_project_name(None), "ocr-agent");
    assert_eq!(derive_compose_service_image_name("ocr-agent", "ocr-agent"), "ocr-agent-ocr-agent:latest");
    assert_eq!(derive_compose_service_image_name("repo", "svc"), "repo-svc:latest");
}

#[test]
fn mime_types_by_extension() {
    assert_eq!(mime_type_for("png"), "image/png");
    assert_eq!(mime_type_for("jpg"), "image/jpeg");
    assert_eq!(mime_type_for("jpeg"), "image/jpeg");
    assert_eq!(mime_type_for("webp"), "image/webp");
    assert_eq!(mime_type_for("bmp"), "image/bmp");
    assert_eq!(mime_type_for("gif"), "image/gif");
    assert_eq!(mime_type_for("tiff"), "application/octet-stream");
    assert_eq!(mime_type_for(""), "application/octet-stream");
    assert_eq!(mime_type_for("PNG"), "application/octet-stream");
}

#[test]
fn mime_types_ignore_letter_case() {
    assert_eq!(infer_image_mime_type("PNG"), "image/png");
    assert_eq!(infer_image_mime_type("Jpg"), "image/jpeg");
    assert_eq!(infer_image_mime_type("JPEG"), "image/jpeg");
    assert_eq!(infer_image_mime_type("gif"), "image/gif");
    assert_eq!(infer_image_mime_type(""), "application/octet-stream");
    assert_eq!(infer_image_mime_type("pdf"), "application/octet-stream");
}
