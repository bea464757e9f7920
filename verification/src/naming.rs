//! The names that the runtime gives to files and jobs.
//!
//! Names that come from a user or from a bundle are made safe to use as a
//! single path component; names that would collide with an existing file get
//! a numbered suffix before their extension.

use vstd::prelude::*;
use vstd::string::*;
use crate::clock::now_unix_timestamp_millis;
use crate::decimal::{decimal_text, i64_to_decimal, unsigned_to_decimal};
use crate::scan::{
    ends_with, find_last, has_suffix, is_blank, last_index_of, lemma_last_index_of,
    lowercase_of, replace_chars, replaced, text_of_range, trim, trimmed,
};
use crate::text::{chars_of, joined, opt_str_view, str_eq};

verus! {

/// How many names are tried for a file before giving up: the wanted name and
/// the names with the suffixes 2 to 1000.
pub const MAX_COPY_COLLISION_ATTEMPTS: u32 = 1000;

/// A file name split before its last dot: the stem, and the extension with
/// its dot. A name without a dot, or whose only dot is its first character,
/// has no extension.
pub open spec fn split_name(filename: Seq<char>) -> (Seq<char>, Seq<char>) {
    let dot = last_index_of(filename, '.');
    if dot <= 0 {
        (filename, Seq::empty())
    } else {
        (filename.take(dot), filename.skip(dot))
    }
}

/// The two parts of a split name make up the name, and an extension, where
/// there is one, starts with the only dot it holds and follows a stem that is
/// not empty.
pub proof fn lemma_split_name(filename: Seq<char>)
    ensures
        split_name(filename).0 + split_name(filename).1 == filename,
        split_name(filename).1.len() > 0 ==> {
            &&& split_name(filename).0.len() > 0
            &&& split_name(filename).1[0] == '.'
            &&& forall|k: int| 1 <= k < split_name(filename).1.len() ==> split_name(filename).1[k] != '.'
        },
{
    lemma_last_index_of(filename, '.');
    let dot = last_index_of(filename, '.');
    if dot <= 0 {
        assert(filename + Seq::<char>::empty() =~= filename);
    } else {
        assert(filename.take(dot) + filename.skip(dot) =~= filename);
    }
}

/// Splits a file name before its last dot into stem and extension.
pub fn split_filename_and_extension(filename: &str) -> (parts: (String, String))
    ensures
        parts.0@ == split_name(filename@).0,
        parts.1@ == split_name(filename@).1,
{
    let chars = chars_of(filename);
    proof {
        lemma_last_index_of(chars@, '.');
    }
    match find_last(&chars, '.') {
        Some(dot) => {
            if dot == 0 {
                (filename.to_owned(), String::new())
            } else {
                assert(chars@.take(dot as int) =~= chars@.subrange(0, dot as int));
                assert(chars@.skip(dot as int) =~= chars@.subrange(dot as int, chars@.len() as int));
                (text_of_range(&chars, 0, dot), text_of_range(&chars, dot, chars.len()))
            }
        },
        None => (filename.to_owned(), String::new()),
    }
}

/// The characters that cannot stand in the name of a copied file.
pub open spec fn copy_name_separators() -> Seq<char> {
    "\\/:"@
}

/// The characters that cannot stand in the name of an output file.
pub open spec fn output_name_separators() -> Seq<char> {
    "\\/:\n\r\t "@
}

/// The characters that cannot stand in a job id taken from a bundle's name.
pub open spec fn job_id_separators() -> Seq<char> {
    "\\/: "@
}

/// The name under which a file or directory is copied into a job root:
/// `input` for a blank name, else the name with every path separator and
/// colon replaced by an underscore.
pub open spec fn copy_name(candidate: Seq<char>) -> Seq<char> {
    if trimmed(candidate).len() == 0 {
        "input"@
    } else {
        replaced(candidate, copy_name_separators(), '_')
    }
}

/// The name under which a file or directory is copied into a job root.
pub fn sanitize_filename_for_copy(candidate_filename: &str) -> (name: String)
    ensures
        name@ == copy_name(candidate_filename@),
{
    if is_blank(candidate_filename) {
        return String::from_str("input");
    }
    replace_chars(candidate_filename, "\\/:", '_')
}

/// The output file name made of what a user typed: `output` for a blank
/// input, else the input without the white space around it and with every
/// path separator, colon, line break, tab and space replaced by an
/// underscore.
pub open spec fn output_name(user_input: Seq<char>) -> Seq<char> {
    if trimmed(user_input).len() == 0 {
        "output"@
    } else {
        replaced(trimmed(user_input), output_name_separators(), '_')
    }
}

/// The output file name made of what a user typed.
pub fn sanitize_output_markdown_filename(user_input: &str) -> (name: String)
    ensures
        name@ == output_name(user_input@),
{
    let trimmed_input = trim(user_input);
    if trimmed_input.as_str().is_empty() {
        return String::from_str("output");
    }
    replace_chars(trimmed_input.as_str(), "\\/:\n\r\t ", '_')
}

/// `filename` as the name of a Markdown file: unchanged where its lowercase
/// form `lowercase` ends with `.md` or `.markdown`, else with `.md` appended.
pub open spec fn with_markdown_extension(filename: Seq<char>, lowercase: Seq<char>) -> Seq<char> {
    if has_suffix(lowercase, ".md"@) || has_suffix(lowercase, ".markdown"@) {
        filename
    } else {
        filename + ".md"@
    }
}

/// `filename` as the name of a Markdown file, given its lowercase form.
pub fn markdown_filename_for(filename: &str, lowercase: &str) -> (name: String)
    ensures
        name@ == with_markdown_extension(filename@, lowercase@),
{
    if ends_with(lowercase, ".md") || ends_with(lowercase, ".markdown") {
        return filename.to_owned();
    }
    joined(filename, ".md")
}

/// `filename` as the name of a Markdown file: the extension `.md` is
/// appended unless the name has it, or `.markdown`, in any letter case.
pub fn ensure_markdown_extension(filename: &str) -> (name: String)
    ensures
        name@ == with_markdown_extension(filename@, lowercase_of(filename@)),
{
    let lowercase = filename.to_lowercase();
    markdown_filename_for(filename, lowercase.as_str())
}

/// The output file name used where the user chose none, at time `now`.
pub open spec fn default_markdown_name(now: i64) -> Seq<char> {
    "ocr_output_"@ + decimal_text(now as int) + ".md"@
}

/// The output file name used where the user chose none, at time `now` in
/// milliseconds since the Unix epoch.
pub fn default_markdown_filename_at(now: i64) -> (name: String)
    ensures
        name@ == default_markdown_name(now),
{
    let mut name = String::from_str("ocr_output_");
    name.append(i64_to_decimal(now).as_str());
    name.append(".md");
    name
}

/// The output file name used where the user chose none. It holds the time of
/// the call, so that two runs do not write to the same file.
pub fn derive_default_unique_markdown_filename() -> (name: String)
    ensures
        exists|now: i64| name@ == #[trigger] default_markdown_name(now),
{
    let now: i64 = now_unix_timestamp_millis();
    default_markdown_filename_at(now)
}

/// The output file name of a run at time `now`: the name the user chose, made
/// safe and given the Markdown extension, or else the default name.
pub open spec fn wanted_output_name(chosen: Option<Seq<char>>, now: i64) -> Seq<char> {
    match chosen {
        None => default_markdown_name(now),
        Some(name) => with_markdown_extension(output_name(name), lowercase_of(output_name(name))),
    }
}

/// The output file name of a run at time `now`: the name the user chose, made
/// safe and given the Markdown extension, or else the default name.
pub fn desired_output_filename_at(chosen: Option<&str>, now: i64) -> (name: String)
    ensures
        name@ == wanted_output_name(opt_str_view(chosen), now),
{
    match chosen {
        None => default_markdown_filename_at(now),
        Some(text) => {
            let safe = sanitize_output_markdown_filename(text);
            ensure_markdown_extension(safe.as_str())
        },
    }
}

/// The name tried for a file when `desired` is taken, with the suffix
/// `suffix_number` between stem and extension.
pub open spec fn suffixed_name(desired: Seq<char>, suffix_number: int) -> Seq<char> {
    split_name(desired).0 + "_"@ + decimal_text(suffix_number) + split_name(desired).1
}

/// The name to try for a file after `attempts_made` names were found taken:
/// first the wanted name, then the names with the suffixes 2, 3 and so on.
/// After `MAX_COPY_COLLISION_ATTEMPTS` names there is none left.
pub open spec fn destination_candidate(desired: Seq<char>, attempts_made: int) -> Option<Seq<char>> {
    if attempts_made <= 0 {
        Some(desired)
    } else if attempts_made < MAX_COPY_COLLISION_ATTEMPTS {
        Some(suffixed_name(desired, attempts_made + 1))
    } else {
        None
    }
}

/// The name to try for a file after `attempts_made` names were found taken.
pub fn derive_non_conflicting_destination_path(desired_filename: &str, attempts_made: u32) -> (candidate:
    Option<String>)
    ensures
        match candidate {
            Some(name) => destination_candidate(desired_filename@, attempts_made as int) == Some(
                name@,
            ),
            None => destination_candidate(desired_filename@, attempts_made as int) is None,
        },
{
    if attempts_made == 0 {
        return Some(desired_filename.to_owned());
    }
    if attempts_made >= MAX_COPY_COLLISION_ATTEMPTS {
        return None;
    }
    let suffix_number: u32 = attempts_made + 1;
    let (stem, extension_with_dot) = split_filename_and_extension(desired_filename);
    let mut name = stem;
    name.append("_");
    name.append(unsigned_to_decimal(suffix_number as u64).as_str());
    name.append(extension_with_dot.as_str());
    Some(name)
}

/// The error reported when every name for `desired` in `directory` is taken.
pub open spec fn too_many_collisions(directory: Seq<char>, desired: Seq<char>) -> Seq<char> {
    "Too many name collisions while copying into: "@ + directory + " (base name: "@ + desired
        + ")"@
}

/// The error reported when every name for `desired_filename` in
/// `destination_directory_path` is taken.
pub fn too_many_collisions_message(destination_directory_path: &str, desired_filename: &str) -> (message:
    String)
    ensures
        message@ == too_many_collisions(destination_directory_path@, desired_filename@),
{
    let mut message = String::from_str("Too many name collisions while copying into: ");
    message.append(destination_directory_path);
    message.append(" (base name: ");
    message.append(desired_filename);
    message.append(")");
    message
}

/// The id of the job created at time `now` from the bundle named
/// `bundle_name`: the time, an underscore, and the bundle's name made safe.
/// A bundle without a usable name counts as named `bundle`.
pub open spec fn watch_job_id(bundle_name: Option<Seq<char>>, now: i64) -> Seq<char> {
    let base = match bundle_name {
        Some(name) => name,
        None => "bundle"@,
    };
    decimal_text(now as int) + "_"@ + replaced(base, job_id_separators(), '_')
}

/// The id of the job created at time `now` from the bundle named
/// `bundle_name`.
pub fn derive_watch_job_id_at(bundle_name: Option<&str>, now: i64) -> (job_id: String)
    ensures
        job_id@ == watch_job_id(opt_str_view(bundle_name), now),
{
    let base = match bundle_name {
        Some(name) => name,
        None => "bundle",
    };
    let mut job_id = i64_to_decimal(now);
    job_id.append("_");
    job_id.append(replace_chars(base, "\\/: ", '_').as_str());
    job_id
}

/// The id of a job created now from the bundle named `bundle_name`.
pub fn derive_watch_job_id(bundle_name: Option<&str>) -> (job_id: String)
    ensures
        exists|now: i64| job_id@ == #[trigger] watch_job_id(opt_str_view(bundle_name), now),
{
    let now: i64 = now_unix_timestamp_millis();
    derive_watch_job_id_at(bundle_name, now)
}

/// The Compose project of a repository: the name of its directory, or
/// `ocr-agent` where that name cannot be had.
pub fn derive_compose_project_name(repo_directory_name: Option<&str>) -> (name: String)
    ensures
        name@ == match repo_directory_name {
            Some(directory) => directory@,
            None => "ocr-agent"@,
        },
{
    match repo_directory_name {
        Some(directory) => directory.to_owned(),
        None => String::from_str("ocr-agent"),
    }
}

/// The image that Compose builds for a service by default:
/// `{project}-{service}:latest`.
pub fn derive_compose_service_image_name(project_name: &str, service_name: &str) -> (image: String)
    ensures
        image@ == project_name@ + "-"@ + service_name@ + ":latest"@,
{
    let mut image = project_name.to_owned();
    image.append("-");
    image.append(service_name);
    image.append(":latest");
    image
}

/// The media type of an image file whose extension, in lowercase, is
/// `extension`.
pub open spec fn mime_type_of(extension: Seq<char>) -> Seq<char> {
    if extension == "png"@ {
        "image/png"@
    } else if extension == "jpg"@ || extension == "jpeg"@ {
        "image/jpeg"@
    } else if extension == "webp"@ {
        "image/webp"@
    } else if extension == "bmp"@ {
        "image/bmp"@
    } else if extension == "gif"@ {
        "image/gif"@
    } else {
        "application/octet-stream"@
    }
}

/// The media type of an image file whose extension, in lowercase, is
/// `extension`.
pub fn mime_type_for(extension: &str) -> (mime: &'static str)
    ensures
        mime@ == mime_type_of(extension@),
{
    if str_eq(extension, "png") {
        "image/png"
    } else if str_eq(extension, "jpg") || str_eq(extension, "jpeg") {
        "image/jpeg"
    } else if str_eq(extension, "webp") {
        "image/webp"
    } else if str_eq(extension, "bmp") {
        "image/bmp"
    } else if str_eq(extension, "gif") {
        "image/gif"
    } else {
        "application/octet-stream"
    }
}

/// The media type of an image file with the extension `extension`, in any
/// letter case; a file without extension has the empty one.
pub fn infer_image_mime_type(extension: &str) -> (mime: String)
    ensures
        mime@ == mime_type_of(lowercase_of(extension@)),
{
    let lowercase = extension.to_lowercase();
    String::from_str(mime_type_for(lowercase.as_str()))
}

} // verus!
