//! The records that the runtime keeps on disk, as documents of named fields.
//!
//! A document is a flat list of fields, each a name with a value. How a
//! document is written as text and read back is the caller's; this module
//! says which fields a record is written with, and how a record is rebuilt
//! from the fields that were read. A field that is missing reads as an
//! absent value; a field of the wrong kind makes the whole document
//! unreadable.

use vstd::prelude::*;
use vstd::string::*;
use crate::job_state::{JobState, JobStateStatus, JobStateView};
use crate::settings::{default_settings, JobSettings, SettingsView};
use crate::text::{opt_view, str_eq};

verus! {

/// The value of a field.
#[derive(Debug, Clone)]
pub enum FieldValue {
    /// No value.
    Null,
    /// A truth value.
    Bool(bool),
    /// A whole number.
    Integer(i64),
    /// A text.
    Text(String),
    /// Any other value: a fraction, a number out of range, a list, a document.
    Other,
}

/// A named value of a document.
#[derive(Debug, Clone)]
pub struct Field {
    pub name: String,
    pub value: FieldValue,
}

/// A `FieldValue` as plain values.
pub enum ValueView {
    Null,
    Bool(bool),
    Integer(i64),
    Text(Seq<char>),
    Other,
}

/// A `Field` as plain values.
pub struct FieldView {
    pub name: Seq<char>,
    pub value: ValueView,
}

impl View for FieldValue {
    type V = ValueView;

    open spec fn view(&self) -> ValueView {
        match *self {
            FieldValue::Null => ValueView::Null,
            FieldValue::Bool(b) => ValueView::Bool(b),
            FieldValue::Integer(n) => ValueView::Integer(n),
            FieldValue::Text(text) => ValueView::Text(text@),
            FieldValue::Other => ValueView::Other,
        }
    }
}

impl View for Field {
    type V = FieldView;

    open spec fn view(&self) -> FieldView {
        FieldView { name: self.name@, value: self.value@ }
    }
}

/// The views of the fields of a document.
pub open spec fn field_views(fields: Seq<Field>) -> Seq<FieldView> {
    fields.map_values(|field: Field| field@)
}

/// The value of the first field named `name`, if the document has one.
pub open spec fn value_named(fields: Seq<FieldView>, name: Seq<char>) -> Option<ValueView>
    decreases fields.len(),
{
    if fields.len() == 0 {
        None
    } else if fields[0].name == name {
        Some(fields[0].value)
    } else {
        value_named(fields.drop_first(), name)
    }
}

/// A field read as an optional text: a missing field and a null read as
/// absent; anything but a text is of the wrong kind, which `None` tells.
pub open spec fn optional_text(value: Option<ValueView>) -> Option<Option<Seq<char>>> {
    match value {
        None => Some(None),
        Some(ValueView::Null) => Some(None),
        Some(ValueView::Text(text)) => Some(Some(text)),
        _ => None,
    }
}

/// A field read as an optional whole number.
pub open spec fn optional_integer(value: Option<ValueView>) -> Option<Option<i64>> {
    match value {
        None => Some(None),
        Some(ValueView::Null) => Some(None),
        Some(ValueView::Integer(n)) => Some(Some(n)),
        _ => None,
    }
}

/// A field read as an optional truth value.
pub open spec fn optional_bool(value: Option<ValueView>) -> Option<Option<bool>> {
    match value {
        None => Some(None),
        Some(ValueView::Null) => Some(None),
        Some(ValueView::Bool(b)) => Some(Some(b)),
        _ => None,
    }
}

/// A field read as an optional size in pixels: a whole number that fits in
/// 32 bits and is not negative.
pub open spec fn optional_size(value: Option<ValueView>) -> Option<Option<u32>> {
    match value {
        None => Some(None),
        Some(ValueView::Null) => Some(None),
        Some(ValueView::Integer(n)) => if 0 <= n <= u32::MAX {
            Some(Some(n as u32))
        } else {
            None
        },
        _ => None,
    }
}

/// The view of an optional value.
pub open spec fn opt_value_view(value: Option<&FieldValue>) -> Option<ValueView> {
    match value {
        Some(v) => Some(v@),
        None => None,
    }
}

fn find_field<'a>(fields: &'a Vec<Field>, name: &str) -> (value: Option<&'a FieldValue>)
    ensures
        opt_value_view(value) == value_named(field_views(fields@), name@),
{
    let mut i: usize = 0;
    assert(field_views(fields@).skip(0) =~= field_views(fields@));
    while i < fields.len()
        invariant
            i <= fields.len(),
            value_named(field_views(fields@), name@) == value_named(
                field_views(fields@).skip(i as int),
                name@,
            ),
        decreases fields.len() - i,
    {
        let ghost rest = field_views(fields@).skip(i as int);
        assert(rest[0] == fields@[i as int]@);
        assert(rest.drop_first() =~= field_views(fields@).skip(i + 1));
        if str_eq(fields[i].name.as_str(), name) {
            return Some(&fields[i].value);
        }
        i += 1;
    }
    None
}

fn read_text(value: Option<&FieldValue>) -> (read: Option<Option<String>>)
    ensures
        match read {
            Some(text) => optional_text(opt_value_view(value)) == Some(opt_view(text)),
            None => optional_text(opt_value_view(value)) is None,
        },
{
    match value {
        None => Some(None),
        Some(FieldValue::Null) => Some(None),
        Some(FieldValue::Text(text)) => Some(Some(text.clone())),
        Some(_) => None,
    }
}

fn read_integer(value: Option<&FieldValue>) -> (read: Option<Option<i64>>)
    ensures
        read == optional_integer(opt_value_view(value)),
{
    match value {
        None => Some(None),
        Some(FieldValue::Null) => Some(None),
        Some(FieldValue::Integer(n)) => Some(Some(*n)),
        Some(_) => None,
    }
}

fn read_bool(value: Option<&FieldValue>) -> (read: Option<Option<bool>>)
    ensures
        read == optional_bool(opt_value_view(value)),
{
    match value {
        None => Some(None),
        Some(FieldValue::Null) => Some(None),
        Some(FieldValue::Bool(b)) => Some(Some(*b)),
        Some(_) => None,
    }
}

fn read_size(value: Option<&FieldValue>) -> (read: Option<Option<u32>>)
    ensures
        read == optional_size(opt_value_view(value)),
{
    match value {
        None => Some(None),
        Some(FieldValue::Null) => Some(None),
        Some(FieldValue::Integer(n)) => {
            if 0 <= *n && *n <= 0xffff_ffff {
                Some(Some(*n as u32))
            } else {
                None
            }
        },
        Some(_) => None,
    }
}

fn text_value(text: &Option<String>) -> (value: FieldValue)
    ensures
        value@ == text_or_null(opt_view(*text)),
{
    match text {
        Some(t) => FieldValue::Text(t.clone()),
        None => FieldValue::Null,
    }
}

fn push_field(fields: &mut Vec<Field>, name: &str, value: FieldValue)
    ensures
        field_views(final(fields)@) == field_views(old(fields)@).push(
            (FieldView { name: name@, value: value@ }),
        ),
{
    fields.push(Field { name: name.to_owned(), value });
    assert(field_views(fields@) =~= field_views(old(fields)@).push(
        FieldView { name: name@, value: value@ },
    ));
}

/// An optional text as a field value.
pub open spec fn text_or_null(text: Option<Seq<char>>) -> ValueView {
    match text {
        Some(t) => ValueView::Text(t),
        None => ValueView::Null,
    }
}

/// An optional whole number as a field value.
pub open spec fn integer_or_null(number: Option<i64>) -> ValueView {
    match number {
        Some(n) => ValueView::Integer(n),
        None => ValueView::Null,
    }
}

/// An optional truth value as a field value.
pub open spec fn bool_or_null(flag: Option<bool>) -> ValueView {
    match flag {
        Some(b) => ValueView::Bool(b),
        None => ValueView::Null,
    }
}

/// An optional size as a field value.
pub open spec fn size_or_null(size: Option<u32>) -> ValueView {
    match size {
        Some(n) => ValueView::Integer(n as i64),
        None => ValueView::Null,
    }
}

/// The name under which a status is written.
pub open spec fn status_name(status: JobStateStatus) -> Seq<char> {
    match status {
        JobStateStatus::Queued => "queued"@,
        JobStateStatus::Running => "running"@,
        JobStateStatus::Completed => "completed"@,
        JobStateStatus::Failed => "failed"@,
    }
}

/// The status that is written as `name`, if there is one.
pub open spec fn status_named(name: Seq<char>) -> Option<JobStateStatus> {
    if name == "queued"@ {
        Some(JobStateStatus::Queued)
    } else if name == "running"@ {
        Some(JobStateStatus::Running)
    } else if name == "completed"@ {
        Some(JobStateStatus::Completed)
    } else if name == "failed"@ {
        Some(JobStateStatus::Failed)
    } else {
        None
    }
}

/// The fields with which the lifecycle record of a job is written.
pub open spec fn state_fields(state: JobStateView) -> Seq<FieldView> {
    seq![
        FieldView { name: "status"@, value: ValueView::Text(status_name(state.status)) },
        FieldView { name: "job_id"@, value: ValueView::Text(state.job_id) },
        FieldView {
            name: "job_root_directory_path"@,
            value: ValueView::Text(state.job_root_directory_path),
        },
        FieldView {
            name: "source_bundle_directory_path"@,
            value: text_or_null(state.source_bundle_directory_path),
        },
        FieldView {
            name: "accepted_unix_timestamp_millis"@,
            value: ValueView::Integer(state.accepted_unix_timestamp_millis),
        },
        FieldView {
            name: "started_unix_timestamp_millis"@,
            value: integer_or_null(state.started_unix_timestamp_millis),
        },
        FieldView {
            name: "finished_unix_timestamp_millis"@,
            value: integer_or_null(state.finished_unix_timestamp_millis),
        },
        FieldView { name: "output_markdown_path"@, value: text_or_null(state.output_markdown_path) },
        FieldView { name: "error_message"@, value: text_or_null(state.error_message) },
    ]
}

/// The lifecycle record that a document holds, if it holds one: the status,
/// the job id, the job root and the time of acceptance must be there, the
/// status under one of its four names, and every field of its kind.
pub open spec fn state_of_fields(fields: Seq<FieldView>) -> Option<JobStateView> {
    let status = optional_text(value_named(fields, "status"@));
    let job_id = optional_text(value_named(fields, "job_id"@));
    let job_root = optional_text(value_named(fields, "job_root_directory_path"@));
    let bundle = optional_text(value_named(fields, "source_bundle_directory_path"@));
    let accepted = optional_integer(value_named(fields, "accepted_unix_timestamp_millis"@));
    let started = optional_integer(value_named(fields, "started_unix_timestamp_millis"@));
    let finished = optional_integer(value_named(fields, "finished_unix_timestamp_millis"@));
    let output = optional_text(value_named(fields, "output_markdown_path"@));
    let error = optional_text(value_named(fields, "error_message"@));
    match (status, job_id, job_root, bundle, accepted, started, finished, output, error) {
        (
            Some(Some(name)),
            Some(Some(id)),
            Some(Some(root)),
            Some(source),
            Some(Some(at)),
            Some(start),
            Some(end),
            Some(path),
            Some(message),
        ) => match status_named(name) {
            Some(known) => Some(
                JobStateView {
                    status: known,
                    job_id: id,
                    job_root_directory_path: root,
                    source_bundle_directory_path: source,
                    accepted_unix_timestamp_millis: at,
                    started_unix_timestamp_millis: start,
                    finished_unix_timestamp_millis: end,
                    output_markdown_path: path,
                    error_message: message,
                },
            ),
            None => None,
        },
        _ => None,
    }
}

proof fn lemma_state_field_names_differ()
    ensures
        "status"@ != "job_id"@,
        "accepted_unix_timestamp_millis"@ != "finished_unix_timestamp_millis"@,
        "status"@.len() == 6,
        "job_id"@.len() == 6,
        "job_root_directory_path"@.len() == 23,
        "source_bundle_directory_path"@.len() == 28,
        "accepted_unix_timestamp_millis"@.len() == 30,
        "started_unix_timestamp_millis"@.len() == 29,
        "finished_unix_timestamp_millis"@.len() == 30,
        "output_markdown_path"@.len() == 20,
        "error_message"@.len() == 13,
{
    reveal_strlit("status");
    reveal_strlit("job_id");
    reveal_strlit("job_root_directory_path");
    reveal_strlit("source_bundle_directory_path");
    reveal_strlit("accepted_unix_timestamp_millis");
    reveal_strlit("started_unix_timestamp_millis");
    reveal_strlit("finished_unix_timestamp_millis");
    reveal_strlit("output_markdown_path");
    reveal_strlit("error_message");
    assert("status"@[0] != "job_id"@[0]);
    assert("accepted_unix_timestamp_millis"@[0] != "finished_unix_timestamp_millis"@[0]);
}

proof fn lemma_status_names()
    ensures
        forall|status: JobStateStatus| #[trigger] status_named(status_name(status)) == Some(status),
{
    reveal_strlit("queued");
    reveal_strlit("running");
    reveal_strlit("completed");
    reveal_strlit("failed");
    assert("queued"@[0] != "failed"@[0]);
    assert("queued"@.len() != "running"@.len());
    assert("queued"@.len() != "completed"@.len());
    assert("running"@.len() != "completed"@.len());
    assert("running"@.len() != "failed"@.len());
    assert("completed"@.len() != "failed"@.len());
    assert forall|status: JobStateStatus| #[trigger]
        status_named(status_name(status)) == Some(status) by {
        match status {
            JobStateStatus::Queued => {},
            JobStateStatus::Running => {},
            JobStateStatus::Completed => {},
            JobStateStatus::Failed => {},
        }
    }
}

/// A lifecycle record that is written and read back is the record that was
/// written: the fields of a record hold that record, whatever the record.
pub proof fn lemma_job_state_round_trip(state: JobStateView)
    ensures
        state_of_fields(state_fields(state)) == Some(state),
{
    lemma_state_field_names_differ();
    lemma_status_names();
    reveal_with_fuel(value_named, 10);
    let fields = state_fields(state);
    assert(value_named(fields, "status"@) == Some(ValueView::Text(status_name(state.status))));
    assert(value_named(fields, "job_id"@) == Some(ValueView::Text(state.job_id)));
    assert(value_named(fields, "job_root_directory_path"@) == Some(
        ValueView::Text(state.job_root_directory_path),
    ));
    assert(value_named(fields, "source_bundle_directory_path"@) == Some(
        text_or_null(state.source_bundle_directory_path),
    ));
    assert(value_named(fields, "accepted_unix_timestamp_millis"@) == Some(
        ValueView::Integer(state.accepted_unix_timestamp_millis),
    ));
    assert(value_named(fields, "started_unix_timestamp_millis"@) == Some(
        integer_or_null(state.started_unix_timestamp_millis),
    ));
    assert(value_named(fields, "finished_unix_timestamp_millis"@) == Some(
        integer_or_null(state.finished_unix_timestamp_millis),
    ));
    assert(value_named(fields, "output_markdown_path"@) == Some(
        text_or_null(state.output_markdown_path),
    ));
    assert(value_named(fields, "error_message"@) == Some(text_or_null(state.error_message)));
    let read = state_of_fields(fields);
    assert(read is Some);
    assert(read->0.source_bundle_directory_path == state.source_bundle_directory_path);
    assert(read->0.started_unix_timestamp_millis == state.started_unix_timestamp_millis);
    assert(read->0.finished_unix_timestamp_millis == state.finished_unix_timestamp_millis);
    assert(read->0.output_markdown_path == state.output_markdown_path);
    assert(read->0.error_message == state.error_message);
}

fn status_text(status: JobStateStatus) -> (name: &'static str)
    ensures
        name@ == status_name(status),
{
    match status {
        JobStateStatus::Queued => "queued",
        JobStateStatus::Running => "running",
        JobStateStatus::Completed => "completed",
        JobStateStatus::Failed => "failed",
    }
}

fn status_of_text(name: &str) -> (status: Option<JobStateStatus>)
    ensures
        status == status_named(name@),
{
    if str_eq(name, "queued") {
        Some(JobStateStatus::Queued)
    } else if str_eq(name, "running") {
        Some(JobStateStatus::Running)
    } else if str_eq(name, "completed") {
        Some(JobStateStatus::Completed)
    } else if str_eq(name, "failed") {
        Some(JobStateStatus::Failed)
    } else {
        None
    }
}

fn integer_value(number: Option<i64>) -> (value: FieldValue)
    ensures
        value@ == integer_or_null(number),
{
    match number {
        Some(n) => FieldValue::Integer(n),
        None => FieldValue::Null,
    }
}

/// The fields with which the lifecycle record of a job is written.
pub fn job_state_fields(state: &JobState) -> (fields: Vec<Field>)
    ensures
        field_views(fields@) == state_fields(state@),
{
    let mut fields: Vec<Field> = Vec::new();
    assert(field_views(fields@) =~= Seq::<FieldView>::empty());
    push_field(&mut fields, "status", FieldValue::Text(String::from_str(status_text(state.status))));
    push_field(&mut fields, "job_id", FieldValue::Text(state.job_id.clone()));
    push_field(
        &mut fields,
        "job_root_directory_path",
        FieldValue::Text(state.job_root_directory_path.clone()),
    );
    push_field(
        &mut fields,
        "source_bundle_directory_path",
        text_value(&state.source_bundle_directory_path),
    );
    push_field(
        &mut fields,
        "accepted_unix_timestamp_millis",
        FieldValue::Integer(state.accepted_unix_timestamp_millis),
    );
    push_field(
        &mut fields,
        "started_unix_timestamp_millis",
        integer_value(state.started_unix_timestamp_millis),
    );
    push_field(
        &mut fields,
        "finished_unix_timestamp_millis",
        integer_value(state.finished_unix_timestamp_millis),
    );
    push_field(&mut fields, "output_markdown_path", text_value(&state.output_markdown_path));
    push_field(&mut fields, "error_message", text_value(&state.error_message));
    assert(field_views(fields@) =~= state_fields(state@));
    fields
}

/// The view of an optional record.
pub open spec fn opt_job_state_view(state: Option<JobState>) -> Option<JobStateView> {
    match state {
        Some(s) => Some(s@),
        None => None,
    }
}

/// The lifecycle record that a document holds. `None` stands for a document
/// that could not be read at all; it holds no record, and neither does a
/// document that lacks a field that must be there or has a field of the
/// wrong kind.
pub fn read_job_state_best_effort(document: Option<&Vec<Field>>) -> (state: Option<JobState>)
    ensures
        opt_job_state_view(state) == match document {
            Some(fields) => state_of_fields(field_views(fields@)),
            None => None,
        },
{
    let fields = match document {
        Some(fields) => fields,
        None => {
            return None;
        },
    };
    let status = read_text(find_field(fields, "status"));
    let job_id = read_text(find_field(fields, "job_id"));
    let job_root = read_text(find_field(fields, "job_root_directory_path"));
    let bundle = read_text(find_field(fields, "source_bundle_directory_path"));
    let accepted = read_integer(find_field(fields, "accepted_unix_timestamp_millis"));
    let started = read_integer(find_field(fields, "started_unix_timestamp_millis"));
    let finished = read_integer(find_field(fields, "finished_unix_timestamp_millis"));
    let output = read_text(find_field(fields, "output_markdown_path"));
    let error = read_text(find_field(fields, "error_message"));
    match (status, job_id, job_root, bundle, accepted, started, finished, output, error) {
        (
            Some(Some(status_name)),
            Some(Some(job_id)),
            Some(Some(job_root_directory_path)),
            Some(source_bundle_directory_path),
            Some(Some(accepted_unix_timestamp_millis)),
            Some(started_unix_timestamp_millis),
            Some(finished_unix_timestamp_millis),
            Some(output_markdown_path),
            Some(error_message),
        ) => {
            match status_of_text(status_name.as_str()) {
                Some(status) => Some(
                    JobState {
                        status,
                        job_id,
                        job_root_directory_path,
                        source_bundle_directory_path,
                        accepted_unix_timestamp_millis,
                        started_unix_timestamp_millis,
                        finished_unix_timestamp_millis,
                        output_markdown_path,
                        error_message,
                    },
                ),
                None => None,
            }
        },
        _ => None,
    }
}

/// The fields with which the settings of a job root are written.
pub open spec fn settings_fields(settings: SettingsView) -> Seq<FieldView> {
    seq![
        FieldView {
            name: "output_markdown_filename_override"@,
            value: text_or_null(settings.output_markdown_filename_override),
        },
        FieldView {
            name: "last_output_markdown_filename"@,
            value: text_or_null(settings.last_output_markdown_filename),
        },
        FieldView {
            name: "is_math_delimiter_conversion_enabled"@,
            value: bool_or_null(settings.is_math_delimiter_conversion_enabled),
        },
        FieldView {
            name: "deepseek_ocr2_model_revision"@,
            value: text_or_null(settings.deepseek_ocr2_model_revision),
        },
        FieldView {
            name: "deepseek_ocr2_markdown_prompt"@,
            value: text_or_null(settings.deepseek_ocr2_markdown_prompt),
        },
        FieldView {
            name: "deepseek_ocr2_base_image_size_pixels"@,
            value: size_or_null(settings.deepseek_ocr2_base_image_size_pixels),
        },
        FieldView {
            name: "deepseek_ocr2_inference_image_size_pixels"@,
            value: size_or_null(settings.deepseek_ocr2_inference_image_size_pixels),
        },
        FieldView {
            name: "deepseek_ocr2_enable_crop_mode"@,
            value: bool_or_null(settings.deepseek_ocr2_enable_crop_mode),
        },
    ]
}

/// The settings that a document holds, if every field it has is of its kind.
pub open spec fn settings_of_fields(fields: Seq<FieldView>) -> Option<SettingsView> {
    let chosen = optional_text(value_named(fields, "output_markdown_filename_override"@));
    let last = optional_text(value_named(fields, "last_output_markdown_filename"@));
    let math = optional_bool(value_named(fields, "is_math_delimiter_conversion_enabled"@));
    let revision = optional_text(value_named(fields, "deepseek_ocr2_model_revision"@));
    let prompt = optional_text(value_named(fields, "deepseek_ocr2_markdown_prompt"@));
    let base = optional_size(value_named(fields, "deepseek_ocr2_base_image_size_pixels"@));
    let inference = optional_size(
        value_named(fields, "deepseek_ocr2_inference_image_size_pixels"@),
    );
    let crop = optional_bool(value_named(fields, "deepseek_ocr2_enable_crop_mode"@));
    if chosen is Some && last is Some && math is Some && revision is Some && prompt is Some && base
        is Some && inference is Some && crop is Some {
        Some(
            SettingsView {
                output_markdown_filename_override: chosen->0,
                last_output_markdown_filename: last->0,
                is_math_delimiter_conversion_enabled: math->0,
                deepseek_ocr2_model_revision: revision->0,
                deepseek_ocr2_markdown_prompt: prompt->0,
                deepseek_ocr2_base_image_size_pixels: base->0,
                deepseek_ocr2_inference_image_size_pixels: inference->0,
                deepseek_ocr2_enable_crop_mode: crop->0,
            },
        )
    } else {
        None
    }
}

/// The settings read from a document: those it holds; the default settings
/// where the document could not be read or holds none.
pub open spec fn settings_read(document: Option<Seq<FieldView>>) -> SettingsView {
    match document {
        Some(fields) => match settings_of_fields(fields) {
            Some(settings) => settings,
            None => default_settings(),
        },
        None => default_settings(),
    }
}

proof fn lemma_settings_field_names_differ()
    ensures
        "output_markdown_filename_override"@.len() == 33,
        "last_output_markdown_filename"@.len() == 29,
        "is_math_delimiter_conversion_enabled"@.len() == 36,
        "deepseek_ocr2_model_revision"@.len() == 28,
        "deepseek_ocr2_markdown_prompt"@.len() == 29,
        "deepseek_ocr2_base_image_size_pixels"@.len() == 36,
        "deepseek_ocr2_inference_image_size_pixels"@.len() == 41,
        "deepseek_ocr2_enable_crop_mode"@.len() == 30,
        "last_output_markdown_filename"@ != "deepseek_ocr2_markdown_prompt"@,
        "is_math_delimiter_conversion_enabled"@ != "deepseek_ocr2_base_image_size_pixels"@,
{
    reveal_strlit("output_markdown_filename_override");
    reveal_strlit("last_output_markdown_filename");
    reveal_strlit("is_math_delimiter_conversion_enabled");
    reveal_strlit("deepseek_ocr2_model_revision");
    reveal_strlit("deepseek_ocr2_markdown_prompt");
    reveal_strlit("deepseek_ocr2_base_image_size_pixels");
    reveal_strlit("deepseek_ocr2_inference_image_size_pixels");
    reveal_strlit("deepseek_ocr2_enable_crop_mode");
    assert("last_output_markdown_filename"@[0] != "deepseek_ocr2_markdown_prompt"@[0]);
    assert("is_math_delimiter_conversion_enabled"@[0] != "deepseek_ocr2_base_image_size_pixels"@[0]);
}

/// Settings that are written and read back are the settings that were
/// written, whatever the settings.
pub proof fn lemma_settings_round_trip(settings: SettingsView)
    ensures
        settings_of_fields(settings_fields(settings)) == Some(settings),
        settings_read(Some(settings_fields(settings))) == settings,
{
    lemma_settings_field_names_differ();
    reveal_with_fuel(value_named, 9);
    let fields = settings_fields(settings);
    assert(value_named(fields, "output_markdown_filename_override"@) == Some(
        text_or_null(settings.output_markdown_filename_override),
    ));
    assert(value_named(fields, "last_output_markdown_filename"@) == Some(
        text_or_null(settings.last_output_markdown_filename),
    ));
    assert(value_named(fields, "is_math_delimiter_conversion_enabled"@) == Some(
        bool_or_null(settings.is_math_delimiter_conversion_enabled),
    ));
    assert(value_named(fields, "deepseek_ocr2_model_revision"@) == Some(
        text_or_null(settings.deepseek_ocr2_model_revision),
    ));
    assert(value_named(fields, "deepseek_ocr2_markdown_prompt"@) == Some(
        text_or_null(settings.deepseek_ocr2_markdown_prompt),
    ));
    assert(value_named(fields, "deepseek_ocr2_base_image_size_pixels"@) == Some(
        size_or_null(settings.deepseek_ocr2_base_image_size_pixels),
    ));
    assert(value_named(fields, "deepseek_ocr2_inference_image_size_pixels"@) == Some(
        size_or_null(settings.deepseek_ocr2_inference_image_size_pixels),
    ));
    assert(value_named(fields, "deepseek_ocr2_enable_crop_mode"@) == Some(
        bool_or_null(settings.deepseek_ocr2_enable_crop_mode),
    ));
    let read = settings_of_fields(fields);
    assert(read is Some);
    assert(read->0.output_markdown_filename_override == settings.output_markdown_filename_override);
    assert(read->0.last_output_markdown_filename == settings.last_output_markdown_filename);
    assert(read->0.is_math_delimiter_conversion_enabled
        == settings.is_math_delimiter_conversion_enabled);
    assert(read->0.deepseek_ocr2_model_revision == settings.deepseek_ocr2_model_revision);
    assert(read->0.deepseek_ocr2_markdown_prompt == settings.deepseek_ocr2_markdown_prompt);
    assert(read->0.deepseek_ocr2_base_image_size_pixels
        == settings.deepseek_ocr2_base_image_size_pixels);
    assert(read->0.deepseek_ocr2_inference_image_size_pixels
        == settings.deepseek_ocr2_inference_image_size_pixels);
    assert(read->0.deepseek_ocr2_enable_crop_mode == settings.deepseek_ocr2_enable_crop_mode);
}

fn bool_value(flag: Option<bool>) -> (value: FieldValue)
    ensures
        value@ == bool_or_null(flag),
{
    match flag {
        Some(b) => FieldValue::Bool(b),
        None => FieldValue::Null,
    }
}

fn size_value(size: Option<u32>) -> (value: FieldValue)
    ensures
        value@ == size_or_null(size),
{
    match size {
        Some(n) => FieldValue::Integer(n as i64),
        None => FieldValue::Null,
    }
}

/// The fields with which the settings of a job root are written.
pub fn job_settings_fields(settings: &JobSettings) -> (fields: Vec<Field>)
    ensures
        field_views(fields@) == settings_fields(settings@),
{
    let mut fields: Vec<Field> = Vec::new();
    assert(field_views(fields@) =~= Seq::<FieldView>::empty());
    push_field(
        &mut fields,
        "output_markdown_filename_override",
        text_value(&settings.output_markdown_filename_override),
    );
    push_field(
        &mut fields,
        "last_output_markdown_filename",
        text_value(&settings.last_output_markdown_filename),
    );
    push_field(
        &mut fields,
        "is_math_delimiter_conversion_enabled",
        bool_value(settings.is_math_delimiter_conversion_enabled),
    );
    push_field(
        &mut fields,
        "deepseek_ocr2_model_revision",
        text_value(&settings.deepseek_ocr2_model_revision),
    );
    push_field(
        &mut fields,
        "deepseek_ocr2_markdown_prompt",
        text_value(&settings.deepseek_ocr2_markdown_prompt),
    );
    push_field(
        &mut fields,
        "deepseek_ocr2_base_image_size_pixels",
        size_value(settings.deepseek_ocr2_base_image_size_pixels),
    );
    push_field(
        &mut fields,
        "deepseek_ocr2_inference_image_size_pixels",
        size_value(settings.deepseek_ocr2_inference_image_size_pixels),
    );
    push_field(
        &mut fields,
        "deepseek_ocr2_enable_crop_mode",
        bool_value(settings.deepseek_ocr2_enable_crop_mode),
    );
    assert(field_views(fields@) =~= settings_fields(settings@));
    fields
}

/// The view of an optional document.
pub open spec fn opt_document_view(document: Option<&Vec<Field>>) -> Option<Seq<FieldView>> {
    match document {
        Some(fields) => Some(field_views(fields@)),
        None => None,
    }
}

/// The settings read from a document. `None` stands for a document that is
/// missing or could not be read at all: it gives the default settings, and so
/// does a document with a field of the wrong kind.
pub fn read_job_settings_best_effort(document: Option<&Vec<Field>>) -> (settings: JobSettings)
    ensures
        settings@ == settings_read(opt_document_view(document)),
{
    let fields = match document {
        Some(fields) => fields,
        None => {
            return JobSettings::default();
        },
    };
    let chosen = read_text(find_field(fields, "output_markdown_filename_override"));
    let last = read_text(find_field(fields, "last_output_markdown_filename"));
    let math = read_bool(find_field(fields, "is_math_delimiter_conversion_enabled"));
    let revision = read_text(find_field(fields, "deepseek_ocr2_model_revision"));
    let prompt = read_text(find_field(fields, "deepseek_ocr2_markdown_prompt"));
    let base = read_size(find_field(fields, "deepseek_ocr2_base_image_size_pixels"));
    let inference = read_size(find_field(fields, "deepseek_ocr2_inference_image_size_pixels"));
    let crop = read_bool(find_field(fields, "deepseek_ocr2_enable_crop_mode"));
    match (chosen, last, math, revision, prompt, base, inference, crop) {
        (
            Some(output_markdown_filename_override),
            Some(last_output_markdown_filename),
            Some(is_math_delimiter_conversion_enabled),
            Some(deepseek_ocr2_model_revision),
            Some(deepseek_ocr2_markdown_prompt),
            Some(deepseek_ocr2_base_image_size_pixels),
            Some(deepseek_ocr2_inference_image_size_pixels),
            Some(deepseek_ocr2_enable_crop_mode),
        ) => JobSettings {
            output_markdown_filename_override,
            last_output_markdown_filename,
            is_math_delimiter_conversion_enabled,
            deepseek_ocr2_model_revision,
            deepseek_ocr2_markdown_prompt,
            deepseek_ocr2_base_image_size_pixels,
            deepseek_ocr2_inference_image_size_pixels,
            deepseek_ocr2_enable_crop_mode,
        },
        _ => JobSettings::default(),
    }
}

} // verus!
