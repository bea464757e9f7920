//! The settings of a job root, kept from one run to the next, and how a run
//! request changes them.

use vstd::prelude::*;
use vstd::string::*;
use crate::scan::{trim, trimmed};
use crate::text::opt_view;

verus! {

/// The settings of a job root.
#[derive(Debug, Clone)]
pub struct JobSettings {
    pub output_markdown_filename_override: Option<String>,
    pub last_output_markdown_filename: Option<String>,
    pub is_math_delimiter_conversion_enabled: Option<bool>,
    pub deepseek_ocr2_model_revision: Option<String>,
    pub deepseek_ocr2_markdown_prompt: Option<String>,
    pub deepseek_ocr2_base_image_size_pixels: Option<u32>,
    pub deepseek_ocr2_inference_image_size_pixels: Option<u32>,
    pub deepseek_ocr2_enable_crop_mode: Option<bool>,
}

/// `JobSettings` as plain values.
pub struct SettingsView {
    pub output_markdown_filename_override: Option<Seq<char>>,
    pub last_output_markdown_filename: Option<Seq<char>>,
    pub is_math_delimiter_conversion_enabled: Option<bool>,
    pub deepseek_ocr2_model_revision: Option<Seq<char>>,
    pub deepseek_ocr2_markdown_prompt: Option<Seq<char>>,
    pub deepseek_ocr2_base_image_size_pixels: Option<u32>,
    pub deepseek_ocr2_inference_image_size_pixels: Option<u32>,
    pub deepseek_ocr2_enable_crop_mode: Option<bool>,
}

impl View for JobSettings {
    type V = SettingsView;

    open spec fn view(&self) -> SettingsView {
        SettingsView {
            output_markdown_filename_override: opt_view(self.output_markdown_filename_override),
            last_output_markdown_filename: opt_view(self.last_output_markdown_filename),
            is_math_delimiter_conversion_enabled: self.is_math_delimiter_conversion_enabled,
            deepseek_ocr2_model_revision: opt_view(self.deepseek_ocr2_model_revision),
            deepseek_ocr2_markdown_prompt: opt_view(self.deepseek_ocr2_markdown_prompt),
            deepseek_ocr2_base_image_size_pixels: self.deepseek_ocr2_base_image_size_pixels,
            deepseek_ocr2_inference_image_size_pixels: self.deepseek_ocr2_inference_image_size_pixels,
            deepseek_ocr2_enable_crop_mode: self.deepseek_ocr2_enable_crop_mode,
        }
    }
}

/// The settings of a job root that has none yet.
pub open spec fn default_settings() -> SettingsView {
    SettingsView {
        output_markdown_filename_override: None,
        last_output_markdown_filename: None,
        is_math_delimiter_conversion_enabled: None,
        deepseek_ocr2_model_revision: None,
        deepseek_ocr2_markdown_prompt: None,
        deepseek_ocr2_base_image_size_pixels: None,
        deepseek_ocr2_inference_image_size_pixels: None,
        deepseek_ocr2_enable_crop_mode: None,
    }
}

impl Default for JobSettings {
    fn default() -> (settings: Self)
        ensures
            settings@ == default_settings(),
    {
        JobSettings {
            output_markdown_filename_override: None,
            last_output_markdown_filename: None,
            is_math_delimiter_conversion_enabled: None,
            deepseek_ocr2_model_revision: None,
            deepseek_ocr2_markdown_prompt: None,
            deepseek_ocr2_base_image_size_pixels: None,
            deepseek_ocr2_inference_image_size_pixels: None,
            deepseek_ocr2_enable_crop_mode: None,
        }
    }
}

/// What a caller asks of a run.
#[derive(Debug, Clone)]
pub struct RunRequest {
    pub output_markdown_filename_override: Option<String>,
    pub is_math_delimiter_conversion_enabled: Option<bool>,
    pub deepseek_ocr2_model_revision: Option<String>,
    pub deepseek_ocr2_markdown_prompt: Option<String>,
    pub deepseek_ocr2_base_image_size_pixels: Option<u32>,
    pub deepseek_ocr2_inference_image_size_pixels: Option<u32>,
    pub deepseek_ocr2_enable_crop_mode: Option<bool>,
}

/// `RunRequest` as plain values.
pub struct RequestView {
    pub output_markdown_filename_override: Option<Seq<char>>,
    pub is_math_delimiter_conversion_enabled: Option<bool>,
    pub deepseek_ocr2_model_revision: Option<Seq<char>>,
    pub deepseek_ocr2_markdown_prompt: Option<Seq<char>>,
    pub deepseek_ocr2_base_image_size_pixels: Option<u32>,
    pub deepseek_ocr2_inference_image_size_pixels: Option<u32>,
    pub deepseek_ocr2_enable_crop_mode: Option<bool>,
}

impl View for RunRequest {
    type V = RequestView;

    open spec fn view(&self) -> RequestView {
        RequestView {
            output_markdown_filename_override: opt_view(self.output_markdown_filename_override),
            is_math_delimiter_conversion_enabled: self.is_math_delimiter_conversion_enabled,
            deepseek_ocr2_model_revision: opt_view(self.deepseek_ocr2_model_revision),
            deepseek_ocr2_markdown_prompt: opt_view(self.deepseek_ocr2_markdown_prompt),
            deepseek_ocr2_base_image_size_pixels: self.deepseek_ocr2_base_image_size_pixels,
            deepseek_ocr2_inference_image_size_pixels: self.deepseek_ocr2_inference_image_size_pixels,
            deepseek_ocr2_enable_crop_mode: self.deepseek_ocr2_enable_crop_mode,
        }
    }
}

/// Why a run request is refused, if it is: there is nothing to work on, or it
/// asks for an image size of zero.
pub open spec fn run_refusal(request: RequestView, has_any_input_files: bool) -> Option<Seq<char>> {
    if !has_any_input_files {
        Some("No input files found under input/. Drop images or PDFs first."@)
    } else if request.deepseek_ocr2_base_image_size_pixels == Some(0u32) {
        Some("deepseek_ocr2_base_image_size_pixels must be > 0"@)
    } else if request.deepseek_ocr2_inference_image_size_pixels == Some(0u32) {
        Some("deepseek_ocr2_inference_image_size_pixels must be > 0"@)
    } else {
        None
    }
}

/// The file name override that a request asks for: what was typed, without
/// the white space around it; none where nothing or only white space was
/// typed.
pub open spec fn requested_override(typed: Option<Seq<char>>) -> Option<Seq<char>> {
    match typed {
        Some(text) => if trimmed(text).len() == 0 {
            None
        } else {
            Some(trimmed(text))
        },
        None => None,
    }
}

/// The settings of a job root once a run request was accepted: the request
/// replaces the file name override, the toggles, the model revision and the
/// prompt; an image size is replaced only where the request names one; the
/// name of the last output file stays.
pub open spec fn settings_after_request(settings: SettingsView, request: RequestView) -> SettingsView {
    SettingsView {
        output_markdown_filename_override: requested_override(
            request.output_markdown_filename_override,
        ),
        last_output_markdown_filename: settings.last_output_markdown_filename,
        is_math_delimiter_conversion_enabled: request.is_math_delimiter_conversion_enabled,
        deepseek_ocr2_model_revision: request.deepseek_ocr2_model_revision,
        deepseek_ocr2_markdown_prompt: request.deepseek_ocr2_markdown_prompt,
        deepseek_ocr2_base_image_size_pixels: if request.deepseek_ocr2_base_image_size_pixels
            is Some {
            request.deepseek_ocr2_base_image_size_pixels
        } else {
            settings.deepseek_ocr2_base_image_size_pixels
        },
        deepseek_ocr2_inference_image_size_pixels: if request.deepseek_ocr2_inference_image_size_pixels
            is Some {
            request.deepseek_ocr2_inference_image_size_pixels
        } else {
            settings.deepseek_ocr2_inference_image_size_pixels
        },
        deepseek_ocr2_enable_crop_mode: request.deepseek_ocr2_enable_crop_mode,
    }
}

/// The view of a result whose value is a settings record.
pub open spec fn settings_result_view(result: Result<JobSettings, String>) -> Result<
    SettingsView,
    Seq<char>,
> {
    match result {
        Ok(settings) => Ok(settings@),
        Err(message) => Err(message@),
    }
}

/// The settings with which a run starts, or why the run is refused.
///
/// `settings` are the settings of the job root as they were read back;
/// `has_any_input_files` tells whether the root's input directory holds a
/// file.
pub fn settings_for_run(settings: JobSettings, request: RunRequest, has_any_input_files: bool) -> (updated:
    Result<JobSettings, String>)
    ensures
        settings_result_view(updated) == match run_refusal(request@, has_any_input_files) {
            Some(reason) => Err(reason),
            None => Ok(settings_after_request(settings@, request@)),
        },
{
    if !has_any_input_files {
        return Err(
            String::from_str("No input files found under input/. Drop images or PDFs first."),
        );
    }
    let mut updated = settings;
    updated.output_markdown_filename_override = match request.output_markdown_filename_override {
        Some(typed) => {
            let candidate = trim(typed.as_str());
            if candidate.as_str().is_empty() {
                None
            } else {
                Some(candidate)
            }
        },
        None => None,
    };
    updated.is_math_delimiter_conversion_enabled = request.is_math_delimiter_conversion_enabled;
    updated.deepseek_ocr2_model_revision = request.deepseek_ocr2_model_revision;
    updated.deepseek_ocr2_markdown_prompt = request.deepseek_ocr2_markdown_prompt;
    match request.deepseek_ocr2_base_image_size_pixels {
        Some(pixels) => {
            if pixels == 0 {
                return Err(String::from_str("deepseek_ocr2_base_image_size_pixels must be > 0"));
            }
            updated.deepseek_ocr2_base_image_size_pixels = Some(pixels);
        },
        None => {},
    }
    match request.deepseek_ocr2_inference_image_size_pixels {
        Some(pixels) => {
            if pixels == 0 {
                return Err(
                    String::from_str("deepseek_ocr2_inference_image_size_pixels must be > 0"),
                );
            }
            updated.deepseek_ocr2_inference_image_size_pixels = Some(pixels);
        },
        None => {},
    }
    updated.deepseek_ocr2_enable_crop_mode = request.deepseek_ocr2_enable_crop_mode;
    Ok(updated)
}

/// The settings with the name of the output file of the run that starts.
pub fn with_last_output_filename(settings: JobSettings, output_markdown_filename: &str) -> (updated:
    JobSettings)
    ensures
        updated@ == (SettingsView {
            last_output_markdown_filename: Some(output_markdown_filename@),
            ..settings@
        }),
{
    let mut updated = settings;
    updated.last_output_markdown_filename = Some(output_markdown_filename.to_owned());
    updated
}

} // verus!
