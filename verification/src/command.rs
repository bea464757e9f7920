//! The command line of a job: the arguments handed to the container tool to
//! run the engine on a job root with the root's settings.

use vstd::prelude::*;
use vstd::string::*;
use crate::decimal::{decimal_text, unsigned_to_decimal};
use crate::scan::{trim, trimmed};
use crate::settings::{JobSettings, SettingsView};
use crate::text::{chars_of, joined, text_of, views};

verus! {

/// The Compose service that runs the engine.
pub const DOCKER_COMPOSE_SERVICE_NAME: &'static str = "ocr-agent";

/// A prompt written on one line: every line break, be it a line feed or a
/// carriage return with a line feed, is written as a backslash and an `n`.
pub open spec fn encoded_prompt(prompt: Seq<char>) -> Seq<char>
    decreases prompt.len(),
{
    if prompt.len() == 0 {
        Seq::empty()
    } else if prompt[0] == '\r' && prompt.len() > 1 && prompt[1] == '\n' {
        seq!['\\', 'n'] + encoded_prompt(prompt.skip(2))
    } else if prompt[0] == '\n' {
        seq!['\\', 'n'] + encoded_prompt(prompt.skip(1))
    } else {
        seq![prompt[0]] + encoded_prompt(prompt.skip(1))
    }
}

/// Writes a prompt on one line.
pub fn encode_markdown_prompt(prompt: &str) -> (encoded: String)
    ensures
        encoded@ == encoded_prompt(prompt@),
{
    let chars = chars_of(prompt);
    let mut out: Vec<char> = Vec::new();
    let mut i: usize = 0;
    assert(chars@.skip(0) =~= chars@);
    while i < chars.len()
        invariant
            i <= chars.len(),
            out@ + encoded_prompt(chars@.skip(i as int)) == encoded_prompt(chars@),
        decreases chars.len() - i,
    {
        let ghost rest = chars@.skip(i as int);
        let ghost before = out@;
        assert(rest[0] == chars@[i as int]);
        if chars[i] == '\r' && i + 1 < chars.len() && chars[i + 1] == '\n' {
            assert(rest[1] == chars@[i + 1]);
            out.push('\\');
            out.push('n');
            assert(rest.skip(2) =~= chars@.skip(i + 2));
            assert(out@ + encoded_prompt(chars@.skip(i + 2)) =~= before + encoded_prompt(rest));
            i += 2;
        } else if chars[i] == '\n' {
            out.push('\\');
            out.push('n');
            assert(rest.skip(1) =~= chars@.skip(i + 1));
            assert(out@ + encoded_prompt(chars@.skip(i + 1)) =~= before + encoded_prompt(rest));
            i += 1;
        } else {
            proof {
                if rest.len() > 1 {
                    assert(rest[1] == chars@[i + 1]);
                }
            }
            out.push(chars[i]);
            assert(rest.skip(1) =~= chars@.skip(i + 1));
            assert(out@ + encoded_prompt(chars@.skip(i + 1)) =~= before + encoded_prompt(rest));
            i += 1;
        }
    }
    assert(out@ + Seq::<char>::empty() =~= out@);
    text_of(&out)
}

/// The arguments that set one variable in the container's environment.
pub open spec fn variable(name: Seq<char>, value: Seq<char>) -> Seq<Seq<char>> {
    seq!["-e"@, name + "="@ + value]
}

/// The argument that sets the style of math delimiters: `dollar` unless the
/// conversion is switched off.
pub open spec fn style_arguments(settings: SettingsView) -> Seq<Seq<char>> {
    variable(
        "OCR_AGENT_MATH_DELIMITER_STYLE"@,
        if settings.is_math_delimiter_conversion_enabled == Some(false) {
            "latex"@
        } else {
            "dollar"@
        },
    )
}

/// The argument that sets the model revision, where one is named that is not
/// blank; it is set without the white space around it.
pub open spec fn revision_arguments(settings: SettingsView) -> Seq<Seq<char>> {
    match settings.deepseek_ocr2_model_revision {
        Some(revision) => if trimmed(revision).len() == 0 {
            Seq::empty()
        } else {
            variable("DEEPSEEK_OCR2_MODEL_REVISION"@, trimmed(revision))
        },
        None => Seq::empty(),
    }
}

/// The argument that sets the prompt, written on one line, where the
/// settings hold one.
pub open spec fn prompt_arguments(settings: SettingsView) -> Seq<Seq<char>> {
    match settings.deepseek_ocr2_markdown_prompt {
        Some(prompt) => variable("DEEPSEEK_OCR2_MARKDOWN_PROMPT"@, encoded_prompt(prompt)),
        None => Seq::empty(),
    }
}

/// The argument that sets the image size named `name`, where there is one.
pub open spec fn size_arguments(name: Seq<char>, pixels: Option<u32>) -> Seq<Seq<char>> {
    match pixels {
        Some(size) => variable(name, decimal_text(size as int)),
        None => Seq::empty(),
    }
}

/// The argument that sets the crop mode, as `1` or `0`, where the settings
/// hold it.
pub open spec fn crop_arguments(settings: SettingsView) -> Seq<Seq<char>> {
    match settings.deepseek_ocr2_enable_crop_mode {
        Some(enabled) => variable(
            "DEEPSEEK_OCR2_ENABLE_CROP_MODE"@,
            if enabled {
                "1"@
            } else {
                "0"@
            },
        ),
        None => Seq::empty(),
    }
}

/// The arguments that hand the settings of a job root to the engine, as
/// variables of its environment: the style of math delimiters, the model
/// revision, the prompt, the two image sizes and the crop mode, in this
/// order.
pub open spec fn environment_arguments(settings: SettingsView) -> Seq<Seq<char>> {
    style_arguments(settings) + revision_arguments(settings) + prompt_arguments(settings)
        + size_arguments(
        "DEEPSEEK_OCR2_BASE_IMAGE_SIZE_PIXELS"@,
        settings.deepseek_ocr2_base_image_size_pixels,
    ) + size_arguments(
        "DEEPSEEK_OCR2_INFERENCE_IMAGE_SIZE_PIXELS"@,
        settings.deepseek_ocr2_inference_image_size_pixels,
    ) + crop_arguments(settings)
}

/// What the engine is told to do inside the container: enqueue the inputs,
/// then run the queue and write the result to the named file.
pub open spec fn engine_script(output_markdown_filename: Seq<char>) -> Seq<char> {
    "python3 -m ocr_agent.cli enqueue /data/input && python3 -m ocr_agent.cli run --output-md \"/data/"@
        + output_markdown_filename + "\""@
}

/// The arguments that follow `run --rm` and the environment: the job root
/// mounted as `/data`, the service, and the engine's script.
pub open spec fn service_arguments(
    job_root_for_docker: Seq<char>,
    output_markdown_filename: Seq<char>,
) -> Seq<Seq<char>> {
    seq![
        "-v"@,
        job_root_for_docker + ":/data"@,
        DOCKER_COMPOSE_SERVICE_NAME@,
        "bash"@,
        "-lc"@,
        engine_script(output_markdown_filename),
    ]
}

/// The arguments that run a job, after those that name the Compose file.
pub open spec fn run_arguments(
    settings: SettingsView,
    job_root_for_docker: Seq<char>,
    output_markdown_filename: Seq<char>,
) -> Seq<Seq<char>> {
    seq!["run"@, "--rm"@] + environment_arguments(settings) + service_arguments(
        job_root_for_docker,
        output_markdown_filename,
    )
}

fn push_variable(arguments: &mut Vec<String>, name: &str, value: &str)
    ensures
        views(final(arguments)@) == views(old(arguments)@) + variable(name@, value@),
{
    arguments.push(String::from_str("-e"));
    let mut assignment = String::from_str(name);
    assignment.append("=");
    assignment.append(value);
    arguments.push(assignment);
    assert(views(arguments@) =~= views(old(arguments)@) + variable(name@, value@));
}

fn push_style(arguments: &mut Vec<String>, settings: &JobSettings)
    ensures
        views(final(arguments)@) == views(old(arguments)@) + style_arguments(settings@),
{
    let style = match settings.is_math_delimiter_conversion_enabled {
        Some(false) => "latex",
        _ => "dollar",
    };
    push_variable(arguments, "OCR_AGENT_MATH_DELIMITER_STYLE", style);
}

fn push_revision(arguments: &mut Vec<String>, settings: &JobSettings)
    ensures
        views(final(arguments)@) == views(old(arguments)@) + revision_arguments(settings@),
{
    match &settings.deepseek_ocr2_model_revision {
        Some(revision) => {
            let revision_trimmed = trim(revision.as_str());
            if !revision_trimmed.as_str().is_empty() {
                push_variable(arguments, "DEEPSEEK_OCR2_MODEL_REVISION", revision_trimmed.as_str());
                return ;
            }
        },
        None => {},
    }
    assert(views(arguments@) =~= views(old(arguments)@) + Seq::<Seq<char>>::empty());
}

fn push_prompt(arguments: &mut Vec<String>, settings: &JobSettings)
    ensures
        views(final(arguments)@) == views(old(arguments)@) + prompt_arguments(settings@),
{
    match &settings.deepseek_ocr2_markdown_prompt {
        Some(prompt) => {
            let encoded = encode_markdown_prompt(prompt.as_str());
            push_variable(arguments, "DEEPSEEK_OCR2_MARKDOWN_PROMPT", encoded.as_str());
        },
        None => {
            assert(views(arguments@) =~= views(old(arguments)@) + Seq::<Seq<char>>::empty());
        },
    }
}

fn push_size(arguments: &mut Vec<String>, name: &str, pixels: Option<u32>)
    ensures
        views(final(arguments)@) == views(old(arguments)@) + size_arguments(name@, pixels),
{
    match pixels {
        Some(size) => {
            let text = unsigned_to_decimal(size as u64);
            push_variable(arguments, name, text.as_str());
        },
        None => {
            assert(views(arguments@) =~= views(old(arguments)@) + Seq::<Seq<char>>::empty());
        },
    }
}

fn push_crop(arguments: &mut Vec<String>, settings: &JobSettings)
    ensures
        views(final(arguments)@) == views(old(arguments)@) + crop_arguments(settings@),
{
    match settings.deepseek_ocr2_enable_crop_mode {
        Some(enabled) => {
            let flag = if enabled {
                "1"
            } else {
                "0"
            };
            push_variable(arguments, "DEEPSEEK_OCR2_ENABLE_CROP_MODE", flag);
        },
        None => {
            assert(views(arguments@) =~= views(old(arguments)@) + Seq::<Seq<char>>::empty());
        },
    }
}

fn push_environment(arguments: &mut Vec<String>, settings: &JobSettings)
    ensures
        views(final(arguments)@) == views(old(arguments)@) + environment_arguments(settings@),
{
    push_style(arguments, settings);
    push_revision(arguments, settings);
    push_prompt(arguments, settings);
    push_size(
        arguments,
        "DEEPSEEK_OCR2_BASE_IMAGE_SIZE_PIXELS",
        settings.deepseek_ocr2_base_image_size_pixels,
    );
    push_size(
        arguments,
        "DEEPSEEK_OCR2_INFERENCE_IMAGE_SIZE_PIXELS",
        settings.deepseek_ocr2_inference_image_size_pixels,
    );
    push_crop(arguments, settings);
    assert(views(arguments@) =~= views(old(arguments)@) + environment_arguments(settings@));
}

fn push_service(arguments: &mut Vec<String>, job_root_for_docker: &str, output_markdown_filename: &str)
    ensures
        views(final(arguments)@) == views(old(arguments)@) + service_arguments(
            job_root_for_docker@,
            output_markdown_filename@,
        ),
{
    arguments.push(String::from_str("-v"));
    arguments.push(joined(job_root_for_docker, ":/data"));
    arguments.push(String::from_str(DOCKER_COMPOSE_SERVICE_NAME));
    arguments.push(String::from_str("bash"));
    arguments.push(String::from_str("-lc"));
    let mut script = String::from_str(
        "python3 -m ocr_agent.cli enqueue /data/input && python3 -m ocr_agent.cli run --output-md \"/data/",
    );
    script.append(output_markdown_filename);
    script.append("\"");
    arguments.push(script);
    assert(views(arguments@) =~= views(old(arguments)@) + service_arguments(
        job_root_for_docker@,
        output_markdown_filename@,
    ));
}

/// The arguments that run a job with `settings` on the job root that the
/// container tool knows as `job_root_for_docker`, writing the result to
/// `output_markdown_filename`.
pub fn job_run_arguments(
    settings: &JobSettings,
    job_root_for_docker: &str,
    output_markdown_filename: &str,
) -> (arguments: Vec<String>)
    ensures
        views(arguments@) == run_arguments(
            settings@,
            job_root_for_docker@,
            output_markdown_filename@,
        ),
{
    let mut arguments: Vec<String> = Vec::new();
    arguments.push(String::from_str("run"));
    arguments.push(String::from_str("--rm"));
    assert(views(arguments@) =~= seq!["run"@, "--rm"@]);
    push_environment(&mut arguments, settings);
    push_service(&mut arguments, job_root_for_docker, output_markdown_filename);
    arguments
}

/// The arguments that name the Compose file and the project directory; they
/// come first on every command line.
pub fn docker_compose_base_arguments(compose_file_path: &str, repo_root: &str) -> (arguments: Vec<
    String,
>)
    ensures
        views(arguments@) == seq![
            "compose"@,
            "-f"@,
            compose_file_path@,
            "--project-directory"@,
            repo_root@,
        ],
{
    let mut arguments: Vec<String> = Vec::new();
    arguments.push(String::from_str("compose"));
    arguments.push(String::from_str("-f"));
    arguments.push(compose_file_path.to_owned());
    arguments.push(String::from_str("--project-directory"));
    arguments.push(repo_root.to_owned());
    assert(views(arguments@) =~= seq![
        "compose"@,
        "-f"@,
        compose_file_path@,
        "--project-directory"@,
        repo_root@,
    ]);
    arguments
}

} // verus!
