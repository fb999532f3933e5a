//! The format pipeline: derives the source kind from the target's path,
//! decides whether the target is in scope via the two exclusion pattern
//! sets, and runs the external parse/transform/print sequence, classifying
//! every outcome into the closed [`FormatResult`] type.

use vstd::prelude::*;
use crate::backend;
use crate::paths;

verus! {

/// The outcome of attempting to format one file: formatted content ready to
/// write back, a scope decision that skipped the file, or a content-level
/// failure that must not abort a batch.
pub enum FormatResult {
    Success { formatted_content: String },
    Ignored,
    Error { error: String },
}

/// A failure of the render stage of the external formatter: the transform
/// of the parsed tree, or the printing of the transformed tree.
pub enum RenderFailure {
    Transform { message: String },
    Print { message: String },
}

/// A failure of the environment of one request, as opposed to a
/// content-level failure of the file itself: a malformed target path or a
/// configuration that could not be resolved. Reported as a plugin panic,
/// never as a [`FormatResult`].
pub enum Fault {
    MissingFileName,
    MissingExtension,
    UnsupportedExtension,
    Config { message: String },
}

impl Fault {
    /// The diagnostic message of this fault.
    pub open spec fn spec_message(&self) -> Seq<char> {
        match self {
            Fault::MissingFileName => "Failed to get file name"@,
            Fault::MissingExtension => "Failed to get file extension"@,
            Fault::UnsupportedExtension => "Unsupported file extension"@,
            Fault::Config { message } => message@,
        }
    }

    pub fn message(&self) -> (m: String)
        ensures
            m@ == self.spec_message(),
    {
        match self {
            Fault::MissingFileName => String::from_str("Failed to get file name"),
            Fault::MissingExtension => String::from_str("Failed to get file extension"),
            Fault::UnsupportedExtension => String::from_str("Unsupported file extension"),
            Fault::Config { message } => message.clone(),
        }
    }
}

/// How the effective settings are to be obtained: the built-in defaults
/// when no configuration file was found, or a load of the named file.
pub enum SettingsPlan {
    Ready(ruff_workspace::Settings),
    LoadFrom(std::path::PathBuf),
}

/// Turns the outcome of the configuration-file lookup into a settings plan.
/// Absence of a configuration file is not an error: the built-in defaults
/// are used silently. A failed lookup is an environment fault.
pub fn plan_settings(found: Result<Option<std::path::PathBuf>, String>) -> (r: Result<
    SettingsPlan,
    Fault,
>)
    ensures
        found matches Ok(None) ==> r matches Ok(SettingsPlan::Ready(_)),
        found matches Ok(Some(p)) ==> r matches Ok(SettingsPlan::LoadFrom(q)) && q == p,
        found matches Err(e) ==> r matches Err(Fault::Config { message }) && message@ == e@,
{
    match found {
        Ok(None) => Ok(SettingsPlan::Ready(backend::default_settings())),
        Ok(Some(p)) => Ok(SettingsPlan::LoadFrom(p)),
        Err(e) => Err(Fault::Config { message: e }),
    }
}

/// Looks for the nearest configuration file above the target path and plans
/// how the effective settings are to be obtained. The lookup reads the
/// filesystem, so only the shape of the outcome is stated.
pub fn prepare_settings(target_path: &String) -> (r: Result<SettingsPlan, Fault>)
    ensures
        r matches Err(f) ==> f is Config,
{
    plan_settings(backend::find_settings_toml_above(target_path))
}

/// The extension of the target path: the extension of its file name.
pub open spec fn spec_target_extension(path: Seq<char>) -> Option<Seq<char>> {
    match paths::spec_file_name(path) {
        None => None,
        Some(n) => paths::spec_extension(n),
    }
}

/// Whether the target path carries a recognized Python extension.
pub open spec fn target_recognized(path: Seq<char>) -> bool {
    match spec_target_extension(path) {
        None => false,
        Some(e) => paths::spec_source_kind(e) is Some,
    }
}

/// Whether an exclusion pattern of either list of the settings matches the
/// target path or its file name.
pub open spec fn target_excluded(
    settings: ruff_workspace::Settings,
    path: Seq<char>,
    file_name: Seq<char>,
) -> bool {
    backend::formatter_exclude_match(settings, path, file_name)
        || backend::file_resolver_exclude_match(settings, path, file_name)
}

pub open spec fn syntax_error_prefix() -> Seq<char> {
    "Syntax error: "@
}

pub open spec fn format_error_prefix() -> Seq<char> {
    "Formatting error: "@
}

pub open spec fn print_error_prefix() -> Seq<char> {
    "Print error: "@
}

/// What the pipeline returns for an in-scope target, stage by stage, over
/// the named outcomes of the external parser, transform and printer: a
/// malformed source yields exactly the parser's message behind the syntax
/// prefix; a transform or print failure yields exactly that stage's message
/// behind its prefix; and otherwise the result is a success carrying
/// exactly the printed text of the transformed tree.
pub open spec fn in_scope_result(
    r: FormatResult,
    settings: ruff_workspace::Settings,
    path: Seq<char>,
    extension: Seq<char>,
    source: Seq<char>,
) -> bool {
    let notebook = paths::is_notebook_ext(extension);
    match backend::py_parse_error(source, notebook) {
        Some(m) => r matches FormatResult::Error { error } && error@ == syntax_error_prefix() + m,
        None => {
            let parsed = backend::py_parsed(source, notebook);
            let trivia = backend::trivia_index_of(parsed);
            let options = backend::built_options(settings, extension, source, path);
            match backend::py_transform_error(parsed, trivia, source, options) {
                Some(m) => r matches FormatResult::Error { error } && error@ == format_error_prefix()
                    + m,
                None => match backend::py_print_error(parsed, trivia, source, options) {
                    Some(m) => r matches FormatResult::Error { error } && error@
                        == print_error_prefix() + m,
                    None => r matches FormatResult::Success { formatted_content }
                        && formatted_content@ == backend::py_rendered(
                        parsed,
                        trivia,
                        source,
                        options,
                    ),
                },
            }
        },
    }
}

/// Runs the parse/transform/print sequence on an in-scope target, or skips
/// an excluded one. The file is excluded exactly when one of the two
/// exclusion checks matched, and an excluded file is never parsed.
pub fn format_in_scope(
    excluded: bool,
    path: &String,
    content: &String,
    extension: &String,
    settings: &ruff_workspace::Settings,
) -> (r: FormatResult)
    ensures
        excluded <==> r is Ignored,
        !excluded ==> in_scope_result(r, *settings, path@, extension@, content@),
{
    if excluded {
        return FormatResult::Ignored;
    }
    let options = backend::format_options_for(settings, extension, content, path);
    let parsed = match backend::parse_source(content, extension) {
        Ok(parsed) => parsed,
        Err(m) => {
            let error = String::from_str("Syntax error: ").concat(m.as_str());
            return FormatResult::Error { error };
        },
    };
    let trivia = backend::trivia_ranges_of(&parsed);
    match backend::render(&parsed, &trivia, content, options) {
        Ok(code) => FormatResult::Success { formatted_content: code },
        Err(RenderFailure::Transform { message }) => {
            let error = String::from_str("Formatting error: ").concat(message.as_str());
            FormatResult::Error { error }
        },
        Err(RenderFailure::Print { message }) => {
            let error = String::from_str("Print error: ").concat(message.as_str());
            FormatResult::Error { error }
        },
    }
}

/// Formats one target file under the given effective settings.
///
/// The target must carry a file name with a recognized Python extension;
/// a path without one is an environment fault, never a content error. For
/// a recognized target the result is skipped exactly when an exclusion
/// pattern of either list matched, and otherwise as [`in_scope_result`]
/// states: exactly the printed text of the transformed tree on success,
/// and exactly the failing stage's message behind its prefix otherwise.
pub fn format(
    given_file_name: String,
    file_content: String,
    settings: &ruff_workspace::Settings,
) -> (r: Result<FormatResult, Fault>)
    ensures
        (r is Ok) <==> target_recognized(given_file_name@),
        paths::spec_file_name(given_file_name@) is None ==> (r matches Err(f) && f
            is MissingFileName),
        paths::spec_file_name(given_file_name@) matches Some(n) ==> (paths::spec_extension(n)
            is None ==> (r matches Err(f) && f is MissingExtension)),
        spec_target_extension(given_file_name@) matches Some(e) ==> (paths::spec_source_kind(e)
            is None ==> (r matches Err(f) && f is UnsupportedExtension)),
        r matches Ok(fr) ==> (paths::spec_file_name(given_file_name@) matches Some(n) && ((fr
            is Ignored) <==> target_excluded(*settings, given_file_name@, n))),
        r matches Ok(fr) ==> (!(fr is Ignored) ==> (spec_target_extension(given_file_name@)
            matches Some(e) && in_scope_result(
            fr,
            *settings,
            given_file_name@,
            e,
            file_content@,
        ))),
{
    let file_name = match paths::file_name_of(given_file_name.as_str()) {
        Some(n) => n,
        None => {
            return Err(Fault::MissingFileName);
        },
    };
    let extension = match paths::extension_of(file_name.as_str()) {
        Some(e) => e,
        None => {
            return Err(Fault::MissingExtension);
        },
    };
    match paths::source_kind_of(extension.as_str()) {
        Some(_) => (),
        None => {
            return Err(Fault::UnsupportedExtension);
        },
    };
    let excluded = backend::matches_formatter_exclude(settings, &given_file_name, &file_name)
        || backend::matches_file_resolver_exclude(settings, &given_file_name, &file_name);
    Ok(format_in_scope(excluded, &given_file_name, &file_content, &extension, settings))
}

} // verus!
