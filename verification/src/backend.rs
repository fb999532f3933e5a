//! The trusted boundary to the external formatting capability: the ruff
//! crates that discover configuration files, match exclusion patterns, and
//! parse, rewrite and print Python source.
//!
//! Everything here is declared or wrapped; nothing is verified. Each wrapper
//! holds one step into the outside crates and the conversions around it, and
//! its contract states no more than the outside source shows. Every outside
//! step except the filesystem probes is a pure function of its arguments, so
//! its outcome is given a name that the wrappers' contracts pin exactly.

use vstd::prelude::*;
use ruff_python_parser::AsMode;
use crate::pipeline::RenderFailure;

verus! {

#[verifier::external_type_specification]
#[verifier::external_body]
pub struct ExPathBuf(std::path::PathBuf);

#[verifier::external_type_specification]
#[verifier::external_body]
pub struct ExSettings(ruff_workspace::Settings);

#[verifier::external_type_specification]
#[verifier::external_body]
pub struct ExPyFormatOptions(ruff_python_formatter::PyFormatOptions);

#[verifier::external_type_specification]
#[verifier::external_body]
#[verifier::reject_recursive_types(T)]
pub struct ExParsed<T>(ruff_python_parser::Parsed<T>);

#[verifier::external_type_specification]
#[verifier::external_body]
pub struct ExMod(ruff_python_ast::Mod);

#[verifier::external_type_specification]
#[verifier::external_body]
pub struct ExTriviaRanges(ruff_python_trivia::TriviaRanges);

/// Relies on ruff_workspace::pyproject::find_settings_toml: walks the
/// directory ancestry of the given path and returns the nearest `ruff.toml`
/// or ruff-enabled `pyproject.toml`, if one exists. The outcome depends on
/// the filesystem, so nothing is stated of it.
#[verifier::external_body]
pub(crate) fn find_settings_toml_above(path: &String) -> (r: Result<Option<std::path::PathBuf>, String>) {
    match ruff_workspace::pyproject::find_settings_toml(std::path::Path::new(path.as_str())) {
        Ok(found) => Ok(found),
        Err(e) => Err(format!("{}", e)),
    }
}

/// Relies on ruff_workspace::Settings::default: the library-intrinsic
/// default settings, used when no configuration file is found.
#[verifier::external_body]
pub(crate) fn default_settings() -> (r: ruff_workspace::Settings) {
    ruff_workspace::Settings::default()
}

/// Whether the formatter exclude set of these settings matches the full
/// path or the bare file name: the outcome of
/// ruff_workspace::resolver::match_exclusion, a pure function of its
/// arguments.
pub uninterp spec fn formatter_exclude_match(
    settings: ruff_workspace::Settings,
    path: Seq<char>,
    file_name: Seq<char>,
) -> bool;

/// Whether the file-resolver exclude set of these settings matches the full
/// path or the bare file name: the outcome of
/// ruff_workspace::resolver::match_exclusion, a pure function of its
/// arguments.
pub uninterp spec fn file_resolver_exclude_match(
    settings: ruff_workspace::Settings,
    path: Seq<char>,
    file_name: Seq<char>,
) -> bool;

/// Relies on ruff_workspace::resolver::match_exclusion with the formatter
/// exclude set of the given settings: glob matching of the path and of the
/// file name, named by [`formatter_exclude_match`].
#[verifier::external_body]
pub(crate) fn matches_formatter_exclude(
    settings: &ruff_workspace::Settings,
    path: &String,
    file_name: &String,
) -> (r: bool)
    ensures
        r == formatter_exclude_match(*settings, path@, file_name@),
{
    ruff_workspace::resolver::match_exclusion(
        std::path::Path::new(path.as_str()),
        std::path::Path::new(file_name.as_str()),
        &settings.formatter.exclude,
    )
}

/// Relies on ruff_workspace::resolver::match_exclusion with the
/// file-resolver exclude set of the given settings: glob matching of the
/// path and of the file name, named by [`file_resolver_exclude_match`].
#[verifier::external_body]
pub(crate) fn matches_file_resolver_exclude(
    settings: &ruff_workspace::Settings,
    path: &String,
    file_name: &String,
) -> (r: bool)
    ensures
        r == file_resolver_exclude_match(*settings, path@, file_name@),
{
    ruff_workspace::resolver::match_exclusion(
        std::path::Path::new(path.as_str()),
        std::path::Path::new(file_name.as_str()),
        &settings.file_resolver.exclude,
    )
}

/// The formatting options that the settings yield for this extension,
/// source text and path: the outcome of FormatterSettings::to_format_options
/// on the source type of the extension, a pure function of its arguments.
pub uninterp spec fn built_options(
    settings: ruff_workspace::Settings,
    extension: Seq<char>,
    source: Seq<char>,
    path: Seq<char>,
) -> ruff_python_formatter::PyFormatOptions;

/// Relies on ruff_workspace FormatterSettings::to_format_options, with the
/// source type that ruff_python_ast PySourceType::from_extension gives for
/// the extension: builds the formatting options named by [`built_options`]
/// from the settings, the source text (line-ending and quote detection) and
/// the path.
#[verifier::external_body]
pub(crate) fn format_options_for(
    settings: &ruff_workspace::Settings,
    extension: &String,
    content: &String,
    path: &String,
) -> (r: ruff_python_formatter::PyFormatOptions)
    ensures
        r == built_options(*settings, extension@, content@, path@),
{
    let source_type = ruff_python_ast::PySourceType::from_extension(extension.as_str());
    settings.formatter.to_format_options(
        source_type,
        content.as_str(),
        Some(std::path::Path::new(path.as_str())),
    )
}

/// The displayed message of the parse error that the external parser reports
/// for this source text, in the ordinary mode or, for a notebook, in the
/// escape-command-aware mode; nothing if the text parses. The parser's
/// outcome is a function of the source text and the mode alone.
pub uninterp spec fn py_parse_error(source: Seq<char>, notebook: bool) -> Option<Seq<char>>;

/// The parsed tree that the external parser yields for this source text and
/// mode; meaningful when [`py_parse_error`] reports no error.
pub uninterp spec fn py_parsed(source: Seq<char>, notebook: bool) -> ruff_python_parser::Parsed<
    ruff_python_ast::Mod,
>;

/// Relies on ruff_python_parser::parse, in the mode that
/// PySourceType::as_mode gives for the extension's source type (the
/// escape-command-aware mode exactly for the `ipynb` extension, the module
/// mode otherwise): parses the source text into the tree named by
/// [`py_parsed`], or reports the error named by [`py_parse_error`] when it
/// is malformed.
#[verifier::external_body]
pub(crate) fn parse_source(
    source: &String,
    extension: &String,
) -> (r: Result<ruff_python_parser::Parsed<ruff_python_ast::Mod>, String>)
    ensures
        (r matches Ok(_)) <==> py_parse_error(
            source@,
            crate::paths::is_notebook_ext(extension@),
        ) is None,
        r matches Ok(p) ==> p == py_parsed(source@, crate::paths::is_notebook_ext(extension@)),
        r matches Err(m) ==> py_parse_error(
            source@,
            crate::paths::is_notebook_ext(extension@),
        ) matches Some(ms) && m@ == ms,
{
    let source_type = ruff_python_ast::PySourceType::from_extension(extension.as_str());
    match ruff_python_parser::parse(source.as_str(), source_type.as_mode().into()) {
        Ok(parsed) => Ok(parsed),
        Err(e) => Err(format!("{}", e)),
    }
}

/// The comment and whitespace index of this parsed tree's token stream: the
/// outcome of TriviaRanges::from, a pure function of the tree.
pub uninterp spec fn trivia_index_of(
    parsed: ruff_python_parser::Parsed<ruff_python_ast::Mod>,
) -> ruff_python_trivia::TriviaRanges;

/// Relies on Parsed::tokens and ruff_python_trivia TriviaRanges::from:
/// indexes the comment and whitespace ranges of the token stream, named by
/// [`trivia_index_of`], which the formatting transform needs to preserve
/// comments.
#[verifier::external_body]
pub(crate) fn trivia_ranges_of(
    parsed: &ruff_python_parser::Parsed<ruff_python_ast::Mod>,
) -> (r: ruff_python_trivia::TriviaRanges)
    ensures
        r == trivia_index_of(*parsed),
{
    ruff_python_trivia::TriviaRanges::from(parsed.tokens())
}

/// The displayed message of the error that format_module_ast reports when
/// rewriting this tree with this trivia index, source text and options;
/// nothing if the transform succeeds. A pure function of its arguments.
pub uninterp spec fn py_transform_error(
    parsed: ruff_python_parser::Parsed<ruff_python_ast::Mod>,
    trivia: ruff_python_trivia::TriviaRanges,
    source: Seq<char>,
    options: ruff_python_formatter::PyFormatOptions,
) -> Option<Seq<char>>;

/// The displayed message of the error that Formatted::print reports when
/// rendering the tree that the transform produces from these arguments;
/// nothing if printing succeeds. Meaningful when [`py_transform_error`]
/// reports no error.
pub uninterp spec fn py_print_error(
    parsed: ruff_python_parser::Parsed<ruff_python_ast::Mod>,
    trivia: ruff_python_trivia::TriviaRanges,
    source: Seq<char>,
    options: ruff_python_formatter::PyFormatOptions,
) -> Option<Seq<char>>;

/// The printed text of the tree that the transform produces from these
/// arguments: the code of Printed::into_code. Meaningful when neither
/// [`py_transform_error`] nor [`py_print_error`] reports an error.
pub uninterp spec fn py_rendered(
    parsed: ruff_python_parser::Parsed<ruff_python_ast::Mod>,
    trivia: ruff_python_trivia::TriviaRanges,
    source: Seq<char>,
    options: ruff_python_formatter::PyFormatOptions,
) -> Seq<char>;

/// Relies on ruff_python_formatter::format_module_ast and on ruff_formatter
/// Formatted::print and Printed::into_code: rewrites the parsed tree and
/// renders it back to text. Exactly one of the three named outcomes holds:
/// the transform fails with the message of [`py_transform_error`], printing
/// fails with the message of [`py_print_error`], or the printed text of
/// [`py_rendered`] comes back. The intermediate formatted tree borrows the
/// arguments, so the two stages stand behind one wrapper.
#[verifier::external_body]
pub(crate) fn render(
    parsed: &ruff_python_parser::Parsed<ruff_python_ast::Mod>,
    trivia: &ruff_python_trivia::TriviaRanges,
    source: &String,
    options: ruff_python_formatter::PyFormatOptions,
) -> (r: Result<String, RenderFailure>)
    ensures
        r matches Ok(code) ==> (py_transform_error(*parsed, *trivia, source@, options) is None
            && py_print_error(*parsed, *trivia, source@, options) is None && code@ == py_rendered(
            *parsed,
            *trivia,
            source@,
            options,
        )),
        r matches Err(RenderFailure::Transform { message }) ==> (py_transform_error(
            *parsed,
            *trivia,
            source@,
            options,
        ) matches Some(m) && message@ == m),
        r matches Err(RenderFailure::Print { message }) ==> (py_transform_error(
            *parsed,
            *trivia,
            source@,
            options,
        ) is None && (py_print_error(*parsed, *trivia, source@, options) matches Some(m)
            && message@ == m)),
{
    match ruff_python_formatter::format_module_ast(parsed, trivia, source.as_str(), options) {
        Ok(formatted) => match formatted.print() {
            Ok(printed) => Ok(printed.into_code()),
            Err(e) => Err(RenderFailure::Print { message: format!("{}", e) }),
        },
        Err(e) => Err(RenderFailure::Transform { message: format!("{}", e) }),
    }
}

} // verus!
