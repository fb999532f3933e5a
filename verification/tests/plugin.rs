use foro_ruff::paths::{extension_of, file_name_of, source_kind_of, SourceKind};
use foro_ruff::pipeline::{prepare_settings, Fault, FormatResult, SettingsPlan};
use foro_ruff::protocol::{read_request, response_for, Response};
use ruff_linter::settings::types::{FilePattern, FilePatternSet, GlobPath};
use ruff_workspace::Settings;

fn settings_with_file_resolver_exclude(pattern: &str, root: &str) -> Settings {
    let mut settings = Settings::default();
    settings.file_resolver.exclude = FilePatternSet::try_from_iter([FilePattern::User(
        pattern.to_string(),
        GlobPath::normalize(pattern, root),
    )])
    .unwrap();
    settings
}

fn settings_with_formatter_exclude(pattern: &str, root: &str) -> Settings {
    let mut settings = Settings::default();
    settings.formatter.exclude = FilePatternSet::try_from_iter([FilePattern::User(
        pattern.to_string(),
        GlobPath::normalize(pattern, root),
    )])
    .unwrap();
    settings
}

#[test]
fn file_name_of_nested_path() {
    assert_eq!(file_name_of("pkg/sub/file.py"), Some("file.py".to_string()));
    assert_eq!(file_name_of("file.py"), Some("file.py".to_string()));
    assert_eq!(file_name_of("pkg/sub/"), Some("sub".to_string()));
    assert_eq!(file_name_of("a/b.py/"), Some("b.py".to_string()));
    assert_eq!(file_name_of("///"), None);
    assert_eq!(file_name_of(""), None);
}

#[test]
fn extension_of_file_names() {
    assert_eq!(extension_of("file.py"), Some("py".to_string()));
    assert_eq!(extension_of("archive.tar.gz"), Some("gz".to_string()));
    assert_eq!(extension_of(".gitignore"), None);
    assert_eq!(extension_of("noext"), None);
}

#[test]
fn source_kind_of_extensions() {
    assert_eq!(source_kind_of("py"), Some(SourceKind::Python));
    assert_eq!(source_kind_of("pyw"), Some(SourceKind::Python));
    assert_eq!(source_kind_of("pyi"), Some(SourceKind::Stub));
    assert_eq!(source_kind_of("ipynb"), Some(SourceKind::Notebook));
    assert_eq!(source_kind_of("txt"), None);
    assert_eq!(source_kind_of(""), None);
}

#[test]
fn formats_simple_assignment() {
    let settings = Settings::default();
    let result = foro_ruff::pipeline::format(
        "pkg/sub/file.py".to_string(),
        "x=1\n".to_string(),
        &settings,
    );
    match result {
        Ok(FormatResult::Success { formatted_content }) => {
            assert_eq!(formatted_content, "x = 1\n");
        }
        _ => panic!("expected a success outcome"),
    }
}

#[test]
fn syntax_error_is_a_data_result() {
    let settings = Settings::default();
    let result = foro_ruff::pipeline::format(
        "pkg/sub/file.py".to_string(),
        "def f(:\n".to_string(),
        &settings,
    );
    match result {
        Ok(FormatResult::Error { error }) => {
            assert!(error.starts_with("Syntax error: "), "got: {}", error);
        }
        _ => panic!("expected an error outcome"),
    }
}

#[test]
fn formatting_is_idempotent() {
    let settings = Settings::default();
    let source = "def f( a,b ):\n   return a+b\n".to_string();
    let once = match foro_ruff::pipeline::format("m.py".to_string(), source, &settings) {
        Ok(FormatResult::Success { formatted_content }) => formatted_content,
        _ => panic!("expected a success outcome"),
    };
    let twice = match foro_ruff::pipeline::format("m.py".to_string(), once.clone(), &settings) {
        Ok(FormatResult::Success { formatted_content }) => formatted_content,
        _ => panic!("expected a success outcome"),
    };
    assert_eq!(once, twice);
}

#[test]
fn formatted_output_reparses() {
    let settings = Settings::default();
    let source = "x=[1,2,   3]\ny = { 'a':1 }\n".to_string();
    let out = match foro_ruff::pipeline::format("m.py".to_string(), source, &settings) {
        Ok(FormatResult::Success { formatted_content }) => formatted_content,
        _ => panic!("expected a success outcome"),
    };
    let reparsed = ruff_python_parser::parse(
        &out,
        ruff_python_parser::ParseOptions::from(ruff_python_parser::Mode::Module),
    );
    assert!(reparsed.is_ok());
}

#[test]
fn file_resolver_exclusion_is_ignored() {
    let settings = settings_with_file_resolver_exclude("sub/*", "/proj");
    let result = foro_ruff::pipeline::format(
        "/proj/sub/file.py".to_string(),
        "x=1\n".to_string(),
        &settings,
    );
    assert!(matches!(result, Ok(FormatResult::Ignored)));
}

#[test]
fn formatter_exclusion_is_ignored() {
    let settings = settings_with_formatter_exclude("sub/*", "/proj");
    let result = foro_ruff::pipeline::format(
        "/proj/sub/file.py".to_string(),
        "x=1\n".to_string(),
        &settings,
    );
    assert!(matches!(result, Ok(FormatResult::Ignored)));
}

#[test]
fn basename_exclusion_is_ignored() {
    let settings = settings_with_file_resolver_exclude("file.py", "/proj");
    let result = foro_ruff::pipeline::format(
        "pkg/sub/file.py".to_string(),
        "x=1\n".to_string(),
        &settings,
    );
    assert!(matches!(result, Ok(FormatResult::Ignored)));
}

#[test]
fn missing_extension_is_a_fault() {
    let settings = Settings::default();
    let result = foro_ruff::pipeline::format("pkg/noext".to_string(), "x=1\n".to_string(), &settings);
    assert!(matches!(result, Err(Fault::MissingExtension)));
}

#[test]
fn missing_file_name_is_a_fault() {
    let settings = Settings::default();
    let result = foro_ruff::pipeline::format("///".to_string(), "x=1\n".to_string(), &settings);
    assert!(matches!(result, Err(Fault::MissingFileName)));
    let result = foro_ruff::pipeline::format("".to_string(), "x=1\n".to_string(), &settings);
    assert!(matches!(result, Err(Fault::MissingFileName)));
}

#[test]
fn unrecognized_extension_is_a_fault() {
    let settings = Settings::default();
    let result = foro_ruff::pipeline::format("notes.txt".to_string(), "x=1\n".to_string(), &settings);
    assert!(matches!(result, Err(Fault::UnsupportedExtension)));
}

#[test]
fn trailing_slash_is_skipped() {
    let settings = Settings::default();
    let result = foro_ruff::pipeline::format(
        "pkg/file.py/".to_string(),
        "x=1\n".to_string(),
        &settings,
    );
    match result {
        Ok(FormatResult::Success { formatted_content }) => {
            assert_eq!(formatted_content, "x = 1\n");
        }
        _ => panic!("expected a success outcome"),
    }
}

#[test]
fn missing_config_uses_defaults_silently() {
    let plan = prepare_settings(&"pkg/sub/file.py".to_string());
    assert!(matches!(plan, Ok(SettingsPlan::Ready(_))));
}

#[test]
fn missing_target_is_a_panic() {
    let r = read_request(
        Err("target not found in input".to_string()),
        Ok("x=1\n".to_string()),
    );
    match r {
        Err(Response::Panic { message }) => {
            assert_eq!(message, "Failed to get target: target not found in input");
        }
        _ => panic!("expected a panic response"),
    }
}

#[test]
fn missing_target_content_is_a_panic() {
    let r = read_request(
        Ok("pkg/sub/file.py".to_string()),
        Err("target-content not found in input".to_string()),
    );
    match r {
        Err(Response::Panic { message }) => {
            assert_eq!(
                message,
                "Failed to get target-content: target-content not found in input"
            );
        }
        _ => panic!("expected a panic response"),
    }
}

#[test]
fn well_formed_request_passes_through() {
    let r = read_request(
        Ok("pkg/sub/file.py".to_string()),
        Ok("x=1\n".to_string()),
    );
    match r {
        Ok((target, content)) => {
            assert_eq!(target, "pkg/sub/file.py");
            assert_eq!(content, "x=1\n");
        }
        _ => panic!("expected the fields back"),
    }
}

#[test]
fn responses_carry_their_status() {
    let success = response_for(Ok(FormatResult::Success {
        formatted_content: "x = 1\n".to_string(),
    }));
    assert_eq!(success.format_status(), Some("success"));
    match success {
        Response::Success { formatted_content } => assert_eq!(formatted_content, "x = 1\n"),
        _ => panic!("expected a success response"),
    }

    let ignored = response_for(Ok(FormatResult::Ignored));
    assert_eq!(ignored.format_status(), Some("ignored"));
    assert!(matches!(ignored, Response::Ignored));

    let error = response_for(Ok(FormatResult::Error {
        error: "Syntax error: boom".to_string(),
    }));
    assert_eq!(error.format_status(), Some("error"));
    match error {
        Response::Error { error } => assert_eq!(error, "Syntax error: boom"),
        _ => panic!("expected an error response"),
    }
}

#[test]
fn faults_become_panic_responses() {
    let r = response_for(Err(Fault::MissingExtension));
    match r {
        Response::Panic { message } => {
            assert_eq!(message, "Failed to get file extension");
            assert_eq!(response_for(Err(Fault::MissingExtension)).format_status(), None);
        }
        _ => panic!("expected a panic response"),
    }

    let r = response_for(Err(Fault::Config {
        message: "bad config".to_string(),
    }));
    match r {
        Response::Panic { message } => assert_eq!(message, "bad config"),
        _ => panic!("expected a panic response"),
    }
}
