use std::path::PathBuf;

use texcache::errlog::Diagnostic;
use texcache::error::ToolchainError;
use texcache::tool::{
    compile_invocation, convert_invocation, judge_compile, judge_convert, lookup_outcome,
    plot_invocation, resolve_tool, Invocation, Operation, Tool,
};

fn strings(items: &[&str]) -> Vec<String> {
    items.iter().map(|s| s.to_string()).collect()
}

#[test]
fn tool_names() {
    assert_eq!(Tool::Compiler.executable(), "latex");
    assert_eq!(Tool::Converter.executable(), "dvisvgm");
    assert_eq!(Tool::Plotter.executable(), "gnuplot");
}

#[test]
fn compiler_gets_the_source_file_name_in_the_store() {
    assert_eq!(
        compile_invocation("/tmp/arts", "abc123"),
        Invocation {
            tool: Tool::Compiler,
            args: strings(&["abc123.tex"]),
            dir: "/tmp/arts".to_string(),
            stdin: None,
        }
    );
}

#[test]
fn converter_gets_margin_zoom_no_fonts_and_intermediate_file() {
    assert_eq!(
        convert_invocation("/tmp/arts", "abc123", "1.5"),
        Invocation {
            tool: Tool::Converter,
            args: strings(&["-b", "1", "--zoom=1.5", "--no-fonts", "/tmp/arts/abc123.dvi"]),
            dir: "/tmp/arts".to_string(),
            stdin: None,
        }
    );
}

#[test]
fn zoom_flag_spells_the_float() {
    let zoom = format!("{}", 1.0f32);
    assert_eq!(convert_invocation("s", "k", &zoom).args[2], "--zoom=1");
    let zoom = format!("{}", 0.75f32);
    assert_eq!(convert_invocation("s", "k", &zoom).args[2], "--zoom=0.75");
}

#[test]
fn plotter_is_fed_two_directives_and_the_script() {
    assert_eq!(
        plot_invocation("/tmp/arts", "abc123", "plot sin(x)\n"),
        Invocation {
            tool: Tool::Plotter,
            args: strings(&["-p"]),
            dir: "/tmp/arts".to_string(),
            stdin: Some(
                "set output 'abc123.tex'\nset terminal epslatex color standalone\nplot sin(x)\n"
                    .to_string()
            ),
        }
    );
}

#[test]
fn compile_success_is_in_order() {
    assert_eq!(judge_compile(true, "", ""), None);
    assert_eq!(judge_compile(true, "! Looks like an error\nl.3 x", "warning"), None);
}

#[test]
fn compile_failure_is_read_from_the_log() {
    assert_eq!(
        judge_compile(false, "! Undefined control sequence\nl.7 \\foo\n", ""),
        Some(ToolchainError::TypesettingError(Diagnostic {
            summary: "! Undefined control sequence".to_string(),
            context: "\\foo".to_string(),
            line_number: Some(7),
        }))
    );
}

#[test]
fn compile_failure_with_unmarked_log_still_is_a_typesetting_error() {
    assert_eq!(
        judge_compile(false, "something went wrong", "ignored"),
        Some(ToolchainError::TypesettingError(Diagnostic {
            summary: String::new(),
            context: String::new(),
            line_number: None,
        }))
    );
}

#[test]
fn compile_failure_without_output_is_a_broken_toolchain() {
    assert_eq!(
        judge_compile(false, "", "latex: error while loading shared libraries"),
        Some(ToolchainError::BrokenToolchain(
            "latex: error while loading shared libraries".to_string()
        ))
    );
}

#[test]
fn convert_success_needs_exit_and_clean_stream() {
    assert_eq!(judge_convert(true, ""), None);
    assert_eq!(judge_convert(true, "processing page 1\n  output written\n"), None);
    assert_eq!(judge_convert(true, "Error: capitalised is no marker"), None);
}

#[test]
fn convert_with_error_marker_fails_despite_exit_zero() {
    assert_eq!(
        judge_convert(true, "error: font not found"),
        Some(ToolchainError::ConversionError("error: font not found".to_string()))
    );
    assert_eq!(
        judge_convert(true, "pre\nPostScript error: undefined\n"),
        Some(ToolchainError::ConversionError("pre\nPostScript error: undefined\n".to_string()))
    );
}

#[test]
fn convert_with_bad_exit_fails() {
    assert_eq!(
        judge_convert(false, ""),
        Some(ToolchainError::ConversionError(String::new()))
    );
    assert_eq!(
        judge_convert(false, "error: x"),
        Some(ToolchainError::ConversionError("error: x".to_string()))
    );
}

#[test]
fn lookup_outcome_keeps_the_path() {
    assert_eq!(
        lookup_outcome("latex", Ok(PathBuf::from("/usr/bin/latex"))),
        Ok(PathBuf::from("/usr/bin/latex"))
    );
}

#[test]
fn lookup_outcome_names_the_missing_tool() {
    for reason in [
        which::Error::CannotFindBinaryPath,
        which::Error::BadAbsolutePath,
        which::Error::BadRelativePath,
        which::Error::CannotGetCurrentDir,
        which::Error::CannotCanonicalize,
    ] {
        assert_eq!(
            lookup_outcome("dvisvgm", Err(reason)),
            Err(ToolchainError::ToolNotFound("dvisvgm".to_string()))
        );
    }
}

#[test]
fn resolve_tool_reports_a_missing_tool_by_name() {
    assert_eq!(
        resolve_tool("no-such-tool-4f1c9a7e"),
        Err(ToolchainError::ToolNotFound("no-such-tool-4f1c9a7e".to_string()))
    );
}

#[test]
fn resolve_tool_finds_the_shell() {
    let found = resolve_tool("sh");
    assert!(matches!(&found, Ok(path) if path.is_absolute() && path.ends_with("sh")));
}

#[test]
fn errors_can_be_copied() {
    let errors = [
        ToolchainError::ToolNotFound("latex".to_string()),
        ToolchainError::IoFailure,
        ToolchainError::TypesettingError(Diagnostic {
            summary: "! x".to_string(),
            context: "y".to_string(),
            line_number: Some(3),
        }),
        ToolchainError::ConversionError("error: z".to_string()),
        ToolchainError::BrokenToolchain("w".to_string()),
    ];
    for error in errors.iter() {
        assert_eq!(&error.duplicate(), error);
    }
}

#[test]
fn call_without_input_is_located_spawned_and_waited_for() {
    let steps = vec![Operation::Locate, Operation::Spawn, Operation::Wait];
    assert_eq!(compile_invocation("s", "k").operations(), steps);
    assert_eq!(convert_invocation("s", "k", "1").operations(), steps);
}

#[test]
fn call_with_input_closes_the_stream_before_it_waits() {
    let steps = plot_invocation("s", "k", "plot x").operations();
    assert_eq!(
        steps,
        vec![
            Operation::Locate,
            Operation::Spawn,
            Operation::Feed,
            Operation::CloseInput,
            Operation::Wait,
        ]
    );
    let feed = steps.iter().position(|step| *step == Operation::Feed).unwrap();
    let close = steps.iter().position(|step| *step == Operation::CloseInput).unwrap();
    let wait = steps.iter().position(|step| *step == Operation::Wait).unwrap();
    assert!(feed < close && close < wait);
}

#[test]
fn call_with_empty_input_still_closes_the_stream() {
    let call = Invocation {
        tool: Tool::Plotter,
        args: Vec::new(),
        dir: ".".to_string(),
        stdin: Some(String::new()),
    };
    assert_eq!(call.operations().len(), 5);
}
