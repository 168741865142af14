//! The external tools: how each is called and how its output is judged.

use std::path::PathBuf;
use vstd::prelude::*;
use vstd::string::StringExecFns;

use crate::errlog::{parse_error_log, report};
use crate::error::{ErrorView, ToolchainError};
use crate::store::{artifact_file_name, artifact_location, artifact_path, file_name, FileKind};
use crate::text::{chars_of, contains, has_infix};

verus! {

/// A path of the file system, as the standard library holds it.
#[verifier::external_type_specification]
#[verifier::external_body]
pub struct ExPathBuf(std::path::PathBuf);

/// The reason for which `which` found no executable.
#[verifier::external_type_specification]
#[verifier::external_body]
pub struct ExWhichError(which::Error);

/// The three executables of the toolchain.
#[derive(Debug, Clone, Copy, PartialEq, Eq, Structural)]
pub enum Tool {
    /// The typesetting compiler: source to intermediate.
    Compiler,
    /// The converter: intermediate to vector.
    Converter,
    /// The plotting tool: script to source.
    Plotter,
}

impl Tool {
    /// The name under which the tool is looked up.
    pub open spec fn name(self) -> Seq<char> {
        match self {
            Tool::Compiler => "latex"@,
            Tool::Converter => "dvisvgm"@,
            Tool::Plotter => "gnuplot"@,
        }
    }

    /// The name under which the tool is looked up.
    pub fn executable(self) -> (name: &'static str)
        ensures
            name@ == self.name(),
    {
        match self {
            Tool::Compiler => "latex",
            Tool::Converter => "dvisvgm",
            Tool::Plotter => "gnuplot",
        }
    }
}

/// One call of an external tool: what to run, with which arguments, where, and
/// what to feed it.
#[derive(Debug, Clone, PartialEq, Eq)]
pub struct Invocation {
    /// The tool to look up and run.
    pub tool: Tool,
    /// Its arguments, in order.
    pub args: Vec<String>,
    /// The directory to run it in.
    pub dir: String,
    /// What to write to its input stream before closing it and waiting for the
    /// exit; `None` where the tool gets no input.
    pub stdin: Option<String>,
}

/// An `Invocation` as mathematical values.
pub struct InvocationView {
    pub tool: Tool,
    pub args: Seq<Seq<char>>,
    pub dir: Seq<char>,
    pub stdin: Option<Seq<char>>,
}

/// The texts that a list of strings holds.
pub open spec fn texts(strings: Seq<String>) -> Seq<Seq<char>> {
    Seq::new(strings.len(), |i: int| strings[i]@)
}

impl View for Invocation {
    type V = InvocationView;

    open spec fn view(&self) -> InvocationView {
        InvocationView {
            tool: self.tool,
            args: texts(self.args@),
            dir: self.dir@,
            stdin: match self.stdin {
                Some(input) => Some(input@),
                None => None,
            },
        }
    }
}

/// The steps of one call, each of which the caller performs on the operating
/// system.
#[derive(Debug, Clone, Copy, PartialEq, Eq, Structural)]
pub enum Operation {
    /// Look the tool up on the search path.
    Locate,
    /// Start the process in its directory, with its arguments.
    Spawn,
    /// Write the whole input to the input stream of the process.
    Feed,
    /// Close the input stream of the process.
    CloseInput,
    /// Block until the process has ended and take its exit status and its
    /// two output streams.
    Wait,
}

/// The steps of a call, in the order in which they are to be performed. A
/// call with input feeds the process and closes its input stream before it
/// waits: a process that reads to the end of its input would never end
/// otherwise.
pub open spec fn operations(call: InvocationView) -> Seq<Operation> {
    if call.stdin is Some {
        seq![
            Operation::Locate,
            Operation::Spawn,
            Operation::Feed,
            Operation::CloseInput,
            Operation::Wait,
        ]
    } else {
        seq![Operation::Locate, Operation::Spawn, Operation::Wait]
    }
}

impl Invocation {
    /// The steps of this call, in the order in which they are to be
    /// performed.
    pub fn operations(&self) -> (steps: Vec<Operation>)
        ensures
            steps@ == operations(self@),
    {
        let mut steps: Vec<Operation> = Vec::new();
        steps.push(Operation::Locate);
        steps.push(Operation::Spawn);
        if self.stdin.is_some() {
            steps.push(Operation::Feed);
            steps.push(Operation::CloseInput);
        }
        steps.push(Operation::Wait);
        steps
    }
}

/// Every call looks the tool up first and waits last, once; and where it
/// feeds the process, it closes the input stream after feeding and before
/// waiting.
pub proof fn lemma_input_is_closed_before_waiting(call: InvocationView)
    ensures
        operations(call).first() == Operation::Locate,
        operations(call).last() == Operation::Wait,
        forall|i: int|
            0 <= i < operations(call).len() - 1 ==> #[trigger] operations(call)[i]
                != Operation::Wait,
        forall|i: int|
            0 <= i < operations(call).len() && #[trigger] operations(call)[i] == Operation::Feed
                ==> operations(call)[i + 1] == Operation::CloseInput && i + 1 < operations(
                call,
            ).len() - 1,
        call.stdin is Some <==> operations(call).contains(Operation::Feed),
{
    if call.stdin is Some {
        assert(operations(call)[2] == Operation::Feed);
    }
}

/// The call that compiles the source of the artifact `key`: the compiler runs
/// in the store directory with the name of the source file as its only
/// argument.
pub open spec fn compile_call(store: Seq<char>, key: Seq<char>) -> InvocationView {
    InvocationView {
        tool: Tool::Compiler,
        args: seq![file_name(key, FileKind::Source)],
        dir: store,
        stdin: None,
    }
}

/// The call that converts the intermediate file of the artifact `key`: a
/// bounding-box margin of one, the zoom factor, no embedded fonts, and the
/// location of the intermediate file.
pub open spec fn convert_call(store: Seq<char>, key: Seq<char>, zoom: Seq<char>) -> InvocationView {
    InvocationView {
        tool: Tool::Converter,
        args: seq![
            "-b"@,
            "1"@,
            "--zoom="@ + zoom,
            "--no-fonts"@,
            artifact_path(store, key, FileKind::Intermediate),
        ],
        dir: store,
        stdin: None,
    }
}

/// What the plotting tool is fed: the directive that names the output file,
/// the directive that selects the backend, then the script itself.
pub open spec fn plot_input(key: Seq<char>, script: Seq<char>) -> Seq<char> {
    "set output '"@ + file_name(key, FileKind::Source) + "'\n"@
        + "set terminal epslatex color standalone\n"@ + script
}

/// The call that plots `script` into the source file of the artifact `key`.
pub open spec fn plot_call(store: Seq<char>, key: Seq<char>, script: Seq<char>) -> InvocationView {
    InvocationView {
        tool: Tool::Plotter,
        args: seq!["-p"@],
        dir: store,
        stdin: Some(plot_input(key, script)),
    }
}

/// The call that compiles the source of the artifact `key` in `store`.
pub fn compile_invocation(store: &str, key: &str) -> (call: Invocation)
    ensures
        call@ == compile_call(store@, key@),
{
    let mut args: Vec<String> = Vec::new();
    args.push(artifact_file_name(key, FileKind::Source));
    assert(texts(args@) == seq![file_name(key@, FileKind::Source)]);
    Invocation { tool: Tool::Compiler, args, dir: String::from_str(store), stdin: None }
}

/// The call that converts the intermediate file of the artifact `key` in
/// `store` at the zoom factor that `zoom` spells.
pub fn convert_invocation(store: &str, key: &str, zoom: &str) -> (call: Invocation)
    ensures
        call@ == convert_call(store@, key@, zoom@),
{
    let mut zoom_flag = String::from_str("--zoom=");
    zoom_flag.append(zoom);
    let mut args: Vec<String> = Vec::new();
    args.push(String::from_str("-b"));
    args.push(String::from_str("1"));
    args.push(zoom_flag);
    args.push(String::from_str("--no-fonts"));
    args.push(artifact_location(store, key, FileKind::Intermediate));
    assert(texts(args@) == convert_call(store@, key@, zoom@).args);
    Invocation { tool: Tool::Converter, args, dir: String::from_str(store), stdin: None }
}

/// The call that plots `script` into the source file of the artifact `key` in
/// `store`.
pub fn plot_invocation(store: &str, key: &str, script: &str) -> (call: Invocation)
    ensures
        call@ == plot_call(store@, key@, script@),
{
    let mut input = String::from_str("set output '");
    let name = artifact_file_name(key, FileKind::Source);
    input.append(name.as_str());
    input.append("'\n");
    input.append("set terminal epslatex color standalone\n");
    input.append(script);
    let mut args: Vec<String> = Vec::new();
    args.push(String::from_str("-p"));
    assert(texts(args@) == seq!["-p"@]);
    Invocation { tool: Tool::Plotter, args, dir: String::from_str(store), stdin: Some(input) }
}

/// How a run of the compiler is judged. A run that succeeded is in order. One
/// that failed without printing anything is a broken installation; any other
/// failure is an error in the source, read from the log that the compiler
/// printed.
pub open spec fn compile_verdict(success: bool, stdout: Seq<char>, stderr: Seq<char>) -> Option<
    ErrorView,
> {
    if success {
        None
    } else if stdout.len() == 0 {
        Some(ErrorView::BrokenToolchain(stderr))
    } else {
        Some(ErrorView::TypesettingError(report(stdout)))
    }
}

/// How a run of the converter is judged: it is in order only if it succeeded
/// and its diagnostic stream does not hold `error:`.
pub open spec fn convert_verdict(success: bool, stderr: Seq<char>) -> Option<ErrorView> {
    if success && !contains(stderr, "error:"@) {
        None
    } else {
        Some(ErrorView::ConversionError(stderr))
    }
}

/// The views of an optional error.
pub open spec fn verdict_view(verdict: Option<ToolchainError>) -> Option<ErrorView> {
    match verdict {
        Some(error) => Some(error@),
        None => None,
    }
}

/// Judges a run of the compiler by its exit status and its two output
/// streams.
pub fn judge_compile(success: bool, stdout: &str, stderr: &str) -> (verdict: Option<ToolchainError>)
    ensures
        verdict_view(verdict) == compile_verdict(success, stdout@, stderr@),
{
    if success {
        None
    } else if stdout.is_empty() {
        Some(ToolchainError::BrokenToolchain(String::from_str(stderr)))
    } else {
        Some(ToolchainError::TypesettingError(parse_error_log(stdout)))
    }
}

/// Judges a run of the converter by its exit status and its diagnostic
/// stream.
pub fn judge_convert(success: bool, stderr: &str) -> (verdict: Option<ToolchainError>)
    ensures
        verdict_view(verdict) == convert_verdict(success, stderr@),
{
    let marker = chars_of("error:");
    let text = chars_of(stderr);
    if success && !has_infix(text.as_slice(), marker.as_slice()) {
        None
    } else {
        Some(ToolchainError::ConversionError(String::from_str(stderr)))
    }
}

/// Calls `which::which`, which searches the directories of `PATH` (or, for a
/// name with a separator, the working directory) for an executable file.
/// Nothing is claimed of the answer: it depends on the environment and on the
/// file system at the time of the call.
#[verifier::external_body]
fn which_binary(name: &str) -> (found: Result<PathBuf, which::Error>) {
    which::which(name)
}

/// What a search for `name` that ended in `found` means for the pipeline: the
/// path where there is one, and otherwise the error that names the tool.
pub fn lookup_outcome(name: &str, found: Result<PathBuf, which::Error>) -> (outcome: Result<
    PathBuf,
    ToolchainError,
>)
    ensures
        found is Ok ==> outcome is Ok && outcome->Ok_0 == found->Ok_0,
        found is Err ==> outcome is Err && outcome->Err_0@ == ErrorView::ToolNotFound(name@),
{
    match found {
        Ok(path) => Ok(path),
        Err(_) => Err(ToolchainError::ToolNotFound(String::from_str(name))),
    }
}

/// Looks `name` up on the search path. The lookup is made anew at every call.
/// Whether it succeeds is decided by the environment; when it fails, the error
/// names the tool.
pub fn resolve_tool(name: &str) -> (outcome: Result<PathBuf, ToolchainError>)
    ensures
        outcome is Err ==> outcome->Err_0@ == ErrorView::ToolNotFound(name@),
{
    lookup_outcome(name, which_binary(name))
}

} // verus!
