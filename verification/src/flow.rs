//! The rendering flows as a state machine.
//!
//! A `Flow` never touches the file system or a process. It asks for one
//! `Action` at a time; the caller performs it and reports what happened as an
//! `Event`, on which the flow moves to its next stage. Each stage whose output
//! is already on disk is skipped, so a flow that was interrupted picks up
//! where the files say it stopped.

use vstd::prelude::*;
use vstd::string::StringExecFns;

use crate::error::{outcome_view, ErrorView, ToolchainError};
use crate::key::{content_key, hash};
use crate::store::{artifact_location, artifact_path, FileKind};
use crate::text::contains;
use crate::tool::{
    compile_call, compile_invocation, compile_verdict, convert_call, convert_invocation,
    convert_verdict, judge_compile, judge_convert, plot_call, plot_invocation, Invocation,
    InvocationView, Tool,
};

verus! {

/// What the caller is asked to do next.
#[derive(Debug, PartialEq, Eq)]
pub enum Action {
    /// Find out whether a file exists at this path.
    Probe(String),
    /// Read the whole file at this path as text.
    ReadFile(String),
    /// Create the file at `path` and write `contents` to it.
    WriteFile { path: String, contents: String },
    /// Look the tool up, run it to its end and capture its output.
    Run(Invocation),
    /// Nothing more: the flow has ended with this result.
    Finish(Result<String, ToolchainError>),
}

/// An `Action` as mathematical values.
pub enum ActionView {
    Probe(Seq<char>),
    ReadFile(Seq<char>),
    WriteFile { path: Seq<char>, contents: Seq<char> },
    Run(InvocationView),
    Finish(Result<Seq<char>, ErrorView>),
}

impl View for Action {
    type V = ActionView;

    open spec fn view(&self) -> ActionView {
        match self {
            Action::Probe(path) => ActionView::Probe(path@),
            Action::ReadFile(path) => ActionView::ReadFile(path@),
            Action::WriteFile { path, contents } => ActionView::WriteFile {
                path: path@,
                contents: contents@,
            },
            Action::Run(call) => ActionView::Run(call@),
            Action::Finish(outcome) => ActionView::Finish(outcome_view(*outcome)),
        }
    }
}

/// What happened when the caller performed an action.
#[derive(Debug, Clone, PartialEq, Eq)]
pub enum Event {
    /// The probed file exists, or does not.
    Exists(bool),
    /// The file was read; this is its text.
    Contents(String),
    /// The file was written.
    Written,
    /// The tool is not on the search path; nothing was run.
    ToolMissing,
    /// The tool ran to its end.
    Exited { success: bool, stdout: String, stderr: String },
    /// The file could not be read or written, or the tool could not be fed.
    IoFailed,
}

/// An `Event` as mathematical values.
pub enum EventView {
    Exists(bool),
    Contents(Seq<char>),
    Written,
    ToolMissing,
    Exited { success: bool, stdout: Seq<char>, stderr: Seq<char> },
    IoFailed,
}

impl View for Event {
    type V = EventView;

    open spec fn view(&self) -> EventView {
        match self {
            Event::Exists(found) => EventView::Exists(*found),
            Event::Contents(text) => EventView::Contents(text@),
            Event::Written => EventView::Written,
            Event::ToolMissing => EventView::ToolMissing,
            Event::Exited { success, stdout, stderr } => EventView::Exited {
                success: *success,
                stdout: stdout@,
                stderr: stderr@,
            },
            Event::IoFailed => EventView::IoFailed,
        }
    }
}

/// The flows.
#[derive(Debug, Clone, Copy, PartialEq, Eq, Structural)]
pub enum Mode {
    /// A math fragment: wrap it in a document, compile, convert.
    Equation,
    /// A complete document: write it as it is, then compile and convert
    /// unless the vector file is there already.
    Document,
    /// A plot script: let the plotting tool write the document, then compile
    /// and convert.
    Plot,
    /// A plot script, up to the document only.
    PlotSource,
    /// An artifact whose source is in the store: compile and convert.
    Render,
}

/// Where a flow stands: the action that it waits for, or its result.
#[derive(Debug, PartialEq, Eq)]
pub enum Stage {
    /// Waiting for the text of the input file.
    ReadInput,
    /// Waiting to learn whether the source file exists.
    ProbeSource,
    /// Waiting for the source file to be written.
    WriteSource,
    /// Waiting to learn whether the vector file exists, before anything is
    /// compiled.
    ProbeCached,
    /// Waiting for the plotting tool.
    Plot,
    /// Waiting to learn whether the intermediate file exists.
    ProbeIntermediate,
    /// Waiting for the compiler.
    Compile,
    /// Waiting to learn whether the vector file exists.
    ProbeVector,
    /// Waiting to learn whether the compiler left an intermediate file.
    ConfirmIntermediate,
    /// Waiting for the converter.
    Convert,
    /// Ended, with this result.
    Finished(Result<String, ToolchainError>),
}

/// A `Stage` as mathematical values.
pub enum StageView {
    ReadInput,
    ProbeSource,
    WriteSource,
    ProbeCached,
    Plot,
    ProbeIntermediate,
    Compile,
    ProbeVector,
    ConfirmIntermediate,
    Convert,
    Finished(Result<Seq<char>, ErrorView>),
}

impl View for Stage {
    type V = StageView;

    open spec fn view(&self) -> StageView {
        match self {
            Stage::ReadInput => StageView::ReadInput,
            Stage::ProbeSource => StageView::ProbeSource,
            Stage::WriteSource => StageView::WriteSource,
            Stage::ProbeCached => StageView::ProbeCached,
            Stage::Plot => StageView::Plot,
            Stage::ProbeIntermediate => StageView::ProbeIntermediate,
            Stage::Compile => StageView::Compile,
            Stage::ProbeVector => StageView::ProbeVector,
            Stage::ConfirmIntermediate => StageView::ConfirmIntermediate,
            Stage::Convert => StageView::Convert,
            Stage::Finished(outcome) => StageView::Finished(outcome_view(*outcome)),
        }
    }
}

/// One rendering in progress.
#[derive(Debug, PartialEq, Eq)]
pub struct Flow {
    mode: Mode,
    stage: Stage,
    store: String,
    stem: String,
    text: String,
    zoom: String,
    input: String,
}

/// A `Flow` as mathematical values.
pub struct FlowView {
    /// Which flow this is.
    pub mode: Mode,
    /// Where it stands.
    pub stage: StageView,
    /// The store directory.
    pub store: Seq<char>,
    /// The stem of the artifact's files: the content key.
    pub stem: Seq<char>,
    /// The document to write, or the script to plot.
    pub text: Seq<char>,
    /// The zoom factor, as the converter is to read it.
    pub zoom: Seq<char>,
    /// The file to read the text from, where it is not given.
    pub input: Seq<char>,
}

impl View for Flow {
    type V = FlowView;

    closed spec fn view(&self) -> FlowView {
        FlowView {
            mode: self.mode,
            stage: self.stage@,
            store: self.store@,
            stem: self.stem@,
            text: self.text@,
            zoom: self.zoom@,
            input: self.input@,
        }
    }
}

/// The document that holds a math fragment: a standalone page with the two
/// math packages and the fragment in display math.
pub open spec fn equation_document(fragment: Seq<char>) -> Seq<char> {
    "\\documentclass[20pt, preview]{standalone}\n\\usepackage{amsmath}\\usepackage{amsfonts}\n\\begin{document}\n$$\n"@
        + fragment + "$$\n\\end{document}"@
}

/// The event is a possible answer to the action.
pub open spec fn answers(action: ActionView, event: EventView) -> bool {
    match action {
        ActionView::Probe(_) => event is Exists,
        ActionView::ReadFile(_) => event is Contents || event is IoFailed,
        ActionView::WriteFile { .. } => event is Written || event is IoFailed,
        ActionView::Run(_) => event is Exited || event is ToolMissing || event is IoFailed,
        ActionView::Finish(_) => false,
    }
}

/// The stage that follows the reading of the input.
pub open spec fn after_input(mode: Mode) -> StageView {
    if mode == Mode::Plot || mode == Mode::PlotSource {
        StageView::Plot
    } else {
        StageView::ProbeSource
    }
}

/// The stage that follows once the source file is in place.
pub open spec fn after_source(mode: Mode) -> StageView {
    if mode == Mode::Document {
        StageView::ProbeCached
    } else {
        StageView::ProbeIntermediate
    }
}

impl FlowView {
    /// The location of one file of the flow's artifact.
    pub open spec fn path(self, kind: FileKind) -> Seq<char> {
        artifact_path(self.store, self.stem, kind)
    }

    /// The same flow at another stage.
    pub open spec fn at(self, stage: StageView) -> FlowView {
        FlowView { stage: stage, ..self }
    }

    /// The flow, ended with a failure.
    pub open spec fn failed(self, error: ErrorView) -> FlowView {
        self.at(StageView::Finished(Err(error)))
    }

    /// The flow, ended with the location of the vector file.
    pub open spec fn rendered(self) -> FlowView {
        self.at(StageView::Finished(Ok(self.path(FileKind::Vector))))
    }

    /// The stage that follows a run of the plotting tool, whatever its exit
    /// status: the tool is taken to have left the document behind.
    pub open spec fn after_plot(self) -> StageView {
        if self.mode == Mode::Plot {
            StageView::ProbeIntermediate
        } else {
            StageView::Finished(Ok(self.path(FileKind::Source)))
        }
    }

    /// The action that the flow waits for.
    pub open spec fn pending(self) -> ActionView {
        match self.stage {
            StageView::ReadInput => ActionView::ReadFile(self.input),
            StageView::ProbeSource => ActionView::Probe(self.path(FileKind::Source)),
            StageView::WriteSource => ActionView::WriteFile {
                path: self.path(FileKind::Source),
                contents: self.text,
            },
            StageView::ProbeCached => ActionView::Probe(self.path(FileKind::Vector)),
            StageView::Plot => ActionView::Run(plot_call(self.store, self.stem, self.text)),
            StageView::ProbeIntermediate => ActionView::Probe(self.path(FileKind::Intermediate)),
            StageView::Compile => ActionView::Run(compile_call(self.store, self.stem)),
            StageView::ProbeVector => ActionView::Probe(self.path(FileKind::Vector)),
            StageView::ConfirmIntermediate => ActionView::Probe(
                self.path(FileKind::Intermediate),
            ),
            StageView::Convert => ActionView::Run(
                convert_call(self.store, self.stem, self.zoom),
            ),
            StageView::Finished(outcome) => ActionView::Finish(outcome),
        }
    }

    /// The flow after `event`. An event that does not answer the pending
    /// action changes nothing; a flow that has ended stays as it is.
    pub open spec fn step(self, event: EventView) -> FlowView {
        if !answers(self.pending(), event) {
            self
        } else if event is IoFailed {
            self.failed(ErrorView::IoFailure)
        } else {
            match self.stage {
                StageView::ReadInput => FlowView {
                    stage: after_input(self.mode),
                    stem: content_key(event->Contents_0),
                    text: event->Contents_0,
                    ..self
                },
                StageView::ProbeSource => if event->Exists_0 {
                    self.at(after_source(self.mode))
                } else {
                    self.at(StageView::WriteSource)
                },
                StageView::WriteSource => self.at(after_source(self.mode)),
                StageView::ProbeCached => if event->Exists_0 {
                    self.rendered()
                } else {
                    self.at(StageView::ProbeIntermediate)
                },
                StageView::Plot => if event is ToolMissing {
                    self.failed(ErrorView::ToolNotFound(Tool::Plotter.name()))
                } else {
                    self.at(self.after_plot())
                },
                StageView::ProbeIntermediate => if event->Exists_0 {
                    self.at(StageView::ProbeVector)
                } else {
                    self.at(StageView::Compile)
                },
                StageView::Compile => if event is ToolMissing {
                    self.failed(ErrorView::ToolNotFound(Tool::Compiler.name()))
                } else {
                    match compile_verdict(event->success, event->stdout, event->stderr) {
                        Some(error) => self.failed(error),
                        None => self.at(StageView::ProbeVector),
                    }
                },
                StageView::ProbeVector => if event->Exists_0 {
                    self.rendered()
                } else {
                    self.at(StageView::ConfirmIntermediate)
                },
                StageView::ConfirmIntermediate => if event->Exists_0 {
                    self.at(StageView::Convert)
                } else {
                    self.rendered()
                },
                StageView::Convert => if event is ToolMissing {
                    self.failed(ErrorView::ToolNotFound(Tool::Converter.name()))
                } else {
                    match convert_verdict(event->success, event->stderr) {
                        Some(error) => self.failed(error),
                        None => self.rendered(),
                    }
                },
                StageView::Finished(_) => self,
            }
        }
    }
}

/// The equation flow at its start: the fragment is wrapped in a document and
/// named by its own key, and the first question is whether the source file
/// exists.
pub open spec fn equation_flow(store: Seq<char>, fragment: Seq<char>, zoom: Seq<char>) -> FlowView {
    FlowView {
        mode: Mode::Equation,
        stage: StageView::ProbeSource,
        store: store,
        stem: content_key(fragment),
        text: equation_document(fragment),
        zoom: zoom,
        input: Seq::empty(),
    }
}

/// The raw-document flow at its start: the document is taken as it is, at
/// zoom factor one.
pub open spec fn document_flow(store: Seq<char>, document: Seq<char>) -> FlowView {
    FlowView {
        mode: Mode::Document,
        stage: StageView::ProbeSource,
        store: store,
        stem: content_key(document),
        text: document,
        zoom: "1"@,
        input: Seq::empty(),
    }
}

/// A flow whose text is still in a file, at its start: the first action is to
/// read the file; the key is that of the text that comes back.
pub open spec fn input_flow(mode: Mode, store: Seq<char>, path: Seq<char>) -> FlowView {
    FlowView {
        mode: mode,
        stage: StageView::ReadInput,
        store: store,
        stem: Seq::empty(),
        text: Seq::empty(),
        zoom: "1"@,
        input: path,
    }
}

/// The first half of the plot flow at its start: the script is named by its
/// key and handed to the plotting tool.
pub open spec fn plot_source_flow(store: Seq<char>, script: Seq<char>) -> FlowView {
    FlowView {
        mode: Mode::PlotSource,
        stage: StageView::Plot,
        store: store,
        stem: content_key(script),
        text: script,
        zoom: "1"@,
        input: Seq::empty(),
    }
}

/// The second half of every flow at its start: the source of the artifact
/// `stem` is in the store, and the first question is whether the intermediate
/// file exists.
pub open spec fn render_flow(store: Seq<char>, stem: Seq<char>, zoom: Seq<char>) -> FlowView {
    FlowView {
        mode: Mode::Render,
        stage: StageView::ProbeIntermediate,
        store: store,
        stem: stem,
        text: Seq::empty(),
        zoom: zoom,
        input: Seq::empty(),
    }
}

/// Starts the equation flow for `content` at the zoom factor that `zoom`
/// spells: the fragment is wrapped in a standalone document, which is written
/// unless it exists, compiled unless the intermediate file exists, and
/// converted unless the vector file exists.
pub fn parse_equation(store: &str, content: &str, zoom: &str) -> (flow: Flow)
    ensures
        flow@ == equation_flow(store@, content@, zoom@),
{
    let mut text = String::from_str(
        "\\documentclass[20pt, preview]{standalone}\n\\usepackage{amsmath}\\usepackage{amsfonts}\n\\begin{document}\n$$\n",
    );
    text.append(content);
    text.append("$$\n\\end{document}");
    Flow {
        mode: Mode::Equation,
        stage: Stage::ProbeSource,
        store: String::from_str(store),
        stem: hash(content),
        text,
        zoom: String::from_str(zoom),
        input: String::new(),
    }
}

/// Starts the raw-document flow for `content`: the document is written as it
/// is unless it exists; if the vector file exists nothing more is done, else
/// the document is compiled and converted at zoom factor one.
pub fn parse_latex(store: &str, content: &str) -> (flow: Flow)
    ensures
        flow@ == document_flow(store@, content@),
{
    Flow {
        mode: Mode::Document,
        stage: Stage::ProbeSource,
        store: String::from_str(store),
        stem: hash(content),
        text: String::from_str(content),
        zoom: String::from_str("1"),
        input: String::new(),
    }
}

/// Starts the raw-document flow for the document in the file at `path`.
pub fn parse_latex_from_file(store: &str, path: &str) -> (flow: Flow)
    ensures
        flow@ == input_flow(Mode::Document, store@, path@),
{
    Flow {
        mode: Mode::Document,
        stage: Stage::ReadInput,
        store: String::from_str(store),
        stem: String::new(),
        text: String::new(),
        zoom: String::from_str("1"),
        input: String::from_str(path),
    }
}

/// Starts the first half of the plot flow for the script `content`: the
/// plotting tool is fed the script and writes the document; the flow ends
/// with the location of that document.
pub fn generate_latex_from_gnuplot(store: &str, content: &str) -> (flow: Flow)
    ensures
        flow@ == plot_source_flow(store@, content@),
{
    Flow {
        mode: Mode::PlotSource,
        stage: Stage::Plot,
        store: String::from_str(store),
        stem: hash(content),
        text: String::from_str(content),
        zoom: String::from_str("1"),
        input: String::new(),
    }
}

/// Starts the plot flow for the script in the file at `path`: the script is
/// plotted into a document, which is compiled and converted at zoom factor
/// one.
pub fn generate_latex_from_gnuplot_file(store: &str, path: &str) -> (flow: Flow)
    ensures
        flow@ == input_flow(Mode::Plot, store@, path@),
{
    Flow {
        mode: Mode::Plot,
        stage: Stage::ReadInput,
        store: String::from_str(store),
        stem: String::new(),
        text: String::new(),
        zoom: String::from_str("1"),
        input: String::from_str(path),
    }
}

/// Starts the second half of every flow for the artifact `stem`, whose source
/// is in the store: it is compiled unless the intermediate file exists, and
/// converted, at the zoom factor that `zoom` spells, unless the vector file
/// exists.
pub fn generate_svg_from_latex(store: &str, stem: &str, zoom: &str) -> (flow: Flow)
    ensures
        flow@ == render_flow(store@, stem@, zoom@),
{
    Flow {
        mode: Mode::Render,
        stage: Stage::ProbeIntermediate,
        store: String::from_str(store),
        stem: String::from_str(stem),
        text: String::new(),
        zoom: String::from_str(zoom),
        input: String::new(),
    }
}

fn next_after_input(mode: Mode) -> (stage: Stage)
    ensures
        stage@ == after_input(mode),
{
    match mode {
        Mode::Plot | Mode::PlotSource => Stage::Plot,
        _ => Stage::ProbeSource,
    }
}

fn next_after_source(mode: Mode) -> (stage: Stage)
    ensures
        stage@ == after_source(mode),
{
    match mode {
        Mode::Document => Stage::ProbeCached,
        _ => Stage::ProbeIntermediate,
    }
}

fn missing(tool: Tool) -> (stage: Stage)
    ensures
        stage@ == StageView::Finished(Err(ErrorView::ToolNotFound(tool.name()))),
{
    Stage::Finished(Err(ToolchainError::ToolNotFound(String::from_str(tool.executable()))))
}

impl Flow {
    fn location(&self, kind: FileKind) -> (path: String)
        ensures
            path@ == self@.path(kind),
    {
        artifact_location(self.store.as_str(), self.stem.as_str(), kind)
    }

    fn done(&self) -> (stage: Stage)
        ensures
            stage@ == self@.rendered().stage,
    {
        Stage::Finished(Ok(self.location(FileKind::Vector)))
    }

    /// The action that the flow waits for; `Finish` with the result once it
    /// has ended.
    pub fn action(&self) -> (action: Action)
        ensures
            action@ == self@.pending(),
    {
        match &self.stage {
            Stage::ReadInput => Action::ReadFile(self.input.clone()),
            Stage::ProbeSource => Action::Probe(self.location(FileKind::Source)),
            Stage::WriteSource => Action::WriteFile {
                path: self.location(FileKind::Source),
                contents: self.text.clone(),
            },
            Stage::ProbeCached => Action::Probe(self.location(FileKind::Vector)),
            Stage::Plot => Action::Run(
                plot_invocation(self.store.as_str(), self.stem.as_str(), self.text.as_str()),
            ),
            Stage::ProbeIntermediate => Action::Probe(self.location(FileKind::Intermediate)),
            Stage::Compile => Action::Run(
                compile_invocation(self.store.as_str(), self.stem.as_str()),
            ),
            Stage::ProbeVector => Action::Probe(self.location(FileKind::Vector)),
            Stage::ConfirmIntermediate => Action::Probe(self.location(FileKind::Intermediate)),
            Stage::Convert => Action::Run(
                convert_invocation(self.store.as_str(), self.stem.as_str(), self.zoom.as_str()),
            ),
            Stage::Finished(outcome) => Action::Finish(
                match outcome {
                    Ok(path) => Ok(path.clone()),
                    Err(error) => Err(error.duplicate()),
                },
            ),
        }
    }

    /// Moves the flow on by what happened to its pending action. An event
    /// that does not answer that action changes nothing, and neither does any
    /// event once the flow has ended.
    pub fn advance(self, event: Event) -> (next: Flow)
        ensures
            next@ == self@.step(event@),
    {
        let mut flow = self;
        match (&flow.stage, event) {
            (Stage::Finished(_), _) => {},
            (Stage::ReadInput, Event::Contents(text)) => {
                flow.stem = hash(text.as_str());
                flow.text = text;
                flow.stage = next_after_input(flow.mode);
            },
            (Stage::ReadInput, Event::IoFailed)
            | (Stage::WriteSource, Event::IoFailed)
            | (Stage::Plot, Event::IoFailed)
            | (Stage::Compile, Event::IoFailed)
            | (Stage::Convert, Event::IoFailed) => {
                flow.stage = Stage::Finished(Err(ToolchainError::IoFailure));
            },
            (Stage::ProbeSource, Event::Exists(found)) => {
                flow.stage = if found {
                    next_after_source(flow.mode)
                } else {
                    Stage::WriteSource
                };
            },
            (Stage::WriteSource, Event::Written) => {
                flow.stage = next_after_source(flow.mode);
            },
            (Stage::ProbeCached, Event::Exists(found)) => {
                flow.stage = if found {
                    flow.done()
                } else {
                    Stage::ProbeIntermediate
                };
            },
            (Stage::Plot, Event::ToolMissing) => {
                flow.stage = missing(Tool::Plotter);
            },
            (Stage::Plot, Event::Exited { .. }) => {
                flow.stage = match flow.mode {
                    Mode::Plot => Stage::ProbeIntermediate,
                    _ => Stage::Finished(Ok(flow.location(FileKind::Source))),
                };
            },
            (Stage::ProbeIntermediate, Event::Exists(found)) => {
                flow.stage = if found {
                    Stage::ProbeVector
                } else {
                    Stage::Compile
                };
            },
            (Stage::Compile, Event::ToolMissing) => {
                flow.stage = missing(Tool::Compiler);
            },
            (Stage::Compile, Event::Exited { success, stdout, stderr }) => {
                flow.stage = match judge_compile(success, stdout.as_str(), stderr.as_str()) {
                    Some(error) => Stage::Finished(Err(error)),
                    None => Stage::ProbeVector,
                };
            },
            (Stage::ProbeVector, Event::Exists(found)) => {
                flow.stage = if found {
                    flow.done()
                } else {
                    Stage::ConfirmIntermediate
                };
            },
            (Stage::ConfirmIntermediate, Event::Exists(found)) => {
                flow.stage = if found {
                    Stage::Convert
                } else {
                    flow.done()
                };
            },
            (Stage::Convert, Event::ToolMissing) => {
                flow.stage = missing(Tool::Converter);
            },
            (Stage::Convert, Event::Exited { success, stdout: _, stderr }) => {
                flow.stage = match judge_convert(success, stderr.as_str()) {
                    Some(error) => Stage::Finished(Err(error)),
                    None => flow.done(),
                };
            },
            _ => {},
        }
        flow
    }
}

/// How far a stage is along the way: every answered event moves a flow to a
/// stage of higher rank.
pub open spec fn rank(stage: StageView) -> nat {
    match stage {
        StageView::ReadInput => 0,
        StageView::ProbeSource => 1,
        StageView::WriteSource => 2,
        StageView::ProbeCached => 3,
        StageView::Plot => 3,
        StageView::ProbeIntermediate => 4,
        StageView::Compile => 5,
        StageView::ProbeVector => 6,
        StageView::ConfirmIntermediate => 7,
        StageView::Convert => 8,
        StageView::Finished(_) => 9,
    }
}

/// An event that answers the pending action moves the flow to a stage of
/// higher rank; any other event leaves the flow as it is. What the flow works
/// on stays the same but for stem and text, which the input file decides.
pub proof fn lemma_step_progress(flow: FlowView, event: EventView)
    ensures
        answers(flow.pending(), event) ==> rank(flow.step(event).stage) > rank(flow.stage),
        !answers(flow.pending(), event) ==> flow.step(event) == flow,
        flow.step(event).mode == flow.mode,
        flow.step(event).store == flow.store,
        flow.step(event).zoom == flow.zoom,
        flow.step(event).input == flow.input,
        !(flow.stage is ReadInput) ==> flow.step(event).stem == flow.stem && flow.step(event).text
            == flow.text,
{
}

/// A tool that cannot be found ends the flow at once with the error that
/// names it; the flow asks for nothing after that, so nothing is written.
pub proof fn lemma_missing_tool_ends_flow(flow: FlowView)
    requires
        flow.pending() is Run,
    ensures
        flow.step(EventView::ToolMissing).stage == StageView::Finished(
            Err(ErrorView::ToolNotFound(flow.pending()->Run_0.tool.name())),
        ),
        flow.step(EventView::ToolMissing).pending() is Finish,
{
}

/// A converter whose diagnostic stream holds `error:` has failed, whatever
/// its exit status: the flow ends with a conversion error that carries the
/// stream.
pub proof fn lemma_error_marker_fails_conversion(
    flow: FlowView,
    success: bool,
    stdout: Seq<char>,
    stderr: Seq<char>,
)
    requires
        flow.stage is Convert,
        contains(stderr, "error:"@),
    ensures
        flow.step(EventView::Exited { success, stdout, stderr }).stage == StageView::Finished(
            Err(ErrorView::ConversionError(stderr)),
        ),
{
}

} // verus!
