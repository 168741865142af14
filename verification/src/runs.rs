//! Whole runs of a flow.
//!
//! A flow is driven by a series of events. This module says what holds of
//! every such series, what a flow does while it only asks for files that are
//! known to exist or not, and what it does from start to end against a
//! toolchain that always succeeds.

use vstd::prelude::*;

use crate::flow::{
    answers, document_flow, equation_document, equation_flow, lemma_step_progress, rank,
    ActionView, EventView, FlowView, StageView,
};
use crate::key::content_key;
use crate::store::{artifact_path, lemma_kinds_have_distinct_paths, FileKind};
use crate::text::{contains, occurs_at};
use crate::tool::{compile_call, convert_call};

verus! {

impl FlowView {
    /// The flow after a series of events.
    pub open spec fn run(self, events: Seq<EventView>) -> FlowView
        decreases events.len(),
    {
        if events.len() == 0 {
            self
        } else {
            self.run(events.drop_last()).step(events.last())
        }
    }

    /// The flow as it stands when the first `n` of `events` have happened.
    pub open spec fn after(self, events: Seq<EventView>, n: int) -> FlowView {
        self.run(events.take(n))
    }

    /// Each of `events` answers the action that the flow waits for when it
    /// happens: the series is what a caller reports who performs every
    /// action that is asked for.
    pub open spec fn answered_by(self, events: Seq<EventView>) -> bool {
        forall|n: int|
            0 <= n < events.len() ==> answers(
                (#[trigger] self.after(events, n)).pending(),
                events[n],
            )
    }

    /// The flow when it stops asking whether files exist, where the files in
    /// `files` exist and no others. `limit` bounds the number of questions.
    pub open spec fn settle(self, files: Set<Seq<char>>, limit: nat) -> FlowView
        decreases limit,
    {
        if limit == 0 {
            self
        } else {
            match self.pending() {
                ActionView::Probe(path) => self.step(EventView::Exists(files.contains(path))).settle(
                    files,
                    (limit - 1) as nat,
                ),
                _ => self,
            }
        }
    }
}

/// Along a series of events that answer, the rank of the stage grows with
/// every event.
pub proof fn lemma_run_progress(flow: FlowView, events: Seq<EventView>, m: int, n: int)
    requires
        flow.answered_by(events),
        0 <= m <= n <= events.len(),
    ensures
        rank(flow.after(events, m).stage) + (n - m) <= rank(flow.after(events, n).stage),
    decreases n - m,
{
    if m < n {
        lemma_run_progress(flow, events, m, n - 1);
        let prefix = events.take(n);
        assert(prefix.drop_last() == events.take(n - 1));
        assert(prefix.last() == events[n - 1]);
        assert(flow.after(events, n) == flow.after(events, n - 1).step(events[n - 1]));
        lemma_step_progress(flow.after(events, n - 1), events[n - 1]);
    }
}

/// No flow takes more than nine answers: nothing is ever tried again.
pub proof fn lemma_run_bounded(flow: FlowView, events: Seq<EventView>)
    requires
        flow.answered_by(events),
    ensures
        rank(flow.stage) + events.len() <= rank(flow.run(events).stage) <= 9,
{
    lemma_run_progress(flow, events, 0, events.len() as int);
    assert(events.take(0) == Seq::<EventView>::empty());
    assert(events.take(events.len() as int) == events);
}

/// No tool is run twice: of the actions that a flow asks for, whatever the
/// answers, no two run the same tool.
pub proof fn lemma_each_tool_runs_once(flow: FlowView, events: Seq<EventView>, m: int, n: int)
    requires
        flow.answered_by(events),
        0 <= m < n <= events.len(),
        flow.after(events, m).pending() is Run,
        flow.after(events, n).pending() is Run,
    ensures
        flow.after(events, m).pending()->Run_0.tool != flow.after(events, n).pending()->Run_0.tool,
{
    lemma_run_progress(flow, events, m, n);
}

/// Once a flow has ended it asks for nothing more and no event changes it.
pub proof fn lemma_finished_stays(flow: FlowView, events: Seq<EventView>)
    requires
        flow.stage is Finished,
    ensures
        flow.run(events) == flow,
        flow.pending() == ActionView::Finish(flow.stage->Finished_0),
    decreases events.len(),
{
    if events.len() > 0 {
        lemma_finished_stays(flow, events.drop_last());
    }
}

/// A second run of the equation flow on the same content calls no tool and
/// writes no file: where the three files of the artifact exist, the flow only
/// asks for them and ends with the location of the vector file.
pub proof fn lemma_equation_flow_cached(
    store: Seq<char>,
    fragment: Seq<char>,
    zoom: Seq<char>,
    files: Set<Seq<char>>,
    limit: nat,
)
    requires
        files.contains(artifact_path(store, content_key(fragment), FileKind::Source)),
        files.contains(artifact_path(store, content_key(fragment), FileKind::Intermediate)),
        files.contains(artifact_path(store, content_key(fragment), FileKind::Vector)),
        limit >= 3,
    ensures
        equation_flow(store, fragment, zoom).settle(files, limit).stage == StageView::Finished(
            Ok(artifact_path(store, content_key(fragment), FileKind::Vector)),
        ),
{
    reveal_with_fuel(FlowView::settle, 4);
}

/// A second run of the raw-document flow on the same content calls no tool
/// and writes no file: where the source and the vector file exist, the flow
/// only asks for the two and ends with the location of the vector file,
/// whether or not the intermediate file is still there.
pub proof fn lemma_document_flow_cached(
    store: Seq<char>,
    document: Seq<char>,
    files: Set<Seq<char>>,
    limit: nat,
)
    requires
        files.contains(artifact_path(store, content_key(document), FileKind::Source)),
        files.contains(artifact_path(store, content_key(document), FileKind::Vector)),
        limit >= 2,
    ensures
        document_flow(store, document).settle(files, limit).stage == StageView::Finished(
            Ok(artifact_path(store, content_key(document), FileKind::Vector)),
        ),
{
    reveal_with_fuel(FlowView::settle, 3);
}

/// Where the intermediate and the vector file exist, a flow that asks for the
/// intermediate file ends with the location of the vector file and calls no
/// tool.
pub proof fn lemma_rendered_artifact_is_reused(
    flow: FlowView,
    files: Set<Seq<char>>,
    limit: nat,
)
    requires
        flow.stage is ProbeIntermediate,
        files.contains(flow.path(FileKind::Intermediate)),
        files.contains(flow.path(FileKind::Vector)),
        limit >= 2,
    ensures
        flow.settle(files, limit) == flow.rendered(),
{
    reveal_with_fuel(FlowView::settle, 3);
}

/// A flow that was interrupted after the compiler picks up at the converter:
/// where the intermediate file exists and the vector file does not, a flow
/// that asks for the intermediate file goes on to ask for the converter, and
/// never for the compiler.
pub proof fn lemma_resumes_at_converter(flow: FlowView, files: Set<Seq<char>>, limit: nat)
    requires
        flow.stage is ProbeIntermediate,
        files.contains(flow.path(FileKind::Intermediate)),
        !files.contains(flow.path(FileKind::Vector)),
        limit >= 3,
    ensures
        flow.settle(files, limit) == flow.at(StageView::Convert),
        flow.settle(files, limit).pending() == ActionView::Run(
            convert_call(flow.store, flow.stem, flow.zoom),
        ),
{
    reveal_with_fuel(FlowView::settle, 4);
}

/// The equation flow, interrupted after the compiler, picks up at the
/// converter: with source and intermediate file in place and no vector file,
/// it writes nothing and asks for the converter alone.
pub proof fn lemma_equation_flow_resumes(
    store: Seq<char>,
    fragment: Seq<char>,
    zoom: Seq<char>,
    files: Set<Seq<char>>,
    limit: nat,
)
    requires
        files.contains(artifact_path(store, content_key(fragment), FileKind::Source)),
        files.contains(artifact_path(store, content_key(fragment), FileKind::Intermediate)),
        !files.contains(artifact_path(store, content_key(fragment), FileKind::Vector)),
        limit >= 4,
    ensures
        equation_flow(store, fragment, zoom).settle(files, limit).pending() == ActionView::Run(
            convert_call(store, content_key(fragment), zoom),
        ),
{
    reveal_with_fuel(FlowView::settle, 5);
}

/// What came of playing a flow against a toolchain that always succeeds.
pub struct Replay {
    /// The flow at the end.
    pub flow: FlowView,
    /// The files that exist at the end.
    pub files: Set<Seq<char>>,
    /// The actions that the flow asked for, in order.
    pub asked: Seq<ActionView>,
}

impl FlowView {
    /// The answer to the pending action where the files in `files` exist and
    /// everything that is tried succeeds: files are written, tools are found,
    /// run without complaint and exit in order. There are no input files to
    /// read.
    pub open spec fn granted(self, files: Set<Seq<char>>) -> EventView {
        match self.pending() {
            ActionView::Probe(path) => EventView::Exists(files.contains(path)),
            ActionView::WriteFile { .. } => EventView::Written,
            ActionView::Run(_) => EventView::Exited {
                success: true,
                stdout: Seq::empty(),
                stderr: Seq::empty(),
            },
            _ => EventView::IoFailed,
        }
    }

    /// The files that exist once the pending action has succeeded: a written
    /// file exists, and each tool leaves the file that it is run for.
    pub open spec fn left_behind(self, files: Set<Seq<char>>) -> Set<Seq<char>> {
        match self.stage {
            StageView::WriteSource => files.insert(self.path(FileKind::Source)),
            StageView::Plot => files.insert(self.path(FileKind::Source)),
            StageView::Compile => files.insert(self.path(FileKind::Intermediate)),
            StageView::Convert => files.insert(self.path(FileKind::Vector)),
            _ => files,
        }
    }

    /// Plays the flow to its end, or for `limit` actions, against a toolchain
    /// that always succeeds, starting with the files in `files`.
    pub open spec fn replay(self, files: Set<Seq<char>>, limit: nat) -> Replay
        decreases limit,
    {
        if limit == 0 || self.stage is Finished {
            Replay { flow: self, files: files, asked: Seq::empty() }
        } else {
            let rest = self.step(self.granted(files)).replay(
                self.left_behind(files),
                (limit - 1) as nat,
            );
            Replay { flow: rest.flow, files: rest.files, asked: seq![self.pending()] + rest.asked }
        }
    }

    /// The actions of the second half of a flow against a toolchain that
    /// always succeeds: the compiler is run where the intermediate file is
    /// missing, the converter where the vector file is.
    pub open spec fn rendering(self, files: Set<Seq<char>>) -> Seq<ActionView> {
        let intermediate = ActionView::Probe(self.path(FileKind::Intermediate));
        let vector = ActionView::Probe(self.path(FileKind::Vector));
        let compile = ActionView::Run(compile_call(self.store, self.stem));
        let convert = ActionView::Run(convert_call(self.store, self.stem, self.zoom));
        let first = if files.contains(self.path(FileKind::Intermediate)) {
            seq![intermediate]
        } else {
            seq![intermediate, compile]
        };
        let second = if files.contains(self.path(FileKind::Vector)) {
            seq![vector]
        } else {
            seq![vector, intermediate, convert]
        };
        first + second
    }
}

/// No two of `asked` run the same tool.
pub open spec fn runs_each_tool_once(asked: Seq<ActionView>) -> bool {
    forall|i: int, j: int|
        0 <= i < j < asked.len() && (#[trigger] asked[i]) is Run && (#[trigger] asked[j]) is Run
            ==> asked[i]->Run_0.tool != asked[j]->Run_0.tool
}

/// None of `asked` runs a tool or writes a file.
pub open spec fn only_probes(asked: Seq<ActionView>) -> bool {
    forall|i: int| 0 <= i < asked.len() ==> (#[trigger] asked[i]) is Probe
}

/// Against a toolchain that always succeeds, the second half of a flow ends
/// with the location of the vector file, with the intermediate and the vector
/// file in place, and runs each tool only where its output is missing.
pub proof fn lemma_rendering_replay(flow: FlowView, files: Set<Seq<char>>, limit: nat)
    requires
        flow.stage is ProbeIntermediate,
        limit >= 5,
    ensures
        flow.replay(files, limit).flow == flow.rendered(),
        flow.replay(files, limit).files == files.insert(flow.path(FileKind::Intermediate)).insert(
            flow.path(FileKind::Vector),
        ),
        flow.replay(files, limit).asked == flow.rendering(files),
{
    reveal_strlit("error:");
    reveal_with_fuel(FlowView::replay, 6);
    lemma_kinds_have_distinct_paths(
        flow.store,
        flow.stem,
        FileKind::Intermediate,
        FileKind::Vector,
    );
    assert(!contains(Seq::<char>::empty(), "error:"@)) by {
        assert forall|i: int| !occurs_at(Seq::<char>::empty(), "error:"@, i) by {}
    }
    let end = flow.replay(files, limit);
    assert(end.asked =~= flow.rendering(files));
    assert(end.files =~= files.insert(flow.path(FileKind::Intermediate)).insert(
        flow.path(FileKind::Vector),
    ));
}

/// The actions of the equation flow against a toolchain that always
/// succeeds: the source is written where it is missing, then the second half
/// follows.
pub open spec fn equation_requests(flow: FlowView, files: Set<Seq<char>>) -> Seq<ActionView> {
    let source = flow.path(FileKind::Source);
    let start = if files.contains(source) {
        seq![ActionView::Probe(source)]
    } else {
        seq![ActionView::Probe(source), ActionView::WriteFile { path: source, contents: flow.text }]
    };
    start + flow.at(StageView::ProbeIntermediate).rendering(files.insert(source))
}

/// Against a toolchain that always succeeds, the equation flow ends with the
/// location of the vector file, with the three files of the artifact in
/// place, and does only what is missing.
pub proof fn lemma_equation_replay(
    store: Seq<char>,
    fragment: Seq<char>,
    zoom: Seq<char>,
    files: Set<Seq<char>>,
    limit: nat,
)
    requires
        limit >= 7,
    ensures
        ({
            let flow = equation_flow(store, fragment, zoom);
            let end = flow.replay(files, limit);
            &&& end.flow == flow.rendered()
            &&& end.files == files.insert(flow.path(FileKind::Source)).insert(
                flow.path(FileKind::Intermediate),
            ).insert(flow.path(FileKind::Vector))
            &&& end.asked == equation_requests(flow, files)
        }),
{
    let flow = equation_flow(store, fragment, zoom);
    let source = flow.path(FileKind::Source);
    let next = flow.at(StageView::ProbeIntermediate);
    let end = flow.replay(files, limit);
    reveal_with_fuel(FlowView::replay, 3);
    if files.contains(source) {
        assert(files.insert(source) =~= files);
        lemma_rendering_replay(next, files, (limit - 1) as nat);
        assert(end.asked =~= equation_requests(flow, files));
    } else {
        lemma_rendering_replay(next, files.insert(source), (limit - 2) as nat);
        assert(end.asked =~= equation_requests(flow, files));
    }
}

/// Run twice on the same content, the equation flow calls no tool the second
/// time: against a toolchain that always succeeds, whatever files exist at
/// the start, the first run calls the compiler and the converter at most once
/// each and ends with the location of the vector file; the second run ends
/// with the same location after asking only whether files exist, and leaves
/// the files as they are.
pub proof fn lemma_equation_flow_twice(
    store: Seq<char>,
    fragment: Seq<char>,
    zoom: Seq<char>,
    files: Set<Seq<char>>,
    limit: nat,
)
    requires
        limit >= 7,
    ensures
        ({
            let flow = equation_flow(store, fragment, zoom);
            let first = flow.replay(files, limit);
            let second = flow.replay(first.files, limit);
            &&& first.flow.stage == StageView::Finished(
                Ok(artifact_path(store, content_key(fragment), FileKind::Vector)),
            )
            &&& runs_each_tool_once(first.asked)
            &&& second.flow == first.flow
            &&& second.files == first.files
            &&& only_probes(second.asked)
        }),
{
    let flow = equation_flow(store, fragment, zoom);
    let first = flow.replay(files, limit);
    let second = flow.replay(first.files, limit);
    lemma_equation_replay(store, fragment, zoom, files, limit);
    lemma_equation_replay(store, fragment, zoom, first.files, limit);
    assert(second.files =~= first.files);
    assert(first.files.insert(flow.path(FileKind::Source)) =~= first.files);
}

/// From an empty store, the equation flow writes the source, calls the
/// compiler once and the converter once, and ends with the location
/// `<store>/<key>.svg`: against a toolchain that always succeeds, these are
/// its actions, in this order.
pub proof fn lemma_equation_flow_from_nothing(
    store: Seq<char>,
    fragment: Seq<char>,
    zoom: Seq<char>,
    files: Set<Seq<char>>,
    limit: nat,
)
    requires
        !files.contains(artifact_path(store, content_key(fragment), FileKind::Source)),
        !files.contains(artifact_path(store, content_key(fragment), FileKind::Intermediate)),
        !files.contains(artifact_path(store, content_key(fragment), FileKind::Vector)),
        limit >= 7,
    ensures
        ({
            let key = content_key(fragment);
            let end = equation_flow(store, fragment, zoom).replay(files, limit);
            &&& end.flow.stage == StageView::Finished(
                Ok(artifact_path(store, key, FileKind::Vector)),
            )
            &&& end.asked == seq![
                ActionView::Probe(artifact_path(store, key, FileKind::Source)),
                ActionView::WriteFile {
                    path: artifact_path(store, key, FileKind::Source),
                    contents: equation_document(fragment),
                },
                ActionView::Probe(artifact_path(store, key, FileKind::Intermediate)),
                ActionView::Run(compile_call(store, key)),
                ActionView::Probe(artifact_path(store, key, FileKind::Vector)),
                ActionView::Probe(artifact_path(store, key, FileKind::Intermediate)),
                ActionView::Run(convert_call(store, key, zoom)),
            ]
        }),
{
    let key = content_key(fragment);
    let flow = equation_flow(store, fragment, zoom);
    lemma_equation_replay(store, fragment, zoom, files, limit);
    lemma_kinds_have_distinct_paths(store, key, FileKind::Source, FileKind::Intermediate);
    lemma_kinds_have_distinct_paths(store, key, FileKind::Source, FileKind::Vector);
    let end = flow.replay(files, limit);
    assert(end.asked =~= seq![
        ActionView::Probe(artifact_path(store, key, FileKind::Source)),
        ActionView::WriteFile {
            path: artifact_path(store, key, FileKind::Source),
            contents: equation_document(fragment),
        },
        ActionView::Probe(artifact_path(store, key, FileKind::Intermediate)),
        ActionView::Run(compile_call(store, key)),
        ActionView::Probe(artifact_path(store, key, FileKind::Vector)),
        ActionView::Probe(artifact_path(store, key, FileKind::Intermediate)),
        ActionView::Run(convert_call(store, key, zoom)),
    ]);
}

} // verus!
