//! The document converter, as the decisions of one conversion.
//!
//! A conversion persists the markup, runs the external converter on it,
//! reads the artifact that the converter wrote and removes both transient
//! files. The library decides what is done next and what the request is
//! answered with; its caller performs each action and reports how it went.

use vstd::prelude::*;
use vstd::string::StringExecFns;
use crate::invoice::{texts, Invoice};
use crate::layout::{layout_of, render, LayoutDocument};
use crate::markup::{markup_of, to_markup};
use crate::paths::{paths_of, transient_paths, TransientPaths, TransientPathsView};

verus! {

/// The command that turns markup into a PDF.
pub const CONVERTER: &'static str = "html2pdf";

/// The page margin that the converter is run with.
pub const PAGE_MARGIN: &'static str = "0.4";

/// Why a conversion failed.
#[derive(Clone, Debug, PartialEq, Eq)]
pub enum ConversionError {
    /// The converter could not be started or did not report success; with
    /// what it put out.
    Process(String),
    /// A transient file could not be written, read or removed.
    Io(String),
}

/// A `ConversionError` as a mathematical value.
pub enum ConversionErrorView {
    Process(Seq<char>),
    Io(Seq<char>),
}

impl View for ConversionError {
    type V = ConversionErrorView;

    open spec fn view(&self) -> ConversionErrorView {
        match self {
            ConversionError::Process(diagnostic) => ConversionErrorView::Process(diagnostic@),
            ConversionError::Io(diagnostic) => ConversionErrorView::Io(diagnostic@),
        }
    }
}

/// The message of a failure.
pub open spec fn message_of(error: ConversionErrorView) -> Seq<char> {
    match error {
        ConversionErrorView::Process(diagnostic) => "Failed to create PDF: "@ + diagnostic,
        ConversionErrorView::Io(diagnostic) => diagnostic,
    }
}

impl ConversionError {
    /// The message that the failure is reported with.
    pub fn message(&self) -> (text: String)
        ensures
            text@ == message_of(self@),
    {
        match self {
            ConversionError::Process(diagnostic) => {
                let mut text = String::from_str("Failed to create PDF: ");
                text.append(diagnostic.as_str());
                text
            },
            ConversionError::Io(diagnostic) => diagnostic.clone(),
        }
    }
}

/// What a conversion ends with: the bytes of the PDF, or the failure.
pub type Outcome = Result<Vec<u8>, ConversionError>;

/// An `Outcome` as a mathematical value.
pub type OutcomeView = Result<Seq<u8>, ConversionErrorView>;

/// The value of an outcome.
pub open spec fn outcome_view(outcome: Outcome) -> OutcomeView {
    match outcome {
        Ok(bytes) => Ok(bytes@),
        Err(error) => Err(error@),
    }
}

/// The value of what is recorded of the outcome so far.
pub open spec fn recorded_view(recorded: Option<Outcome>) -> Option<OutcomeView> {
    match recorded {
        Some(outcome) => Some(outcome_view(outcome)),
        None => None,
    }
}

/// How far a conversion has come.
#[derive(Clone, Copy, Debug, PartialEq, Eq, Structural)]
pub enum Phase {
    /// The markup is to be written to its transient file.
    Persisting,
    /// The converter is to be run.
    Converting,
    /// The artifact is to be read.
    Reading,
    /// The artifact, now read, is to be removed.
    RemovingArtifact,
    /// The markup file is to be removed.
    RemovingMarkup,
    /// Nothing is left to do.
    Finished,
}

/// What the caller is to do next.
#[derive(Clone, Debug, PartialEq, Eq)]
pub enum Action {
    WriteFile { path: String, contents: String },
    RunConverter { program: String, arguments: Vec<String> },
    ReadFile { path: String },
    RemoveFile { path: String },
    /// Answer the request with the outcome of the conversion.
    Finish,
}

/// An `Action` as a mathematical value.
pub enum ActionView {
    WriteFile { path: Seq<char>, contents: Seq<char> },
    RunConverter { program: Seq<char>, arguments: Seq<Seq<char>> },
    ReadFile { path: Seq<char> },
    RemoveFile { path: Seq<char> },
    Finish,
}

impl View for Action {
    type V = ActionView;

    open spec fn view(&self) -> ActionView {
        match self {
            Action::WriteFile { path, contents } => ActionView::WriteFile {
                path: path@,
                contents: contents@,
            },
            Action::RunConverter { program, arguments } => ActionView::RunConverter {
                program: program@,
                arguments: texts(arguments@),
            },
            Action::ReadFile { path } => ActionView::ReadFile { path: path@ },
            Action::RemoveFile { path } => ActionView::RemoveFile { path: path@ },
            Action::Finish => ActionView::Finish,
        }
    }
}

/// How an action went.
#[derive(Clone, Debug, PartialEq, Eq)]
pub struct Event {
    /// Whether the action did what it was for. Of the converter: whether it
    /// was started and reported success when it ended.
    pub success: bool,
    /// The bytes that a read brought; of no account otherwise.
    pub payload: Vec<u8>,
    /// What a failed action reported: the output and status of the
    /// converter, or the message of the error.
    pub diagnostic: String,
}

/// An `Event` as a mathematical value.
pub struct EventView {
    pub success: bool,
    pub payload: Seq<u8>,
    pub diagnostic: Seq<char>,
}

impl View for Event {
    type V = EventView;

    open spec fn view(&self) -> EventView {
        EventView { success: self.success, payload: self.payload@, diagnostic: self.diagnostic@ }
    }
}

impl Event {
    /// An action that went well and brought nothing.
    pub fn succeeded() -> (event: Event)
        ensures
            event@ == (EventView { success: true, payload: Seq::empty(), diagnostic: Seq::empty() }),
    {
        Event { success: true, payload: Vec::new(), diagnostic: String::new() }
    }

    /// A read that brought `payload`.
    pub fn read(payload: Vec<u8>) -> (event: Event)
        ensures
            event@ == (EventView { success: true, payload: payload@, diagnostic: Seq::empty() }),
    {
        Event { success: true, payload, diagnostic: String::new() }
    }

    /// An action that failed and reported `diagnostic`.
    pub fn failed(diagnostic: String) -> (event: Event)
        ensures
            event@ == (EventView {
                success: false,
                payload: Seq::empty(),
                diagnostic: diagnostic@,
            }),
    {
        Event { success: false, payload: Vec::new(), diagnostic }
    }
}

/// One conversion under way: its phase, its transient files, the markup to
/// convert and, once it is known, what the request will be answered with.
pub struct Conversion {
    phase: Phase,
    paths: TransientPaths,
    markup: String,
    recorded: Option<Outcome>,
}

/// A `Conversion` as a mathematical value.
pub struct ConversionView {
    pub phase: Phase,
    pub paths: TransientPathsView,
    pub markup: Seq<char>,
    pub recorded: Option<OutcomeView>,
}

/// What holds of every conversion: nothing is recorded before the artifact
/// was read or something failed, the artifact is removed only after its
/// bytes were read, and the clean-up of the markup begins with the outcome
/// known.
pub open spec fn well_formed(state: ConversionView) -> bool {
    match state.phase {
        Phase::Persisting | Phase::Converting | Phase::Reading => state.recorded is None,
        Phase::RemovingArtifact => state.recorded matches Some(Ok(_)),
        Phase::RemovingMarkup | Phase::Finished => state.recorded is Some,
    }
}

/// The state in which the conversion of `markup` begins.
pub open spec fn initial_state(markup: Seq<char>, request: int) -> ConversionView {
    ConversionView {
        phase: Phase::Persisting,
        paths: paths_of(request),
        markup,
        recorded: None,
    }
}

/// The arguments that the converter is run with: the margin, where to write
/// the artifact, and the markup to read.
pub open spec fn converter_arguments(paths: TransientPathsView) -> Seq<Seq<char>> {
    seq!["--margin"@, PAGE_MARGIN@, "--output"@, paths.artifact, paths.markup]
}

/// The action that a state waits for.
pub open spec fn pending_action(state: ConversionView) -> ActionView {
    match state.phase {
        Phase::Persisting => ActionView::WriteFile {
            path: state.paths.markup,
            contents: state.markup,
        },
        Phase::Converting => ActionView::RunConverter {
            program: CONVERTER@,
            arguments: converter_arguments(state.paths),
        },
        Phase::Reading => ActionView::ReadFile { path: state.paths.artifact },
        Phase::RemovingArtifact => ActionView::RemoveFile { path: state.paths.artifact },
        Phase::RemovingMarkup => ActionView::RemoveFile { path: state.paths.markup },
        Phase::Finished => ActionView::Finish,
    }
}

/// The failure that an action of a phase fails with: the converter's own
/// for the run of the converter, one of the transient files for the others.
pub open spec fn failure_in(phase: Phase, diagnostic: Seq<char>) -> ConversionErrorView {
    match phase {
        Phase::Converting => ConversionErrorView::Process(diagnostic),
        _ => ConversionErrorView::Io(diagnostic),
    }
}

/// The phase that follows when the action of a phase went well.
pub open spec fn phase_after_success(phase: Phase) -> Phase {
    match phase {
        Phase::Persisting => Phase::Converting,
        Phase::Converting => Phase::Reading,
        Phase::Reading => Phase::RemovingArtifact,
        Phase::RemovingArtifact => Phase::RemovingMarkup,
        Phase::RemovingMarkup => Phase::Finished,
        Phase::Finished => Phase::Finished,
    }
}

/// The phase that follows when the action of a phase failed: whatever
/// failed, the markup file is removed before the conversion ends.
pub open spec fn phase_after_failure(phase: Phase) -> Phase {
    match phase {
        Phase::RemovingMarkup | Phase::Finished => Phase::Finished,
        _ => Phase::RemovingMarkup,
    }
}

/// The state that follows `state` when its action went as `event` says.
///
/// A success leads on to the next phase, and the bytes of a read are
/// recorded. A failure is recorded unless one was recorded before, it
/// replaces bytes that were read, and it leaves out what is still to do but
/// the removal of the markup. A finished conversion stays as it is.
pub open spec fn next_state(state: ConversionView, event: EventView) -> ConversionView {
    if state.phase == Phase::Finished {
        state
    } else if event.success {
        ConversionView {
            phase: phase_after_success(state.phase),
            recorded: if state.phase == Phase::Reading {
                Some(Ok(event.payload))
            } else {
                state.recorded
            },
            ..state
        }
    } else {
        ConversionView {
            phase: phase_after_failure(state.phase),
            recorded: if state.recorded matches Some(Err(_)) {
                state.recorded
            } else {
                Some(Err(failure_in(state.phase, event.diagnostic)))
            },
            ..state
        }
    }
}

/// The state that `state` has become when its actions went as `events`
/// say, one after the other.
pub open spec fn state_after(state: ConversionView, events: Seq<EventView>) -> ConversionView
    decreases events.len(),
{
    if events.len() == 0 {
        state
    } else {
        next_state(state_after(state, events.drop_last()), events.last())
    }
}

/// The number of actions that a phase is from the end at most.
pub open spec fn actions_left(phase: Phase) -> nat {
    match phase {
        Phase::Persisting => 5,
        Phase::Converting => 4,
        Phase::Reading => 3,
        Phase::RemovingArtifact => 2,
        Phase::RemovingMarkup => 1,
        Phase::Finished => 0,
    }
}

/// A step leaves a well-formed state well formed, and changes neither the
/// transient paths nor the markup.
pub proof fn lemma_step_keeps_well_formed(state: ConversionView, event: EventView)
    requires
        well_formed(state),
    ensures
        well_formed(next_state(state, event)),
        next_state(state, event).paths == state.paths,
        next_state(state, event).markup == state.markup,
{
}

/// Every step of a conversion that has not finished brings it nearer to the
/// end: no action is tried again, and a conversion ends after five actions
/// at most.
pub proof fn lemma_step_makes_progress(state: ConversionView, event: EventView)
    requires
        state.phase != Phase::Finished,
    ensures
        actions_left(next_state(state, event).phase) < actions_left(state.phase),
{
}

/// A conversion finishes only through the removal of its markup file,
/// whether that removal went well or not: on no path is the clean-up left
/// out.
pub proof fn lemma_markup_is_removed_before_the_end(state: ConversionView, event: EventView)
    requires
        state.phase != Phase::Finished,
        next_state(state, event).phase == Phase::Finished,
    ensures
        pending_action(state) == (ActionView::RemoveFile { path: state.paths.markup }),
{
}

/// After the artifact was read, its removal is what comes next, and the
/// bytes that were read are what is recorded.
pub proof fn lemma_artifact_is_removed_after_reading(state: ConversionView, event: EventView)
    requires
        state.phase == Phase::Reading,
        event.success,
    ensures
        pending_action(next_state(state, event)) == (ActionView::RemoveFile {
            path: state.paths.artifact,
        }),
        next_state(state, event).recorded == Some(Ok::<Seq<u8>, ConversionErrorView>(event.payload)),
{
}

/// A failure that was recorded stays: the first failure is the one that the
/// request is answered with.
pub proof fn lemma_failure_is_kept(state: ConversionView, events: Seq<EventView>)
    requires
        well_formed(state),
        state.recorded matches Some(Err(_)),
    ensures
        state_after(state, events).recorded == state.recorded,
        well_formed(state_after(state, events)),
    decreases events.len(),
{
    if events.len() > 0 {
        lemma_failure_is_kept(state, events.drop_last());
    }
}

/// Events after the first are applied to the state that the first led to.
pub proof fn lemma_state_after_first(state: ConversionView, events: Seq<EventView>)
    requires
        events.len() > 0,
    ensures
        state_after(state, events) == state_after(
            next_state(state, events.first()),
            events.drop_first(),
        ),
    decreases events.len(),
{
    if events.len() == 1 {
        assert(events.drop_last() =~= Seq::<EventView>::empty());
        assert(events.drop_first() =~= Seq::<EventView>::empty());
        assert(events.first() == events.last());
    } else {
        lemma_state_after_first(state, events.drop_last());
        assert(events.drop_last().first() == events.first());
        assert(events.drop_last().drop_first() =~= events.drop_first().drop_last());
        assert(events.drop_first().last() == events.last());
    }
}

/// After five actions or more a well-formed conversion has finished, with
/// an outcome.
pub proof fn lemma_finished_after_five_actions(state: ConversionView, events: Seq<EventView>)
    requires
        well_formed(state),
        events.len() >= actions_left(state.phase),
    ensures
        state_after(state, events).phase == Phase::Finished,
        state_after(state, events).recorded is Some,
        well_formed(state_after(state, events)),
    decreases events.len(),
{
    if events.len() > 0 {
        lemma_state_after_first(state, events);
        lemma_finished_after_five_actions(next_state(state, events.first()), events.drop_first());
    }
}

/// Where every action goes well, the request is answered with the bytes
/// that were read from the artifact.
pub proof fn lemma_success_answers_with_the_artifact(
    markup: Seq<char>,
    request: int,
    events: Seq<EventView>,
)
    requires
        events.len() == 5,
        forall|i: int| 0 <= i < 5 ==> (#[trigger] events[i]).success,
    ensures
        state_after(initial_state(markup, request), events).phase == Phase::Finished,
        state_after(initial_state(markup, request), events).recorded == Some(
            Ok::<Seq<u8>, ConversionErrorView>(events[2].payload),
        ),
{
    let s0 = initial_state(markup, request);
    let s1 = next_state(s0, events[0]);
    let s2 = next_state(s1, events[1]);
    let s3 = next_state(s2, events[2]);
    let s4 = next_state(s3, events[3]);
    let s5 = next_state(s4, events[4]);
    assert(state_after(s0, events.take(0)) == s0);
    assert(events.take(1).drop_last() =~= events.take(0));
    assert(state_after(s0, events.take(1)) == s1);
    assert(events.take(2).drop_last() =~= events.take(1));
    assert(state_after(s0, events.take(2)) == s2);
    assert(events.take(3).drop_last() =~= events.take(2));
    assert(state_after(s0, events.take(3)) == s3);
    assert(events.take(4).drop_last() =~= events.take(3));
    assert(state_after(s0, events.take(4)) == s4);
    assert(events.drop_last() =~= events.take(4));
    assert(state_after(s0, events) == s5);
}

/// Where an action fails and none failed before it, the request is answered
/// with that failure, however the clean-up goes: with the converter's own
/// failure where the converter failed, with a failure of the transient
/// files otherwise.
pub proof fn lemma_first_failure_is_the_answer(
    state: ConversionView,
    event: EventView,
    later: Seq<EventView>,
)
    requires
        well_formed(state),
        state.phase != Phase::Finished,
        !(state.recorded matches Some(Err(_))),
        !event.success,
        later.len() >= actions_left(phase_after_failure(state.phase)),
    ensures
        state_after(state, seq![event] + later).phase == Phase::Finished,
        state_after(state, seq![event] + later).recorded == Some(
            Err::<Seq<u8>, ConversionErrorView>(failure_in(state.phase, event.diagnostic)),
        ),
{
    let events = seq![event] + later;
    let failed = next_state(state, event);
    assert(events.first() == event);
    assert(events.drop_first() =~= later);
    lemma_state_after_first(state, events);
    lemma_failure_is_kept(failed, later);
    lemma_finished_after_five_actions(failed, later);
}

impl View for Conversion {
    type V = ConversionView;

    closed spec fn view(&self) -> ConversionView {
        ConversionView {
            phase: self.phase,
            paths: self.paths@,
            markup: self.markup@,
            recorded: recorded_view(self.recorded),
        }
    }
}

impl Conversion {
    #[verifier::type_invariant]
    spec fn holds_together(self) -> bool {
        well_formed(self@)
    }

    /// How far the conversion has come.
    pub fn phase(&self) -> (phase: Phase)
        ensures
            phase == self@.phase,
            well_formed(self@),
    {
        proof {
            use_type_invariant(self);
        }
        self.phase
    }

    /// What the caller is to do next.
    pub fn action(&self) -> (action: Action)
        ensures
            action@ == pending_action(self@),
    {
        match self.phase {
            Phase::Persisting => Action::WriteFile {
                path: self.paths.markup.clone(),
                contents: self.markup.clone(),
            },
            Phase::Converting => {
                let mut arguments: Vec<String> = Vec::new();
                arguments.push(String::from_str("--margin"));
                arguments.push(String::from_str(PAGE_MARGIN));
                arguments.push(String::from_str("--output"));
                arguments.push(self.paths.artifact.clone());
                arguments.push(self.paths.markup.clone());
                assert(texts(arguments@) =~= converter_arguments(self@.paths));
                Action::RunConverter { program: String::from_str(CONVERTER), arguments }
            },
            Phase::Reading => Action::ReadFile { path: self.paths.artifact.clone() },
            Phase::RemovingArtifact => Action::RemoveFile { path: self.paths.artifact.clone() },
            Phase::RemovingMarkup => Action::RemoveFile { path: self.paths.markup.clone() },
            Phase::Finished => Action::Finish,
        }
    }

    /// The conversion after its pending action went as `event` says.
    pub fn step(self, event: Event) -> (next: Conversion)
        ensures
            next@ == next_state(self@, event@),
            well_formed(next@),
    {
        proof {
            use_type_invariant(&self);
        }
        let Conversion { phase, paths, markup, recorded } = self;
        let Event { success, payload, diagnostic } = event;
        match phase {
            Phase::Finished => Conversion { phase, paths, markup, recorded },
            _ => {
                if success {
                    let next = match phase {
                        Phase::Persisting => Phase::Converting,
                        Phase::Converting => Phase::Reading,
                        Phase::Reading => Phase::RemovingArtifact,
                        Phase::RemovingArtifact => Phase::RemovingMarkup,
                        _ => Phase::Finished,
                    };
                    let recorded = match phase {
                        Phase::Reading => Some(Ok(payload)),
                        _ => recorded,
                    };
                    Conversion { phase: next, paths, markup, recorded }
                } else {
                    let next = match phase {
                        Phase::RemovingMarkup => Phase::Finished,
                        _ => Phase::RemovingMarkup,
                    };
                    let recorded = match recorded {
                        Some(Err(error)) => Some(Err(error)),
                        _ => match phase {
                            Phase::Converting => Some(Err(ConversionError::Process(diagnostic))),
                            _ => Some(Err(ConversionError::Io(diagnostic))),
                        },
                    };
                    Conversion { phase: next, paths, markup, recorded }
                }
            },
        }
    }

    /// What the request is answered with: the outcome once the conversion
    /// has finished, nothing before.
    pub fn into_outcome(self) -> (outcome: Option<Outcome>)
        ensures
            outcome is Some <==> self@.phase == Phase::Finished,
            self@.phase == Phase::Finished ==> recorded_view(outcome) == self@.recorded,
    {
        proof {
            use_type_invariant(&self);
        }
        match self.phase {
            Phase::Finished => self.recorded,
            _ => None,
        }
    }
}

/// Begins the conversion of a laid-out invoice for the request with the
/// given number: the markup of the document is what will be persisted and
/// converted.
pub fn convert(document: &LayoutDocument, request: u64) -> (conversion: Conversion)
    ensures
        conversion@ == initial_state(markup_of(document@), request as int),
{
    Conversion {
        phase: Phase::Persisting,
        paths: transient_paths(request),
        markup: to_markup(document),
        recorded: None,
    }
}

/// Lays out `invoice` and begins its conversion for the request with the
/// given number.
pub fn create_invoice(invoice: Invoice, request: u64) -> (conversion: Conversion)
    ensures
        conversion@ == initial_state(markup_of(layout_of(invoice@)), request as int),
{
    let document = render(&invoice);
    convert(&document, request)
}

} // verus!
