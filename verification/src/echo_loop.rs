//! The loop as a state machine. The machine decides; its driver does the
//! reading, the probing and the writing, and hands back what happened as an
//! [`Event`].

use crate::command::{classify, CommandView, UserCommand};
use crate::report::{
    input_failure_text, line_failure_text, on_stderr, on_stdout, open_failure_text, prompt,
    prompt_text, report_input_failure, report_line_failure, report_open_failure, Emission,
    EmissionView,
};
use crate::target::{validate, validation_text, verdict, FileTarget, PathProbe};
use vstd::prelude::*;

verus! {

/// How the loop ended.
#[derive(Clone, Copy, PartialEq, Eq, Debug, Structural)]
pub enum Termination {
    /// The user asked to leave.
    Graceful,
    /// A file that had passed validation could not be opened.
    OpenFailure,
    /// Standard input could not be read.
    InputFailure,
}

/// Where the loop stands. The state also tells the driver what to do next:
/// read a line of input, probe the path, read on in the file, or leave.
#[derive(Clone, PartialEq, Eq, Debug)]
pub enum LoopState {
    /// The prompt is out; a line of input is awaited.
    Prompting,
    /// A path was asked for; what the file system says of it is awaited.
    Validating(String),
    /// The file is being echoed; its next line is awaited.
    Streaming(FileTarget),
    /// The loop is over.
    Terminated(Termination),
}

/// What the driver reports back to the machine.
#[derive(Clone, PartialEq, Eq, Debug)]
pub enum Event {
    /// A line of input, as it was read.
    Input(String),
    /// Standard input could not be read; the text says why.
    InputFailed(String),
    /// What the file system said of the path under validation.
    Probed(PathProbe),
    /// The file could not be opened; the text says why.
    OpenFailed(String),
    /// The next line of the file, without its line end.
    Line(String),
    /// The next line of the file could not be read or decoded; the text says
    /// why.
    LineFailed(String),
    /// The file has no further line.
    EndOfFile,
}

/// The outcome of one or more transitions: the state reached and the lines to
/// write, in order.
#[derive(Clone, PartialEq, Eq, Debug)]
pub struct Step {
    pub state: LoopState,
    pub emitted: Vec<Emission>,
}

/// The mathematical value of a [`LoopState`].
pub enum StateView {
    Prompting,
    Validating(Seq<char>),
    Streaming(Seq<char>),
    Terminated(Termination),
}

/// The mathematical value of an [`Event`].
pub enum EventView {
    Input(Seq<char>),
    InputFailed(Seq<char>),
    Probed(PathProbe),
    OpenFailed(Seq<char>),
    Line(Seq<char>),
    LineFailed(Seq<char>),
    EndOfFile,
}

/// The mathematical value of a [`Step`].
pub struct StepView {
    pub state: StateView,
    pub emitted: Seq<EmissionView>,
}

impl View for LoopState {
    type V = StateView;

    open spec fn view(&self) -> StateView {
        match self {
            LoopState::Prompting => StateView::Prompting,
            LoopState::Validating(path) => StateView::Validating(path@),
            LoopState::Streaming(target) => StateView::Streaming(target@),
            LoopState::Terminated(how) => StateView::Terminated(*how),
        }
    }
}

impl View for Event {
    type V = EventView;

    open spec fn view(&self) -> EventView {
        match self {
            Event::Input(line) => EventView::Input(line@),
            Event::InputFailed(cause) => EventView::InputFailed(cause@),
            Event::Probed(probe) => EventView::Probed(*probe),
            Event::OpenFailed(cause) => EventView::OpenFailed(cause@),
            Event::Line(text) => EventView::Line(text@),
            Event::LineFailed(cause) => EventView::LineFailed(cause@),
            Event::EndOfFile => EventView::EndOfFile,
        }
    }
}

impl DeepView for Event {
    type V = EventView;

    open spec fn deep_view(&self) -> EventView {
        self@
    }
}

impl View for Step {
    type V = StepView;

    open spec fn view(&self) -> StepView {
        StepView { state: self.state@, emitted: self.emitted.deep_view() }
    }
}

impl DeepView for Step {
    type V = StepView;

    open spec fn deep_view(&self) -> StepView {
        self@
    }
}

/// The status that the process leaves with.
pub open spec fn exit_status(how: Termination) -> int {
    match how {
        Termination::Graceful => 0,
        Termination::OpenFailure => 1,
        Termination::InputFailure => 101,
    }
}

/// The states in which the driver goes to the file system: to probe a path, or
/// to open a file and read it.
pub open spec fn touches_files(state: StateView) -> bool {
    state is Validating || state is Streaming
}

/// Whether `state` awaits `event`: a line of input, or the failure to read
/// one, at the prompt; the answer of the file system while a path is
/// validated; what opening and reading came to while a file is echoed; and
/// nothing once the loop is over.
pub open spec fn awaits(state: StateView, event: EventView) -> bool {
    match state {
        StateView::Prompting => event is Input || event is InputFailed,
        StateView::Validating(_) => event is Probed,
        StateView::Streaming(_) => event is OpenFailed || event is Line || event is LineFailed
            || event is EndOfFile,
        StateView::Terminated(_) => false,
    }
}

/// The loop at its start: the first prompt is out.
pub open spec fn launch() -> StepView {
    StepView { state: StateView::Prompting, emitted: seq![on_stdout(prompt_text())] }
}

/// The transition that `event` causes in `state`, or `None` where the state
/// does not await such an event (see [`awaits`]).
pub open spec fn transition(state: StateView, event: EventView) -> Option<StepView> {
    match (state, event) {
        (StateView::Prompting, EventView::Input(line)) => Some(
            match classify(line) {
                CommandView::Exit => StepView {
                    state: StateView::Terminated(Termination::Graceful),
                    emitted: seq![],
                },
                CommandView::Empty => StepView {
                    state: StateView::Prompting,
                    emitted: seq![on_stdout(prompt_text())],
                },
                CommandView::PathRequest(path) => StepView {
                    state: StateView::Validating(path),
                    emitted: seq![],
                },
            },
        ),
        (StateView::Prompting, EventView::InputFailed(cause)) => Some(
            StepView {
                state: StateView::Terminated(Termination::InputFailure),
                emitted: seq![on_stderr(input_failure_text(cause))],
            },
        ),
        (StateView::Validating(path), EventView::Probed(probe)) => Some(
            match verdict(probe) {
                None => StepView {
                    state: StateView::Streaming(path),
                    emitted: seq![on_stdout(path)],
                },
                Some(error) => StepView {
                    state: StateView::Prompting,
                    emitted: seq![
                        on_stderr(validation_text(error, path)),
                        on_stdout(prompt_text()),
                    ],
                },
            },
        ),
        (StateView::Streaming(path), EventView::OpenFailed(cause)) => Some(
            StepView {
                state: StateView::Terminated(Termination::OpenFailure),
                emitted: seq![on_stderr(open_failure_text(path, cause))],
            },
        ),
        (StateView::Streaming(path), EventView::Line(text)) => Some(
            StepView { state: StateView::Streaming(path), emitted: seq![on_stdout(text)] },
        ),
        (StateView::Streaming(path), EventView::LineFailed(cause)) => Some(
            StepView {
                state: StateView::Streaming(path),
                emitted: seq![on_stderr(line_failure_text(cause))],
            },
        ),
        (StateView::Streaming(path), EventView::EndOfFile) => Some(
            StepView { state: StateView::Prompting, emitted: seq![on_stdout(prompt_text())] },
        ),
        _ => None,
    }
}

/// The transitions that `events` cause one after the other, from `state`:
/// the state reached and all that was emitted on the way, or `None` where one
/// of the events was not awaited.
pub open spec fn trace(state: StateView, events: Seq<EventView>) -> Option<StepView>
    decreases events.len(),
{
    if events.len() == 0 {
        Some(StepView { state, emitted: seq![] })
    } else {
        match trace(state, events.drop_last()) {
            None => None,
            Some(before) => match transition(before.state, events.last()) {
                None => None,
                Some(last) => Some(
                    StepView { state: last.state, emitted: before.emitted + last.emitted },
                ),
            },
        }
    }
}

/// A whole session: the launch, then `events`.
pub open spec fn session_trace(events: Seq<EventView>) -> Option<StepView> {
    match trace(launch().state, events) {
        None => None,
        Some(after) => Some(
            StepView { state: after.state, emitted: launch().emitted + after.emitted },
        ),
    }
}

/// Once a prefix of `events` holds an event that was not awaited, so does
/// the whole.
proof fn lemma_trace_fails_on(state: StateView, events: Seq<EventView>, upto: int)
    requires
        0 <= upto <= events.len(),
        trace(state, events.take(upto)) is None,
    ensures
        trace(state, events) is None,
    decreases events.len() - upto,
{
    if upto < events.len() {
        assert(events.take(upto + 1).drop_last() =~= events.take(upto));
        lemma_trace_fails_on(state, events, upto + 1);
    } else {
        assert(events.take(upto) =~= events);
    }
}

impl Termination {
    /// The status that the process leaves with: 0 only where the user asked
    /// to leave.
    pub fn exit_code(&self) -> (code: i32)
        ensures
            code == exit_status(*self),
    {
        match self {
            Termination::Graceful => 0,
            Termination::OpenFailure => 1,
            Termination::InputFailure => 101,
        }
    }
}

/// Starts the loop: the first prompt, and the state that awaits its answer.
pub fn start() -> (step: Step)
    ensures
        step@ == launch(),
{
    let step = Step { state: LoopState::Prompting, emitted: vec![prompt()] };
    assert(step@.emitted =~= launch().emitted);
    step
}

impl LoopState {
    /// Takes one event. `None` where this state does not await it.
    pub fn step(self, event: Event) -> (next: Option<Step>)
        ensures
            next is Some <==> awaits(self@, event@),
            next.deep_view() == transition(self@, event@),
    {
        let next = match self {
            LoopState::Prompting => match event {
                Event::Input(line) => match UserCommand::parse(line.as_str()) {
                    UserCommand::Exit => Step {
                        state: LoopState::Terminated(Termination::Graceful),
                        emitted: Vec::new(),
                    },
                    UserCommand::Empty => Step {
                        state: LoopState::Prompting,
                        emitted: vec![prompt()],
                    },
                    UserCommand::PathRequest(path) => Step {
                        state: LoopState::Validating(path),
                        emitted: Vec::new(),
                    },
                },
                Event::InputFailed(cause) => Step {
                    state: LoopState::Terminated(Termination::InputFailure),
                    emitted: vec![report_input_failure(cause.as_str())],
                },
                _ => {
                    return None;
                },
            },
            LoopState::Validating(path) => match event {
                Event::Probed(probe) => match validate(path.as_str(), probe) {
                    Ok(target) => Step {
                        state: LoopState::Streaming(target),
                        emitted: vec![Emission::stdout(path)],
                    },
                    Err(error) => Step {
                        state: LoopState::Prompting,
                        emitted: vec![error.report(path.as_str()), prompt()],
                    },
                },
                _ => {
                    return None;
                },
            },
            LoopState::Streaming(target) => match event {
                Event::OpenFailed(cause) => Step {
                    state: LoopState::Terminated(Termination::OpenFailure),
                    emitted: vec![report_open_failure(target.path(), cause.as_str())],
                },
                Event::Line(text) => Step {
                    state: LoopState::Streaming(target),
                    emitted: vec![Emission::stdout(text)],
                },
                Event::LineFailed(cause) => Step {
                    state: LoopState::Streaming(target),
                    emitted: vec![report_line_failure(cause.as_str())],
                },
                Event::EndOfFile => Step { state: LoopState::Prompting, emitted: vec![prompt()] },
                _ => {
                    return None;
                },
            },
            LoopState::Terminated(_) => {
                return None;
            },
        };
        assert(next@.emitted =~= transition(self@, event@).unwrap().emitted);
        Some(next)
    }

    /// Takes `events` one after the other. `None` where one of them was not
    /// awaited by the state that the events before it led to.
    pub fn run(self, events: Vec<Event>) -> (result: Option<Step>)
        ensures
            result.deep_view() == trace(self@, events.deep_view()),
    {
        let ghost first = self@;
        let ghost all = events.deep_view();
        let mut state = self;
        let mut emitted: Vec<Emission> = Vec::new();
        assert(all.take(0) =~= Seq::<EventView>::empty());
        assert(emitted.deep_view() =~= Seq::<EmissionView>::empty());
        for event in it: events
            invariant
                first == self@,
                all == events.deep_view(),
                it.seq() == events@,
                trace(first, all.take(it.index() as int)) == Some(
                    StepView { state: state@, emitted: emitted.deep_view() },
                ),
        {
            let ghost done = it.index() as int;
            proof {
                assert(all.take(done + 1).drop_last() =~= all.take(done));
                assert(all.take(done + 1).last() == event@);
            }
            match state.step(event) {
                None => {
                    proof {
                        assert(trace(first, all.take(done + 1)) is None);
                        lemma_trace_fails_on(first, all, done + 1);
                    }
                    return None;
                },
                Some(step) => {
                    let Step { state: next, emitted: mut more } = step;
                    let ghost before = emitted.deep_view();
                    emitted.append(&mut more);
                    assert(emitted.deep_view() =~= before + step@.emitted);
                    state = next;
                },
            }
        }
        assert(all.take(events@.len() as int) =~= all);
        Some(Step { state, emitted })
    }
}

/// Plays a whole session: the launch, then `events` one after the other.
/// `None` where one of the events was not awaited.
pub fn session(events: Vec<Event>) -> (result: Option<Step>)
    ensures
        result.deep_view() == session_trace(events.deep_view()),
{
    let Step { state, emitted: mut emitted } = start();
    match state.run(events) {
        None => None,
        Some(after) => {
            let Step { state: last, emitted: mut more } = after;
            let ghost before = emitted.deep_view();
            emitted.append(&mut more);
            assert(emitted.deep_view() =~= before + after@.emitted);
            Some(Step { state: last, emitted })
        },
    }
}

} // verus!
