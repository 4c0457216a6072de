use cli_utilities::echo_loop::{session, start, Event, LoopState, Step, Termination};
use cli_utilities::report::{texts_for, Channel, Emission};
use cli_utilities::target::{validate, PathProbe};

const PROMPT: &str = "Path of the file to echo:";

fn input(text: &str) -> Event {
    Event::Input(String::from(text))
}

fn line(text: &str) -> Event {
    Event::Line(String::from(text))
}

fn found_file() -> Event {
    Event::Probed(PathProbe { exists: true, is_file: true })
}

fn found_nothing() -> Event {
    Event::Probed(PathProbe { exists: false, is_file: false })
}

fn found_directory() -> Event {
    Event::Probed(PathProbe { exists: true, is_file: false })
}

fn out(text: &str) -> Emission {
    Emission::stdout(String::from(text))
}

fn err(text: &str) -> Emission {
    Emission::stderr(String::from(text))
}

fn streaming(path: &str) -> LoopState {
    LoopState::Streaming(validate(path, PathProbe { exists: true, is_file: true }).unwrap())
}

fn echo_of_notes() -> Vec<Event> {
    vec![input("notes.txt\n"), found_file(), line("a"), line("b"), line("c"), Event::EndOfFile]
}

#[test]
fn loop_starts_with_the_prompt() {
    let step = start();
    assert_eq!(step.state, LoopState::Prompting);
    assert_eq!(step.emitted, vec![out(PROMPT)]);
}

#[test]
fn exit_ends_the_session_after_one_prompt() {
    let step = session(vec![input("exit\n")]).unwrap();
    assert_eq!(step.state, LoopState::Terminated(Termination::Graceful));
    assert_eq!(step.emitted, vec![out(PROMPT)]);
    assert_eq!(Termination::Graceful.exit_code(), 0);
}

#[test]
fn empty_line_then_exit_prompts_twice() {
    let step = session(vec![input("\n"), input("exit\n")]).unwrap();
    assert_eq!(step.state, LoopState::Terminated(Termination::Graceful));
    assert_eq!(step.emitted, vec![out(PROMPT), out(PROMPT)]);
}

#[test]
fn empty_input_without_line_end_prompts_again() {
    let step = session(vec![input(""), input("exit")]).unwrap();
    assert_eq!(step.state, LoopState::Terminated(Termination::Graceful));
    assert_eq!(step.emitted, vec![out(PROMPT), out(PROMPT)]);
}

#[test]
fn notes_are_echoed_line_by_line() {
    let mut events = echo_of_notes();
    events.push(input("exit\n"));
    let step = session(events).unwrap();
    assert_eq!(step.state, LoopState::Terminated(Termination::Graceful));
    assert_eq!(
        step.emitted,
        vec![out(PROMPT), out("notes.txt"), out("a"), out("b"), out("c"), out(PROMPT)]
    );
    assert_eq!(
        texts_for(&step.emitted, Channel::Stdout),
        vec![PROMPT, "notes.txt", "a", "b", "c", PROMPT]
    );
    assert!(texts_for(&step.emitted, Channel::Stderr).is_empty());
}

#[test]
fn exit_is_taken_whatever_white_space_follows() {
    for text in ["exit", "exit\n", "exit\r\n", "exit \t \n"] {
        let step = LoopState::Prompting.step(input(text)).unwrap();
        assert_eq!(step.state, LoopState::Terminated(Termination::Graceful));
        assert!(step.emitted.is_empty());
    }
}

#[test]
fn blank_line_brings_only_the_prompt() {
    for text in ["", "\n", "  \n", "\t\r\n"] {
        let step = LoopState::Prompting.step(input(text)).unwrap();
        assert_eq!(step.state, LoopState::Prompting);
        assert_eq!(step.emitted, vec![out(PROMPT)]);
    }
}

#[test]
fn path_is_validated_before_anything_is_written() {
    let step = LoopState::Prompting.step(input("notes.txt\n")).unwrap();
    assert_eq!(step.state, LoopState::Validating(String::from("notes.txt")));
    assert!(step.emitted.is_empty());
}

#[test]
fn missing_path_brings_one_diagnostic() {
    let step = LoopState::Prompting.run(vec![input("nope.txt\n"), found_nothing()]).unwrap();
    assert_eq!(step.state, LoopState::Prompting);
    assert_eq!(step.emitted, vec![err("File does not exist: nope.txt"), out(PROMPT)]);
    let diagnostics = texts_for(&step.emitted, Channel::Stderr);
    assert_eq!(diagnostics.len(), 1);
    assert!(diagnostics[0].contains("nope.txt"));
}

#[test]
fn directory_brings_one_diagnostic() {
    let step = LoopState::Prompting.run(vec![input("src\n"), found_directory()]).unwrap();
    assert_eq!(step.state, LoopState::Prompting);
    assert_eq!(step.emitted, vec![err("Path is not a file: src"), out(PROMPT)]);
    let diagnostics = texts_for(&step.emitted, Channel::Stderr);
    assert_eq!(diagnostics.len(), 1);
    assert!(diagnostics[0].contains("is not a file"));
}

#[test]
fn loop_goes_on_after_a_failed_validation() {
    let mut events = vec![input("nope.txt\n"), found_nothing(), input("src\n"), found_directory()];
    events.append(&mut echo_of_notes());
    let step = LoopState::Prompting.run(events).unwrap();
    assert_eq!(step.state, LoopState::Prompting);
    assert_eq!(
        step.emitted,
        vec![
            err("File does not exist: nope.txt"),
            out(PROMPT),
            err("Path is not a file: src"),
            out(PROMPT),
            out("notes.txt"),
            out("a"),
            out("b"),
            out("c"),
            out(PROMPT),
        ]
    );
}

#[test]
fn accepted_path_is_written_once() {
    let step = LoopState::Validating(String::from("notes.txt")).step(found_file()).unwrap();
    assert_eq!(step.state, streaming("notes.txt"));
    assert_eq!(step.emitted, vec![out("notes.txt")]);
}

#[test]
fn file_lines_come_out_in_order_and_unmodified() {
    let step = LoopState::Prompting.run(echo_of_notes()).unwrap();
    assert_eq!(step.state, LoopState::Prompting);
    assert_eq!(
        step.emitted,
        vec![out("notes.txt"), out("a"), out("b"), out("c"), out(PROMPT)]
    );
}

#[test]
fn file_lines_keep_their_white_space() {
    let events = vec![
        input("w.txt\n"),
        found_file(),
        line("  indented"),
        line("trailing  "),
        line(""),
        line("exit"),
        Event::EndOfFile,
    ];
    let step = LoopState::Prompting.run(events).unwrap();
    assert_eq!(
        texts_for(&step.emitted, Channel::Stdout),
        vec!["w.txt", "  indented", "trailing  ", "", "exit", PROMPT]
    );
}

#[test]
fn empty_file_brings_the_path_and_the_prompt() {
    let events = vec![input("empty.txt\n"), found_file(), Event::EndOfFile];
    let step = LoopState::Prompting.run(events).unwrap();
    assert_eq!(step.state, LoopState::Prompting);
    assert_eq!(step.emitted, vec![out("empty.txt"), out(PROMPT)]);
}

#[test]
fn same_file_twice_is_written_the_same() {
    let once = LoopState::Prompting.run(echo_of_notes()).unwrap();
    let mut both = echo_of_notes();
    both.append(&mut echo_of_notes());
    let twice = LoopState::Prompting.run(both).unwrap();
    assert_eq!(twice.state, LoopState::Prompting);
    let mut expected = once.emitted.clone();
    expected.append(&mut once.emitted.clone());
    assert_eq!(twice.emitted, expected);
}

#[test]
fn unreadable_line_is_reported_and_the_echo_goes_on() {
    let events = vec![
        input("mixed.txt\n"),
        found_file(),
        line("first"),
        Event::LineFailed(String::from("stream did not contain valid UTF-8")),
        line("third"),
        Event::EndOfFile,
    ];
    let step = LoopState::Prompting.run(events).unwrap();
    assert_eq!(step.state, LoopState::Prompting);
    assert_eq!(
        step.emitted,
        vec![
            out("mixed.txt"),
            out("first"),
            err("Error reading line: stream did not contain valid UTF-8"),
            out("third"),
            out(PROMPT),
        ]
    );
}

#[test]
fn unreadable_line_keeps_the_file_open() {
    let step = streaming("mixed.txt").step(Event::LineFailed(String::from("bad"))).unwrap();
    assert_eq!(step.state, streaming("mixed.txt"));
    assert_eq!(step.emitted, vec![err("Error reading line: bad")]);
}

#[test]
fn open_failure_ends_the_loop_with_status_one() {
    let events = vec![
        input("gone.txt\n"),
        found_file(),
        Event::OpenFailed(String::from("No such file or directory (os error 2)")),
    ];
    let step = session(events).unwrap();
    assert_eq!(step.state, LoopState::Terminated(Termination::OpenFailure));
    assert_eq!(
        step.emitted,
        vec![
            out(PROMPT),
            out("gone.txt"),
            err("Error while opening the file 'gone.txt': No such file or directory (os error 2)"),
        ]
    );
    assert_eq!(Termination::OpenFailure.exit_code(), 1);
}

#[test]
fn input_failure_ends_the_loop_with_a_diagnostic() {
    let step = session(vec![Event::InputFailed(String::from("Kind(UnexpectedEof)"))]).unwrap();
    assert_eq!(step.state, LoopState::Terminated(Termination::InputFailure));
    assert_eq!(
        step.emitted,
        vec![out(PROMPT), err("Failed to read from stdin.: Kind(UnexpectedEof)")]
    );
    assert_ne!(Termination::InputFailure.exit_code(), 0);
}

#[test]
fn exit_codes_of_the_three_endings() {
    assert_eq!(Termination::Graceful.exit_code(), 0);
    assert_eq!(Termination::OpenFailure.exit_code(), 1);
    assert_eq!(Termination::InputFailure.exit_code(), 101);
}

#[test]
fn terminated_loop_takes_no_event() {
    for how in [Termination::Graceful, Termination::OpenFailure, Termination::InputFailure] {
        assert_eq!(LoopState::Terminated(how).step(input("notes.txt\n")), None);
        assert_eq!(LoopState::Terminated(how).step(found_file()), None);
        assert_eq!(LoopState::Terminated(how).step(line("a")), None);
        assert_eq!(LoopState::Terminated(how).step(Event::EndOfFile), None);
    }
}

#[test]
fn event_that_is_not_awaited_is_refused() {
    assert_eq!(LoopState::Prompting.step(found_file()), None);
    assert_eq!(LoopState::Prompting.step(line("a")), None);
    assert_eq!(LoopState::Prompting.step(Event::EndOfFile), None);
    assert_eq!(LoopState::Prompting.step(Event::OpenFailed(String::from("x"))), None);
    assert_eq!(LoopState::Validating(String::from("a")).step(input("exit\n")), None);
    assert_eq!(LoopState::Validating(String::from("a")).step(line("a")), None);
    assert_eq!(streaming("a").step(input("exit\n")), None);
    assert_eq!(streaming("a").step(found_file()), None);
    assert_eq!(streaming("a").step(Event::InputFailed(String::from("x"))), None);
}

#[test]
fn run_stops_at_an_event_that_is_not_awaited() {
    assert_eq!(LoopState::Prompting.run(vec![input("exit\n"), input("exit\n")]), None);
    assert_eq!(LoopState::Prompting.run(vec![input("a.txt\n"), line("a")]), None);
    assert_eq!(session(vec![input("\n"), Event::EndOfFile, input("exit\n")]), None);
}

#[test]
fn run_of_no_event_changes_nothing() {
    let step = streaming("a.txt").run(Vec::new()).unwrap();
    assert_eq!(step, Step { state: streaming("a.txt"), emitted: Vec::new() });
}

#[test]
fn run_is_step_after_step() {
    let mut state = LoopState::Prompting;
    let mut emitted: Vec<Emission> = Vec::new();
    for event in echo_of_notes() {
        let mut step = state.step(event).unwrap();
        emitted.append(&mut step.emitted);
        state = step.state;
    }
    let whole = LoopState::Prompting.run(echo_of_notes()).unwrap();
    assert_eq!(whole, Step { state, emitted });
}

#[test]
fn session_is_the_prompt_and_then_the_run() {
    let after = LoopState::Prompting.run(echo_of_notes()).unwrap();
    let whole = session(echo_of_notes()).unwrap();
    let mut expected = vec![out(PROMPT)];
    expected.append(&mut after.emitted.clone());
    assert_eq!(whole, Step { state: after.state, emitted: expected });
}
