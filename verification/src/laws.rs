//! What holds of the loop, whatever the input: proved once, for every line,
//! every answer of the file system and every file.

use crate::command::{classify, exit_word, CommandView};
use crate::echo_loop::{
    awaits, exit_status, touches_files, trace, transition, EventView, StateView, StepView,
    Termination,
};
use crate::report::{
    line_failure_text, missing_text, not_a_file_text, on_stderr, on_stdout, prompt_text, written,
    Channel, EmissionView,
};
use crate::target::PathProbe;
use crate::text::{trimmed, white_space};
use vstd::prelude::*;

verus! {

/// Whether `part` stands somewhere in `text`, character for character.
pub open spec fn holds(text: Seq<char>, part: Seq<char>) -> bool {
    exists|at: int|
        0 <= at && at + part.len() <= text.len() && #[trigger] text.subrange(
            at,
            at + part.len(),
        ) == part
}

/// What the file reports for one line: the event of a line that was read.
pub open spec fn line_events(lines: Seq<Seq<char>>) -> Seq<EventView> {
    lines.map_values(|text: Seq<char>| EventView::Line(text))
}

/// The lines as they go to standard output.
pub open spec fn line_emissions(lines: Seq<Seq<char>>) -> Seq<EmissionView> {
    lines.map_values(|text: Seq<char>| on_stdout(text))
}

/// The events of one round in which the file named by `line` is echoed: the
/// line of input, a probe that finds a regular file, the lines of the file,
/// and its end.
pub open spec fn echo_round(line: Seq<char>, lines: Seq<Seq<char>>) -> Seq<EventView> {
    seq![EventView::Input(line), EventView::Probed(PathProbe { exists: true, is_file: true })]
        + line_events(lines) + seq![EventView::EndOfFile]
}

/// What one such round emits for the file at `path`: the path, the lines of
/// the file, and the next prompt, all on standard output.
pub open spec fn echo_output(path: Seq<char>, lines: Seq<Seq<char>>) -> Seq<EmissionView> {
    seq![on_stdout(path)] + line_emissions(lines) + seq![on_stdout(prompt_text())]
}

/// The event that reading one line of the file came to: the line, or why it
/// could not be read.
pub open spec fn reading_event(outcome: Result<Seq<char>, Seq<char>>) -> EventView {
    match outcome {
        Ok(text) => EventView::Line(text),
        Err(cause) => EventView::LineFailed(cause),
    }
}

/// What is written for it: the line on standard output, or a diagnostic on
/// standard error.
pub open spec fn reading_emission(outcome: Result<Seq<char>, Seq<char>>) -> EmissionView {
    match outcome {
        Ok(text) => on_stdout(text),
        Err(cause) => on_stderr(line_failure_text(cause)),
    }
}

/// Trimming cuts off white space at the end and nothing else: what is left is
/// a prefix of the text, all that was cut is white space, and what is left
/// does not end in white space.
pub proof fn law_trimmed_cuts_trailing_white_space(s: Seq<char>)
    ensures
        trimmed(s).len() <= s.len(),
        trimmed(s) == s.take(trimmed(s).len() as int),
        forall|i: int| trimmed(s).len() <= i < s.len() ==> white_space(#[trigger] s[i]),
        trimmed(s).len() > 0 ==> !white_space(trimmed(s).last()),
    decreases s.len(),
{
    if s.len() > 0 && white_space(s.last()) {
        law_trimmed_cuts_trailing_white_space(s.drop_last());
        let rest = s.drop_last();
        assert(rest.take(trimmed(s).len() as int) =~= s.take(trimmed(s).len() as int));
        assert forall|i: int| trimmed(s).len() <= i < s.len() implies white_space(
            #[trigger] s[i],
        ) by {
            if i < rest.len() {
                assert(s[i] == rest[i]);
            }
        }
    } else {
        assert(s.take(s.len() as int) =~= s);
    }
}

/// Trimming twice is trimming once.
pub proof fn law_trimmed_is_idempotent(s: Seq<char>)
    ensures
        trimmed(trimmed(s)) == trimmed(s),
    decreases s.len(),
{
    if s.len() > 0 && white_space(s.last()) {
        law_trimmed_is_idempotent(s.drop_last());
    }
}

/// Events taken in two batches lead where they lead in one: the second batch
/// goes on from the state that the first reached, and what both emitted is
/// what the first emitted, then what the second emitted.
pub proof fn law_trace_in_two_batches(
    state: StateView,
    first: Seq<EventView>,
    second: Seq<EventView>,
)
    ensures
        trace(state, first + second) == match trace(state, first) {
            None => None,
            Some(mid) => match trace(mid.state, second) {
                None => None,
                Some(end) => Some(
                    StepView { state: end.state, emitted: mid.emitted + end.emitted },
                ),
            },
        },
    decreases second.len(),
{
    if second.len() == 0 {
        assert(first + second =~= first);
        if let Some(mid) = trace(state, first) {
            assert(mid.emitted + Seq::<EmissionView>::empty() =~= mid.emitted);
        }
    } else {
        law_trace_in_two_batches(state, first, second.drop_last());
        assert((first + second).drop_last() =~= first + second.drop_last());
        assert((first + second).last() == second.last());
        if let Some(mid) = trace(state, first) {
            if let Some(before) = trace(mid.state, second.drop_last()) {
                if let Some(last) = transition(before.state, second.last()) {
                    assert((mid.emitted + before.emitted) + last.emitted =~= mid.emitted
                        + (before.emitted + last.emitted));
                }
            }
        }
    }
}

/// One event alone leads where its transition leads.
pub proof fn law_trace_of_one_event(state: StateView, event: EventView)
    ensures
        trace(state, seq![event]) == transition(state, event),
{
    let events = seq![event];
    assert(events.drop_last() =~= Seq::<EventView>::empty());
    assert(events.last() == event);
    assert(trace(state, events.drop_last()) == Some(StepView { state, emitted: seq![] }));
    if let Some(step) = transition(state, event) {
        assert(Seq::<EmissionView>::empty() + step.emitted =~= step.emitted);
    }
}

/// A transition is made exactly where the state awaits the event.
pub proof fn law_transition_where_awaited(state: StateView, event: EventView)
    ensures
        transition(state, event) is Some <==> awaits(state, event),
{
}

/// Once the loop is over it stays over: no event is awaited any more.
pub proof fn law_terminated_is_final(how: Termination, event: EventView)
    ensures
        transition(StateView::Terminated(how), event) is None,
{
}

/// The process leaves with status 0 if and only if the user asked to leave.
pub proof fn law_status_zero_means_graceful(how: Termination)
    ensures
        exit_status(how) == 0 <==> how == Termination::Graceful,
{
}

/// A line that is the exit word, once trimmed, ends the loop at once: with
/// status 0, with nothing written, and without a state in which the driver
/// would go to the file system.
pub proof fn law_exit_ends_the_loop(line: Seq<char>)
    requires
        trimmed(line) == exit_word(),
    ensures
        transition(StateView::Prompting, EventView::Input(line)) == Some(
            StepView { state: StateView::Terminated(Termination::Graceful), emitted: seq![] },
        ),
        exit_status(Termination::Graceful) == 0,
        !touches_files(StateView::Terminated(Termination::Graceful)),
        forall|event: EventView|
            (#[trigger] transition(StateView::Terminated(Termination::Graceful), event)) is None,
{
}

/// A line that is empty, once trimmed, brings the prompt again and nothing
/// else: no diagnostic, and no state in which the driver would go to the file
/// system.
pub proof fn law_empty_line_prompts_again(line: Seq<char>)
    requires
        trimmed(line).len() == 0,
    ensures
        transition(StateView::Prompting, EventView::Input(line)) == Some(
            StepView { state: StateView::Prompting, emitted: seq![on_stdout(prompt_text())] },
        ),
        written(seq![on_stdout(prompt_text())], Channel::Stderr) == Seq::<Seq<char>>::empty(),
        !touches_files(StateView::Prompting),
{
    reveal_strlit("exit");
    reveal_with_fuel(written, 2);
}

/// What is written to a channel by two batches of lines is what the first
/// wrote to it, then what the second wrote to it.
pub proof fn law_written_in_two_batches(
    first: Seq<EmissionView>,
    second: Seq<EmissionView>,
    channel: Channel,
)
    ensures
        written(first + second, channel) == written(first, channel) + written(second, channel),
    decreases second.len(),
{
    if second.len() == 0 {
        assert(first + second =~= first);
        assert(written(first, channel) + written(second, channel) =~= written(first, channel));
    } else {
        law_written_in_two_batches(first, second.drop_last(), channel);
        assert((first + second).drop_last() =~= first + second.drop_last());
        assert((first + second).last() == second.last());
        if second.last().channel == channel {
            assert(written(first + second, channel) =~= written(first, channel) + written(
                second,
                channel,
            ));
        }
    }
}

/// The lines of a file go to standard output as they are, in their order, and
/// nothing of them goes to standard error.
pub proof fn law_lines_are_written_to_stdout(lines: Seq<Seq<char>>)
    ensures
        written(line_emissions(lines), Channel::Stdout) == lines,
        written(line_emissions(lines), Channel::Stderr) == Seq::<Seq<char>>::empty(),
    decreases lines.len(),
{
    if lines.len() > 0 {
        law_lines_are_written_to_stdout(lines.drop_last());
        assert(line_emissions(lines).drop_last() =~= line_emissions(lines.drop_last()));
        assert(written(line_emissions(lines), Channel::Stdout) =~= lines);
    } else {
        assert(written(line_emissions(lines), Channel::Stdout) =~= lines);
    }
}

/// While a file is echoed, each line that was read goes to standard output,
/// each line that could not be read brings one diagnostic, and either way the
/// echo goes on with the next line.
pub proof fn law_streaming_goes_line_by_line(
    path: Seq<char>,
    outcomes: Seq<Result<Seq<char>, Seq<char>>>,
)
    ensures
        trace(StateView::Streaming(path), outcomes.map_values(|o| reading_event(o))) == Some(
            StepView {
                state: StateView::Streaming(path),
                emitted: outcomes.map_values(|o| reading_emission(o)),
            },
        ),
    decreases outcomes.len(),
{
    let events = outcomes.map_values(|o| reading_event(o));
    let emitted = outcomes.map_values(|o| reading_emission(o));
    if outcomes.len() == 0 {
        assert(emitted =~= Seq::<EmissionView>::empty());
    } else {
        let before = outcomes.drop_last();
        law_streaming_goes_line_by_line(path, before);
        assert(events.drop_last() =~= before.map_values(|o| reading_event(o)));
        assert(events.last() == reading_event(outcomes.last()));
        assert(emitted =~= before.map_values(|o| reading_emission(o)) + seq![
            reading_emission(outcomes.last()),
        ]);
    }
}

/// A line that names a path at which nothing exists brings exactly one
/// diagnostic, which holds the path as it was typed, and then the prompt
/// again.
pub proof fn law_missing_path_is_reported_once(line: Seq<char>, path: Seq<char>, probe: PathProbe)
    requires
        classify(line) == CommandView::PathRequest(path),
        !probe.exists,
    ensures
        trace(StateView::Prompting, seq![EventView::Input(line), EventView::Probed(probe)])
            == Some(
            StepView {
                state: StateView::Prompting,
                emitted: seq![on_stderr(missing_text(path)), on_stdout(prompt_text())],
            },
        ),
        written(
            seq![on_stderr(missing_text(path)), on_stdout(prompt_text())],
            Channel::Stderr,
        ) == seq![missing_text(path)],
        holds(missing_text(path), path),
{
    let events = seq![EventView::Input(line), EventView::Probed(probe)];
    assert(events =~= seq![EventView::Input(line)] + seq![EventView::Probed(probe)]);
    law_trace_of_one_event(StateView::Prompting, EventView::Input(line));
    law_trace_of_one_event(StateView::Validating(path), EventView::Probed(probe));
    law_trace_in_two_batches(
        StateView::Prompting,
        seq![EventView::Input(line)],
        seq![EventView::Probed(probe)],
    );
    let emitted = seq![on_stderr(missing_text(path)), on_stdout(prompt_text())];
    assert(Seq::<EmissionView>::empty() + emitted =~= emitted);
    assert(written(emitted, Channel::Stderr) =~= seq![missing_text(path)]) by {
        reveal_with_fuel(written, 3);
    }
    lemma_holds_its_end("File does not exist: "@, path);
}

/// A line that names a directory, or anything else that exists and is no
/// regular file, brings exactly one diagnostic, which says that the path is
/// not a file, and then the prompt again.
pub proof fn law_directory_is_reported_once(line: Seq<char>, path: Seq<char>, probe: PathProbe)
    requires
        classify(line) == CommandView::PathRequest(path),
        probe.exists,
        !probe.is_file,
    ensures
        trace(StateView::Prompting, seq![EventView::Input(line), EventView::Probed(probe)])
            == Some(
            StepView {
                state: StateView::Prompting,
                emitted: seq![on_stderr(not_a_file_text(path)), on_stdout(prompt_text())],
            },
        ),
        written(
            seq![on_stderr(not_a_file_text(path)), on_stdout(prompt_text())],
            Channel::Stderr,
        ) == seq![not_a_file_text(path)],
        holds(not_a_file_text(path), "Path is not a file"@),
        holds(not_a_file_text(path), path),
{
    let events = seq![EventView::Input(line), EventView::Probed(probe)];
    assert(events =~= seq![EventView::Input(line)] + seq![EventView::Probed(probe)]);
    law_trace_of_one_event(StateView::Prompting, EventView::Input(line));
    law_trace_of_one_event(StateView::Validating(path), EventView::Probed(probe));
    law_trace_in_two_batches(
        StateView::Prompting,
        seq![EventView::Input(line)],
        seq![EventView::Probed(probe)],
    );
    let emitted = seq![on_stderr(not_a_file_text(path)), on_stdout(prompt_text())];
    assert(Seq::<EmissionView>::empty() + emitted =~= emitted);
    assert(written(emitted, Channel::Stderr) =~= seq![not_a_file_text(path)]) by {
        reveal_with_fuel(written, 3);
    }
    lemma_holds_its_end("Path is not a file: "@, path);
    assert(holds(not_a_file_text(path), "Path is not a file"@)) by {
        reveal_strlit("Path is not a file: ");
        reveal_strlit("Path is not a file");
        let text = not_a_file_text(path);
        let part = "Path is not a file"@;
        assert(text.subrange(0int, 0int + part.len()) =~= part);
    }
}

/// A line that names a regular file of any number of lines brings the path
/// once, then exactly the lines of the file, in their order and as they are,
/// then the prompt again; nothing goes to standard error.
pub proof fn law_file_is_echoed(line: Seq<char>, path: Seq<char>, lines: Seq<Seq<char>>)
    requires
        classify(line) == CommandView::PathRequest(path),
    ensures
        trace(StateView::Prompting, echo_round(line, lines)) == Some(
            StepView { state: StateView::Prompting, emitted: echo_output(path, lines) },
        ),
        written(echo_output(path, lines), Channel::Stdout) == seq![path] + lines + seq![
            prompt_text(),
        ],
        written(echo_output(path, lines), Channel::Stderr) == Seq::<Seq<char>>::empty(),
{
    let probe = PathProbe { exists: true, is_file: true };
    let head = seq![EventView::Input(line)];
    let check = seq![EventView::Probed(probe)];
    let body = line_events(lines);
    let end = seq![EventView::EndOfFile];
    let streaming = StateView::Streaming(path);

    law_trace_of_one_event(StateView::Prompting, EventView::Input(line));
    law_trace_of_one_event(StateView::Validating(path), EventView::Probed(probe));
    law_trace_of_one_event(streaming, EventView::EndOfFile);
    assert(trace(streaming, body) == Some(
        StepView { state: streaming, emitted: line_emissions(lines) },
    )) by {
        let outcomes = lines.map_values(|text: Seq<char>| Ok::<Seq<char>, Seq<char>>(text));
        law_streaming_goes_line_by_line(path, outcomes);
        assert(outcomes.map_values(|o| reading_event(o)) =~= body);
        assert(outcomes.map_values(|o| reading_emission(o)) =~= line_emissions(lines));
    }
    law_trace_in_two_batches(StateView::Prompting, head, check);
    law_trace_in_two_batches(StateView::Prompting, head + check, body);
    law_trace_in_two_batches(StateView::Prompting, head + check + body, end);
    assert(head + check =~= seq![EventView::Input(line), EventView::Probed(probe)]);
    assert(Seq::<EmissionView>::empty() + seq![on_stdout(path)] =~= seq![on_stdout(path)]);

    let first = seq![on_stdout(path)];
    let last = seq![on_stdout(prompt_text())];
    law_written_in_two_batches(first, line_emissions(lines), Channel::Stdout);
    law_written_in_two_batches(first + line_emissions(lines), last, Channel::Stdout);
    law_written_in_two_batches(first, line_emissions(lines), Channel::Stderr);
    law_written_in_two_batches(first + line_emissions(lines), last, Channel::Stderr);
    law_lines_are_written_to_stdout(lines);
    assert(written(first, Channel::Stdout) =~= seq![path] && written(first, Channel::Stderr)
        =~= Seq::<Seq<char>>::empty()) by {
        reveal_with_fuel(written, 2);
    }
    assert(written(last, Channel::Stdout) =~= seq![prompt_text()] && written(
        last,
        Channel::Stderr,
    ) =~= Seq::<Seq<char>>::empty()) by {
        reveal_with_fuel(written, 2);
    }
    assert(written(echo_output(path, lines), Channel::Stderr) =~= Seq::<Seq<char>>::empty());
}

/// A round that leads from the prompt back to the prompt emits the same when
/// it is played again right after: the loop keeps nothing from one round to
/// the next.
pub proof fn law_round_repeats(round: Seq<EventView>)
    requires
        trace(StateView::Prompting, round) matches Some(once) && once.state
            == StateView::Prompting,
    ensures
        trace(StateView::Prompting, round + round) == Some(
            StepView {
                state: StateView::Prompting,
                emitted: trace(StateView::Prompting, round).unwrap().emitted + trace(
                    StateView::Prompting,
                    round,
                ).unwrap().emitted,
            },
        ),
{
    law_trace_in_two_batches(StateView::Prompting, round, round);
}

/// The same file echoed twice in a row, unchanged in between, is written the
/// same both times.
pub proof fn law_same_file_twice(line: Seq<char>, path: Seq<char>, lines: Seq<Seq<char>>)
    requires
        classify(line) == CommandView::PathRequest(path),
    ensures
        trace(StateView::Prompting, echo_round(line, lines) + echo_round(line, lines)) == Some(
            StepView {
                state: StateView::Prompting,
                emitted: echo_output(path, lines) + echo_output(path, lines),
            },
        ),
{
    law_file_is_echoed(line, path, lines);
    law_round_repeats(echo_round(line, lines));
}

/// A text that ends in `part` holds `part`.
proof fn lemma_holds_its_end(start: Seq<char>, part: Seq<char>)
    ensures
        holds(start + part, part),
{
    let text = start + part;
    let at = start.len() as int;
    assert(text.subrange(at, at + part.len()) =~= part);
}

} // verus!
