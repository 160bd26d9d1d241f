//! What holds of whole runs: of any sequence of events that a command may see.
use crate::context::end;
use crate::context::go_on;
use crate::context::Answer;
use crate::context::CommandActionView;
use crate::context::CommandContextView;
use crate::context::CommandEventView;
use crate::context::LINE_LIMIT;
use crate::error::CommandErrorView;
use crate::exit::Capture;
use crate::exit::CommandExitCode;
use crate::exit::CommandExitView;
use crate::exit::CommandExitWorkingView;
use crate::monitor::CommandMonitorMessageView;
use crate::monitor::CommandStream;
use crate::ring::last_n;
use crate::ring::law_latest_items_are_kept;
use crate::ring::lemma_last_n_of_push;
use crate::stdin::fed_bytes;
use crate::stdin::law_line_is_fed_with_a_newline;
use crate::stdin::trimmed;
use crate::stdin::StdinStepView;
use std::ops::ControlFlow;
use vstd::prelude::*;
use vstd::utf8::encode_utf8;

verus! {

/// The state after all of `events`, one after the other.
pub open spec fn replay(
    state: CommandContextView,
    events: Seq<CommandEventView>,
) -> CommandContextView
    decreases events.len(),
{
    if events.len() == 0 {
        state
    } else {
        replay(state, events.drop_last()).next(events.last())
    }
}

/// The result of a run that sees `events`, or none where they leave it
/// running. What comes after the end of a run is not seen.
pub open spec fn run_result(
    state: CommandContextView,
    events: Seq<CommandEventView>,
) -> Option<Result<CommandExitView, CommandErrorView>>
    decreases events.len(),
{
    if events.len() == 0 {
        None
    } else {
        match state.answer(events.first()) {
            ControlFlow::Break(result) => Some(result),
            ControlFlow::Continue(_) => run_result(
                state.next(events.first()),
                events.drop_first(),
            ),
        }
    }
}

/// The messages that tell of the lines written among `events`, in order.
pub open spec fn written(events: Seq<CommandEventView>) -> Seq<CommandMonitorMessageView>
    decreases events.len(),
{
    if events.len() == 0 {
        Seq::empty()
    } else {
        let before = written(events.drop_last());
        match events.last() {
            CommandEventView::StdoutLine { line } => before.push(
                CommandMonitorMessageView::Stdout { line },
            ),
            CommandEventView::StderrLine { line } => before.push(
                CommandMonitorMessageView::Stderr { line },
            ),
            _ => before,
        }
    }
}

/// The lines written to stdout among `events`, in order.
pub open spec fn stdout_of(events: Seq<CommandEventView>) -> Seq<Seq<char>>
    decreases events.len(),
{
    if events.len() == 0 {
        Seq::empty()
    } else {
        match events.last() {
            CommandEventView::StdoutLine { line } => stdout_of(events.drop_last()).push(line),
            _ => stdout_of(events.drop_last()),
        }
    }
}

/// The lines written to stderr among `events`, in order.
pub open spec fn stderr_of(events: Seq<CommandEventView>) -> Seq<Seq<char>>
    decreases events.len(),
{
    if events.len() == 0 {
        Seq::empty()
    } else {
        match events.last() {
            CommandEventView::StderrLine { line } => stderr_of(events.drop_last()).push(line),
            _ => stderr_of(events.drop_last()),
        }
    }
}

/// The lines that `messages` tell of `stream`, in order.
pub open spec fn lines_on(
    messages: Seq<CommandMonitorMessageView>,
    stream: CommandStream,
) -> Seq<Seq<char>>
    decreases messages.len(),
{
    if messages.len() == 0 {
        Seq::empty()
    } else {
        let before = lines_on(messages.drop_last(), stream);
        if messages.last().stream() == stream {
            before.push(messages.last().line())
        } else {
            before
        }
    }
}

/// The answers that a command gives to `events`, one for each.
pub open spec fn answers(state: CommandContextView, events: Seq<CommandEventView>) -> Seq<Answer>
    decreases events.len(),
{
    if events.len() == 0 {
        Seq::empty()
    } else {
        answers(state, events.drop_last()).push(
            replay(state, events.drop_last()).answer(events.last()),
        )
    }
}

/// The messages that `answers` send to the monitor, in order.
pub open spec fn forwarded(answers: Seq<Answer>) -> Seq<CommandMonitorMessageView>
    decreases answers.len(),
{
    if answers.len() == 0 {
        Seq::empty()
    } else {
        let before = forwarded(answers.drop_last());
        match answers.last() {
            ControlFlow::Continue(CommandActionView::Forward { message }) => before.push(message),
            _ => before,
        }
    }
}

/// The bytes that `answers` write to the stdin of the process, in order.
pub open spec fn fed(answers: Seq<Answer>) -> Seq<u8>
    decreases answers.len(),
{
    if answers.len() == 0 {
        Seq::empty()
    } else {
        let before = fed(answers.drop_last());
        match answers.last() {
            ControlFlow::Continue(CommandActionView::Feed { steps }) => before + fed_bytes(steps),
            _ => before,
        }
    }
}

/// The lines meant for stdin among `events`, each without the white space
/// around it and with a newline at its end, in UTF-8.
pub open spec fn stdin_of(events: Seq<CommandEventView>) -> Seq<u8>
    decreases events.len(),
{
    if events.len() == 0 {
        Seq::empty()
    } else {
        let before = stdin_of(events.drop_last());
        match events.last() {
            CommandEventView::StdinLine { line } => before + encode_utf8(trimmed(line).push('\n')),
            _ => before,
        }
    }
}

/// Whether `event` is a line, to the command or from it.
pub open spec fn is_line(event: CommandEventView) -> bool {
    ||| event is StdoutLine
    ||| event is StderrLine
    ||| event is StdinLine
}

/// Whether all of `events` are lines, to the command or from it.
pub open spec fn all_lines(events: Seq<CommandEventView>) -> bool {
    forall|i: int| 0 <= i < events.len() ==> is_line(#[trigger] events[i])
}

proof fn lemma_lines_before(events: Seq<CommandEventView>)
    requires
        all_lines(events),
        events.len() > 0,
    ensures
        all_lines(events.drop_last()),
        is_line(events.last()),
{
    let before = events.drop_last();
    assert forall|i: int| 0 <= i < before.len() implies is_line(#[trigger] before[i]) by {
        assert(before[i] == events[i]);
    }
    assert(is_line(events[events.len() - 1]));
}

/// While a command runs, its state holds the latest lines of each stream, in
/// the order in which they were written, and nothing else.
pub proof fn law_state_of_a_running_command(monitored: bool, events: Seq<CommandEventView>)
    requires
        all_lines(events),
    ensures
        replay(CommandContextView::start(monitored), events) == (CommandContextView {
            monitored,
            result: CommandExitWorkingView {
                stdout: Capture {
                    limit: LINE_LIMIT as nat,
                    lines: last_n(stdout_of(events), LINE_LIMIT as nat),
                },
                stderr: Capture {
                    limit: LINE_LIMIT as nat,
                    lines: last_n(stderr_of(events), LINE_LIMIT as nat),
                },
                exit_code: None,
            },
        }),
    decreases events.len(),
{
    if events.len() > 0 {
        let before = events.drop_last();
        lemma_lines_before(events);
        law_state_of_a_running_command(monitored, before);
        match events.last() {
            CommandEventView::StdoutLine { line } => {
                lemma_last_n_of_push(stdout_of(before), line, LINE_LIMIT as nat);
            },
            CommandEventView::StderrLine { line } => {
                lemma_last_n_of_push(stderr_of(before), line, LINE_LIMIT as nat);
            },
            _ => {},
        }
    }
}

proof fn lemma_run_result_after_lines(
    monitored: bool,
    lines: Seq<CommandEventView>,
    rest: Seq<CommandEventView>,
)
    requires
        all_lines(lines),
    ensures
        run_result(CommandContextView::start(monitored), lines + rest) == run_result(
            replay(CommandContextView::start(monitored), lines),
            rest,
        ),
    decreases lines.len(),
{
    let start = CommandContextView::start(monitored);
    if lines.len() == 0 {
        assert(lines + rest =~= rest);
    } else {
        let before = lines.drop_last();
        let after = seq![lines.last()] + rest;
        lemma_lines_before(lines);
        lemma_run_result_after_lines(monitored, before, after);
        law_state_of_a_running_command(monitored, before);
        assert(before + after =~= lines + rest);
        assert(after.drop_first() =~= rest);
        assert(after.first() == lines.last());
    }
}

/// Lines alone leave a command running.
pub proof fn law_lines_leave_a_command_running(monitored: bool, lines: Seq<CommandEventView>)
    requires
        all_lines(lines),
    ensures
        run_result(CommandContextView::start(monitored), lines) is None,
{
    lemma_run_result_after_lines(monitored, lines, Seq::empty());
    assert(lines + Seq::<CommandEventView>::empty() =~= lines);
}

/// A command whose process exits, with whatever code, gives that code and the
/// last hundred lines that it wrote to each stream, in order. A failure to
/// wait for the process gives the error, and none of the lines.
pub proof fn law_result_of_an_exit(
    monitored: bool,
    lines: Seq<CommandEventView>,
    outcome: Result<CommandExitCode, Seq<char>>,
    rest: Seq<CommandEventView>,
)
    requires
        all_lines(lines),
    ensures
        run_result(
            CommandContextView::start(monitored),
            lines + (seq![CommandEventView::Exited { outcome }] + rest),
        ) == Some(
            match outcome {
                Ok(code) => Ok(
                    CommandExitView {
                        stdout_lines: last_n(stdout_of(lines), 100),
                        stderr_lines: last_n(stderr_of(lines), 100),
                        exit_code: Some(code),
                    },
                ),
                Err(error) => Err(CommandErrorView::BadExit { inner_error: error }),
            },
        ),
{
    let end_of_run = seq![CommandEventView::Exited { outcome }] + rest;
    law_state_of_a_running_command(monitored, lines);
    lemma_run_result_after_lines(monitored, lines, end_of_run);
    assert(end_of_run.first() == CommandEventView::Exited { outcome });
}

/// A stream of no more than a hundred lines is given whole.
pub proof fn law_short_streams_are_given_whole(
    monitored: bool,
    lines: Seq<CommandEventView>,
    code: CommandExitCode,
    rest: Seq<CommandEventView>,
)
    requires
        all_lines(lines),
        stdout_of(lines).len() <= 100,
        stderr_of(lines).len() <= 100,
    ensures
        run_result(
            CommandContextView::start(monitored),
            lines + (seq![CommandEventView::Exited { outcome: Ok(code) }] + rest),
        ) == Some(
            Ok::<_, CommandErrorView>(
                CommandExitView {
                    stdout_lines: stdout_of(lines),
                    stderr_lines: stderr_of(lines),
                    exit_code: Some(code),
                },
            ),
        ),
{
    law_result_of_an_exit(monitored, lines, Ok(code), rest);
}

/// A command that is cancelled gives nothing but the error that it was,
/// whatever came of killing it.
pub proof fn law_result_of_a_cancellation(
    monitored: bool,
    lines: Seq<CommandEventView>,
    attempt: Result<(), Seq<char>>,
    rest: Seq<CommandEventView>,
)
    requires
        all_lines(lines),
    ensures
        run_result(
            CommandContextView::start(monitored),
            lines + (seq![CommandEventView::Cancelled, CommandEventView::Killed { attempt }]
                + rest),
        ) == Some(Err::<CommandExitView, _>(CommandErrorView::Cancelled)),
{
    let state = replay(CommandContextView::start(monitored), lines);
    let killed = CommandEventView::Killed { attempt };
    let end_of_run = seq![CommandEventView::Cancelled, killed] + rest;
    lemma_run_result_after_lines(monitored, lines, end_of_run);
    assert(end_of_run.first() == CommandEventView::Cancelled);
    assert(end_of_run.drop_first().first() == killed);
    assert(run_result(state, end_of_run) == run_result(state, end_of_run.drop_first()));
}

/// Nothing that happens after the end of a run changes its result.
pub proof fn law_results_are_final(
    state: CommandContextView,
    events: Seq<CommandEventView>,
    more: Seq<CommandEventView>,
)
    requires
        run_result(state, events) is Some,
    ensures
        run_result(state, events + more) == run_result(state, events),
    decreases events.len(),
{
    assert((events + more).first() == events.first());
    if state.answer(events.first()) is Continue {
        assert((events + more).drop_first() =~= events.drop_first() + more);
        law_results_are_final(state.next(events.first()), events.drop_first(), more);
    }
}

/// In no state do the kept lines of a stream pass its limit, if they did not
/// before.
pub proof fn law_captures_stay_within_their_limits(
    state: CommandContextView,
    event: CommandEventView,
)
    requires
        state.result.stdout.lines.len() <= state.result.stdout.limit,
        state.result.stderr.lines.len() <= state.result.stderr.limit,
    ensures
        state.next(event).result.stdout.limit == state.result.stdout.limit,
        state.next(event).result.stderr.limit == state.result.stderr.limit,
        state.next(event).result.stdout.lines.len() <= state.result.stdout.limit,
        state.next(event).result.stderr.lines.len() <= state.result.stderr.limit,
{
}

/// A run goes on until the process exits, waiting for it fails, or killing it
/// has been tried: no line ends it, nor does the request to cancel it before
/// the process has been dealt with.
pub proof fn law_what_ends_a_run(state: CommandContextView, event: CommandEventView)
    ensures
        state.answer(event) is Break <==> event is Exited || event is Killed,
{
}

/// A run ends with an error only where waiting for the process failed or the
/// run was cancelled. That the process could not be spawned, or that no permit
/// could be had, is never the end of a run that has begun.
pub proof fn law_errors_of_a_run(state: CommandContextView, events: Seq<CommandEventView>)
    ensures
        run_result(state, events) matches Some(Err(error)) ==> error is BadExit
            || error is Cancelled,
    decreases events.len(),
{
    if events.len() > 0 && state.answer(events.first()) is Continue {
        law_errors_of_a_run(state.next(events.first()), events.drop_first());
    }
}

/// To cancel a command is to have it killed, and changes nothing else. The end
/// of the attempt ends the run as cancelled, and changes nothing either.
pub proof fn law_cancelling_kills(state: CommandContextView, attempt: Result<(), Seq<char>>)
    ensures
        state.answer(CommandEventView::Cancelled) == go_on(CommandActionView::Kill),
        state.next(CommandEventView::Cancelled) == state,
        state.answer(CommandEventView::Killed { attempt }) == end(Err(CommandErrorView::Cancelled)),
        state.next(CommandEventView::Killed { attempt }) == state,
{
}

/// Whether a command is watched never changes.
pub proof fn law_monitoring_is_fixed(state: CommandContextView, events: Seq<CommandEventView>)
    ensures
        replay(state, events).monitored == state.monitored,
    decreases events.len(),
{
    if events.len() > 0 {
        law_monitoring_is_fixed(state, events.drop_last());
    }
}

/// The monitor of a watched command is sent every line that the command
/// writes, once and in order, and not only those that are kept for the exit.
/// Nothing is sent for a command that is not watched.
pub proof fn law_every_line_is_forwarded(monitored: bool, events: Seq<CommandEventView>)
    requires
        all_lines(events),
    ensures
        forwarded(answers(CommandContextView::start(monitored), events)) == if monitored {
            written(events)
        } else {
            Seq::empty()
        },
    decreases events.len(),
{
    let start = CommandContextView::start(monitored);
    if events.len() > 0 {
        let before = events.drop_last();
        lemma_lines_before(events);
        law_every_line_is_forwarded(monitored, before);
        law_state_of_a_running_command(monitored, before);
        assert(answers(start, events).drop_last() =~= answers(start, before));
    }
}

/// The lines that a monitor is told of a stream are those of which the exit
/// gives the last: the messages hold each stream whole, in order.
pub proof fn law_messages_hold_each_stream(events: Seq<CommandEventView>)
    ensures
        lines_on(written(events), CommandStream::Stdout) == stdout_of(events),
        lines_on(written(events), CommandStream::Stderr) == stderr_of(events),
    decreases events.len(),
{
    if events.len() > 0 {
        let before = written(events.drop_last());
        law_messages_hold_each_stream(events.drop_last());
        match events.last() {
            CommandEventView::StdoutLine { .. } | CommandEventView::StderrLine { .. } => {
                assert(written(events).drop_last() =~= before);
            },
            _ => {},
        }
    }
}

/// A watched command is fed every line that its monitor sends, once and in
/// order.
pub proof fn law_every_line_is_fed(monitored: bool, events: Seq<CommandEventView>)
    requires
        all_lines(events),
    ensures
        fed(answers(CommandContextView::start(monitored), events)) == if monitored {
            stdin_of(events)
        } else {
            Seq::empty()
        },
    decreases events.len(),
{
    let start = CommandContextView::start(monitored);
    if events.len() > 0 {
        let before = events.drop_last();
        lemma_lines_before(events);
        law_every_line_is_fed(monitored, before);
        law_state_of_a_running_command(monitored, before);
        assert(answers(start, events).drop_last() =~= answers(start, before));
        if let CommandEventView::StdinLine { line } = events.last() {
            law_line_is_fed_with_a_newline(line);
        }
    }
}

/// Nothing is ever written to the stdin of a command that is not watched.
pub proof fn law_unwatched_commands_are_not_fed(
    state: CommandContextView,
    event: CommandEventView,
)
    requires
        !state.monitored,
    ensures
        state.answer(event) matches ControlFlow::Continue(action) ==> action !is Feed
            && action !is Forward,
{
}

/// Lines are those events, and only those, that bring one.
pub proof fn law_which_events_are_lines(event: CommandEventView)
    ensures
        is_line(event) <==> event !is Exited && event !is Cancelled && event !is Killed,
{
}

/// Events are all lines where none of them is anything else.
pub proof fn law_when_events_are_all_lines(events: Seq<CommandEventView>)
    ensures
        all_lines(events) <==> (forall|i: int|
            0 <= i < events.len() ==> #[trigger] events[i] is StdoutLine || events[i] is StderrLine
                || events[i] is StdinLine),
{
    if all_lines(events) {
        assert forall|i: int| 0 <= i < events.len() implies #[trigger] events[i] is StdoutLine
            || events[i] is StderrLine || events[i] is StdinLine by {
            assert(is_line(events[i]));
        }
    }
}

/// A message adds its line to those of its own stream alone, at the end.
pub proof fn law_lines_of_messages_add_up(
    messages: Seq<CommandMonitorMessageView>,
    line: Seq<char>,
)
    ensures
        ({
            let more = messages.push(CommandMonitorMessageView::Stdout { line });
            &&& lines_on(more, CommandStream::Stdout) == lines_on(
                messages,
                CommandStream::Stdout,
            ).push(line)
            &&& lines_on(more, CommandStream::Stderr) == lines_on(messages, CommandStream::Stderr)
        }),
        ({
            let more = messages.push(CommandMonitorMessageView::Stderr { line });
            &&& lines_on(more, CommandStream::Stderr) == lines_on(
                messages,
                CommandStream::Stderr,
            ).push(line)
            &&& lines_on(more, CommandStream::Stdout) == lines_on(messages, CommandStream::Stdout)
        }),
        forall|stream: CommandStream| (#[trigger] lines_on(Seq::empty(), stream)).len() == 0,
{
    assert(messages.push(CommandMonitorMessageView::Stdout { line }).drop_last() =~= messages);
    assert(messages.push(CommandMonitorMessageView::Stderr { line }).drop_last() =~= messages);
}

/// The state after some events is reached step by step, from each to the next.
pub proof fn law_replay_goes_step_by_step(
    state: CommandContextView,
    events: Seq<CommandEventView>,
    event: CommandEventView,
)
    ensures
        replay(state, Seq::empty()) == state,
        replay(state, events.push(event)) == replay(state, events).next(event),
{
    assert(events.push(event).drop_last() =~= events);
}

/// A run looks at one event after the other, and ends with the first that ends
/// it.
pub proof fn law_a_run_ends_with_the_first_end(
    state: CommandContextView,
    event: CommandEventView,
    rest: Seq<CommandEventView>,
)
    ensures
        run_result(state, Seq::empty()) is None,
        state.answer(event) matches ControlFlow::Break(result) ==> run_result(
            state,
            seq![event] + rest,
        ) == Some(result),
        state.answer(event) is Continue ==> run_result(state, seq![event] + rest) == run_result(
            state.next(event),
            rest,
        ),
{
    assert((seq![event] + rest).first() == event);
    assert((seq![event] + rest).drop_first() =~= rest);
}

/// A line written adds to what was written, at the end and to its own stream
/// alone. No other event adds to it.
pub proof fn law_what_was_written_adds_up(
    events: Seq<CommandEventView>,
    event: CommandEventView,
    line: Seq<char>,
)
    ensures
        stdout_of(Seq::empty()).len() == 0,
        stderr_of(Seq::empty()).len() == 0,
        written(Seq::empty()).len() == 0,
        stdout_of(events.push(CommandEventView::StdoutLine { line })) == stdout_of(events).push(
            line,
        ),
        stderr_of(events.push(CommandEventView::StderrLine { line })) == stderr_of(events).push(
            line,
        ),
        written(events.push(CommandEventView::StdoutLine { line })) == written(events).push(
            CommandMonitorMessageView::Stdout { line },
        ),
        written(events.push(CommandEventView::StderrLine { line })) == written(events).push(
            CommandMonitorMessageView::Stderr { line },
        ),
        event !is StdoutLine ==> stdout_of(events.push(event)) == stdout_of(events),
        event !is StderrLine ==> stderr_of(events.push(event)) == stderr_of(events),
        event !is StdoutLine && event !is StderrLine ==> written(events.push(event)) == written(
            events,
        ),
{
    assert(events.push(event).drop_last() =~= events);
    assert(events.push(CommandEventView::StdoutLine { line }).drop_last() =~= events);
    assert(events.push(CommandEventView::StderrLine { line }).drop_last() =~= events);
}

/// A line for stdin adds its text and a newline to what is to be fed. No other
/// event adds to it.
pub proof fn law_what_is_to_be_fed_adds_up(
    events: Seq<CommandEventView>,
    event: CommandEventView,
    line: Seq<char>,
)
    ensures
        stdin_of(Seq::empty()).len() == 0,
        stdin_of(events.push(CommandEventView::StdinLine { line })) == stdin_of(events)
            + encode_utf8(trimmed(line).push('\n')),
        event !is StdinLine ==> stdin_of(events.push(event)) == stdin_of(events),
{
    assert(events.push(event).drop_last() =~= events);
    assert(events.push(CommandEventView::StdinLine { line }).drop_last() =~= events);
}

/// Each event has its answer, in its place, from the state that the events
/// before it led to.
pub proof fn law_each_event_has_its_answer(
    state: CommandContextView,
    events: Seq<CommandEventView>,
)
    ensures
        answers(state, events).len() == events.len(),
        forall|i: int|
            0 <= i < events.len() ==> #[trigger] answers(state, events)[i] == replay(
                state,
                events.take(i),
            ).answer(events[i]),
    decreases events.len(),
{
    if events.len() > 0 {
        let before = events.drop_last();
        law_each_event_has_its_answer(state, before);
        assert forall|i: int| 0 <= i < events.len() implies #[trigger] answers(state, events)[i]
            == replay(state, events.take(i)).answer(events[i]) by {
            if i < before.len() {
                assert(answers(state, events)[i] == answers(state, before)[i]);
                assert(events.take(i) =~= before.take(i));
            } else {
                assert(events.take(i) =~= before);
            }
        }
    }
}

/// What answers forward and feed adds up, answer by answer.
pub proof fn law_forwarded_and_fed_add_up(
    answers: Seq<Answer>,
    message: CommandMonitorMessageView,
    steps: Seq<StdinStepView>,
    answer: Answer,
)
    ensures
        forwarded(Seq::empty()).len() == 0,
        fed(Seq::empty()).len() == 0,
        forwarded(answers.push(go_on(CommandActionView::Forward { message }))) == forwarded(
            answers,
        ).push(message),
        fed(answers.push(go_on(CommandActionView::Feed { steps }))) == fed(answers) + fed_bytes(
            steps,
        ),
        !(answer matches ControlFlow::Continue(CommandActionView::Forward { .. })) ==> forwarded(
            answers.push(answer),
        ) == forwarded(answers),
        !(answer matches ControlFlow::Continue(CommandActionView::Feed { .. })) ==> fed(
            answers.push(answer),
        ) == fed(answers),
{
    assert(answers.push(answer).drop_last() =~= answers);
    assert(answers.push(go_on(CommandActionView::Forward { message })).drop_last() =~= answers);
    assert(answers.push(go_on(CommandActionView::Feed { steps })).drop_last() =~= answers);
}

/// The exit of a run gives exactly a hundred lines of a stream that was written
/// more, and all lines of one that was not. Counted from the end, each line that
/// it gives is the line that was written.
pub proof fn law_exit_gives_the_last_hundred_lines(
    monitored: bool,
    lines: Seq<CommandEventView>,
    code: CommandExitCode,
    rest: Seq<CommandEventView>,
)
    requires
        all_lines(lines),
    ensures
        run_result(
            CommandContextView::start(monitored),
            lines + (seq![CommandEventView::Exited { outcome: Ok(code) }] + rest),
        ) matches Some(Ok(exit)) && {
            let (out, err) = (stdout_of(lines), stderr_of(lines));
            &&& exit.exit_code == Some(code)
            &&& exit.stdout_lines.len() == if out.len() < 100 {
                out.len()
            } else {
                100
            }
            &&& exit.stderr_lines.len() == if err.len() < 100 {
                err.len()
            } else {
                100
            }
            &&& forall|i: int|
                0 <= i < exit.stdout_lines.len() ==> #[trigger] exit.stdout_lines[i]
                    == out[out.len() - exit.stdout_lines.len() + i]
            &&& forall|i: int|
                0 <= i < exit.stderr_lines.len() ==> #[trigger] exit.stderr_lines[i]
                    == err[err.len() - exit.stderr_lines.len() + i]
        },
{
    law_result_of_an_exit(monitored, lines, Ok(code), rest);
    law_latest_items_are_kept(stdout_of(lines), 100);
    law_latest_items_are_kept(stderr_of(lines), 100);
}

} // verus!
