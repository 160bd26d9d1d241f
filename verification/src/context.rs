//! The state of a running command, and what is done on each event.
//!
//! A command is run by a loop outside this library. The loop waits for the
//! next [`CommandEvent`], hands it to [`CommandContext::tick`], and either
//! returns the result it is given or carries out the [`CommandAction`].
use crate::error::CommandError;
use crate::error::CommandErrorView;
use crate::exit::texts;
use crate::exit::Capture;
use crate::exit::CommandExit;
use crate::exit::CommandExitCode;
use crate::exit::CommandExitView;
use crate::exit::CommandExitWorking;
use crate::exit::CommandExitWorkingView;
use crate::monitor::CommandMonitorMessage;
use crate::monitor::CommandMonitorMessageView;
use crate::monitor::CommandMonitorServer;
use crate::ring::last_n;
use crate::ring::RingBuffer;
use crate::stdin::feeding;
use crate::stdin::stdin_steps;
use crate::stdin::steps_view;
use crate::stdin::StdinStep;
use crate::stdin::trimmed;
use crate::stdin::StdinStepView;
use std::ops::ControlFlow;
use vstd::prelude::*;
use vstd::utf8::encode_utf8;

verus! {

/// How many lines of each stream are kept for the exit.
pub const LINE_LIMIT: usize = 100;

/// Something that happened to a running command.
#[derive(Debug)]
pub enum CommandEvent {
    /// Waiting for the process came to an end, with its exit or an error.
    Exited { outcome: Result<CommandExitCode, String> },
    /// Someone asked for the run to be cancelled.
    Cancelled,
    /// The attempt to kill the process came to an end.
    Killed { attempt: Result<(), String> },
    /// The process wrote a line to its stdout.
    StdoutLine { line: String },
    /// The process wrote a line to its stderr.
    StderrLine { line: String },
    /// The monitor sent a line for the stdin of the process.
    StdinLine { line: String },
}

/// What a [`CommandEvent`] tells.
pub enum CommandEventView {
    Exited { outcome: Result<CommandExitCode, Seq<char>> },
    Cancelled,
    Killed { attempt: Result<(), Seq<char>> },
    StdoutLine { line: Seq<char> },
    StderrLine { line: Seq<char> },
    StdinLine { line: Seq<char> },
}

/// A result with the text of its error.
pub open spec fn outcome_view<T>(outcome: Result<T, String>) -> Result<T, Seq<char>> {
    match outcome {
        Ok(value) => Ok(value),
        Err(error) => Err(error@),
    }
}

impl View for CommandEvent {
    type V = CommandEventView;

    open spec fn view(&self) -> CommandEventView {
        match self {
            CommandEvent::Exited { outcome } => CommandEventView::Exited {
                outcome: outcome_view(*outcome),
            },
            CommandEvent::Cancelled => CommandEventView::Cancelled,
            CommandEvent::Killed { attempt } => CommandEventView::Killed {
                attempt: outcome_view(*attempt),
            },
            CommandEvent::StdoutLine { line } => CommandEventView::StdoutLine { line: line@ },
            CommandEvent::StderrLine { line } => CommandEventView::StderrLine { line: line@ },
            CommandEvent::StdinLine { line } => CommandEventView::StdinLine { line: line@ },
        }
    }
}

impl CommandEvent {
    /// The event of a read from the stdout of the process. The end of the
    /// stream and a failure to read are no events.
    pub fn from_stdout(read: Result<Option<String>, String>) -> (event: Option<Self>)
        ensures
            match read {
                Ok(Some(line)) => {
                    &&& event is Some
                    &&& event->0@ == (CommandEventView::StdoutLine { line: line@ })
                    &&& event->0 == (CommandEvent::StdoutLine { line })
                },
                _ => event is None,
            },
    {
        match read {
            Ok(Some(line)) => Some(CommandEvent::StdoutLine { line }),
            _ => None,
        }
    }

    /// The event of a read from the stderr of the process. The end of the
    /// stream and a failure to read are no events.
    pub fn from_stderr(read: Result<Option<String>, String>) -> (event: Option<Self>)
        ensures
            match read {
                Ok(Some(line)) => {
                    &&& event is Some
                    &&& event->0@ == (CommandEventView::StderrLine { line: line@ })
                    &&& event->0 == (CommandEvent::StderrLine { line })
                },
                _ => event is None,
            },
    {
        match read {
            Ok(Some(line)) => Some(CommandEvent::StderrLine { line }),
            _ => None,
        }
    }

    /// The event of a delivery on the stdin channel of the monitor. A closed
    /// channel is no event.
    pub fn from_stdin(delivery: Option<String>) -> (event: Option<Self>)
        ensures
            match delivery {
                Some(line) => {
                    &&& event is Some
                    &&& event->0@ == (CommandEventView::StdinLine { line: line@ })
                    &&& event->0 == (CommandEvent::StdinLine { line })
                },
                None => event is None,
            },
    {
        match delivery {
            Some(line) => Some(CommandEvent::StdinLine { line }),
            None => None,
        }
    }
}

/// What to do before waiting for the next event.
#[derive(Debug)]
pub enum CommandAction {
    /// Nothing.
    Wait,
    /// Send a message to the monitor. Whether that succeeds has no bearing on
    /// the run.
    Forward { message: CommandMonitorMessage },
    /// Kill the process. How that went is the next event.
    Kill,
    /// Take these steps on the stdin of the process, in order.
    Feed { steps: Vec<StdinStep> },
}

/// What a [`CommandAction`] asks for.
pub enum CommandActionView {
    Wait,
    Forward { message: CommandMonitorMessageView },
    Kill,
    Feed { steps: Seq<StdinStepView> },
}

impl View for CommandAction {
    type V = CommandActionView;

    open spec fn view(&self) -> CommandActionView {
        match self {
            CommandAction::Wait => CommandActionView::Wait,
            CommandAction::Forward { message } => CommandActionView::Forward { message: message@ },
            CommandAction::Kill => CommandActionView::Kill,
            CommandAction::Feed { steps } => CommandActionView::Feed { steps: steps_view(steps@) },
        }
    }
}

/// The answer to an event: go on with an action, or end with a result.
pub type Answer = ControlFlow<Result<CommandExitView, CommandErrorView>, CommandActionView>;

/// The answer that the run goes on, with `action`.
pub open spec fn go_on(action: CommandActionView) -> Answer {
    ControlFlow::Continue(action)
}

/// The answer that the run ends, with `result`.
pub open spec fn end(result: Result<CommandExitView, CommandErrorView>) -> Answer {
    ControlFlow::Break(result)
}

/// What an answer of [`CommandContext::tick`] says.
pub open spec fn answer_view(
    flow: ControlFlow<Result<CommandExit, CommandError>, CommandAction>,
) -> Answer {
    match flow {
        ControlFlow::Continue(action) => go_on(action@),
        ControlFlow::Break(Ok(exit)) => end(Ok(exit@)),
        ControlFlow::Break(Err(error)) => end(Err(error@)),
    }
}

/// The state of a running command.
pub struct CommandContext {
    /// The end of the monitor that goes with the command, if it is watched.
    pub server: Option<CommandMonitorServer>,
    /// The exit as far as it is known.
    pub result: CommandExitWorking,
}

/// What a [`CommandContext`] knows.
pub struct CommandContextView {
    pub monitored: bool,
    pub result: CommandExitWorkingView,
}

impl View for CommandContext {
    type V = CommandContextView;

    open spec fn view(&self) -> CommandContextView {
        CommandContextView { monitored: self.server is Some, result: self.result@ }
    }
}

impl CommandContextView {
    /// The state of a command that has just been spawned.
    pub open spec fn start(monitored: bool) -> Self {
        let nothing = Capture { limit: LINE_LIMIT as nat, lines: Seq::empty() };
        CommandContextView {
            monitored,
            result: CommandExitWorkingView { stdout: nothing, stderr: nothing, exit_code: None },
        }
    }

    /// The state after the process exited as `code` tells.
    pub open spec fn with_exit(self, code: CommandExitCode) -> Self {
        CommandContextView {
            result: CommandExitWorkingView { exit_code: Some(code), ..self.result },
            ..self
        }
    }

    /// The state after a line on stdout.
    pub open spec fn with_stdout(self, line: Seq<char>) -> Self {
        CommandContextView {
            result: CommandExitWorkingView {
                stdout: self.result.stdout.push(line),
                ..self.result
            },
            ..self
        }
    }

    /// The state after a line on stderr.
    pub open spec fn with_stderr(self, line: Seq<char>) -> Self {
        CommandContextView {
            result: CommandExitWorkingView {
                stderr: self.result.stderr.push(line),
                ..self.result
            },
            ..self
        }
    }

    /// What is done with a line that the process wrote: it goes to the
    /// monitor, if there is one.
    pub open spec fn forwarding(self, message: CommandMonitorMessageView) -> CommandActionView {
        if self.monitored {
            CommandActionView::Forward { message }
        } else {
            CommandActionView::Wait
        }
    }

    /// The state after `event`.
    pub open spec fn next(self, event: CommandEventView) -> Self {
        match event {
            CommandEventView::Exited { outcome: Ok(code) } => self.with_exit(code),
            CommandEventView::StdoutLine { line } => self.with_stdout(line),
            CommandEventView::StderrLine { line } => self.with_stderr(line),
            _ => self,
        }
    }

    /// The answer to `event`.
    pub open spec fn answer(self, event: CommandEventView) -> Answer {
        match event {
            CommandEventView::Exited { outcome: Ok(code) } => end(
                Ok(self.with_exit(code).result.finished()),
            ),
            CommandEventView::Exited { outcome: Err(error) } => end(
                Err(CommandErrorView::BadExit { inner_error: error }),
            ),
            CommandEventView::Cancelled => go_on(CommandActionView::Kill),
            CommandEventView::Killed { .. } => end(Err(CommandErrorView::Cancelled)),
            CommandEventView::StdoutLine { line } => go_on(
                self.forwarding(CommandMonitorMessageView::Stdout { line }),
            ),
            CommandEventView::StderrLine { line } => go_on(
                self.forwarding(CommandMonitorMessageView::Stderr { line }),
            ),
            CommandEventView::StdinLine { line } => go_on(
                if self.monitored {
                    CommandActionView::Feed { steps: feeding(line) }
                } else {
                    CommandActionView::Wait
                },
            ),
        }
    }
}

impl CommandContext {
    /// The state of a command that has just been spawned.
    pub fn new(server: Option<CommandMonitorServer>) -> (context: Self)
        ensures
            context.server == server,
            context@ == CommandContextView::start(server is Some),
            context.result.stdout_lines@.len() == 0,
            context.result.stderr_lines@.len() == 0,
            context.result.stdout_lines.limit() == 100,
            context.result.stderr_lines.limit() == 100,
            context.result.exit_code is None,
    {
        let context = CommandContext {
            server,
            result: CommandExitWorking {
                stdout_lines: RingBuffer::new(LINE_LIMIT),
                stderr_lines: RingBuffer::new(LINE_LIMIT),
                exit_code: None,
            },
        };
        assert(texts(context.result.stdout_lines@) =~= Seq::empty());
        assert(texts(context.result.stderr_lines@) =~= Seq::empty());
        context
    }

    /// What the attempt to spawn the process leads to: the child and the state
    /// to run it with, or the error that ends the run before it began.
    pub fn spawned<Child>(
        outcome: Result<Child, String>,
        server: Option<CommandMonitorServer>,
    ) -> (begun: Result<(Child, Self), CommandError>)
        ensures
            match outcome {
                Ok(child) => {
                    &&& begun is Ok
                    &&& begun->Ok_0.0 == child
                    &&& begun->Ok_0.1.server == server
                    &&& begun->Ok_0.1@ == CommandContextView::start(server is Some)
                    &&& begun->Ok_0.1.result.stdout_lines@.len() == 0
                    &&& begun->Ok_0.1.result.stderr_lines@.len() == 0
                    &&& begun->Ok_0.1.result.stdout_lines.limit() == 100
                    &&& begun->Ok_0.1.result.stderr_lines.limit() == 100
                    &&& begun->Ok_0.1.result.exit_code is None
                },
                Err(error) => {
                    &&& begun is Err
                    &&& begun->Err_0@ == (CommandErrorView::BadSpawn { inner_error: error@ })
                    &&& begun->Err_0 matches CommandError::BadSpawn { inner_error }
                    &&& inner_error@ == error@
                },
            },
    {
        match outcome {
            Ok(child) => Ok((child, Self::new(server))),
            Err(inner_error) => Err(CommandError::BadSpawn { inner_error }),
        }
    }

    /// Ends the run as the process ended: whatever its code, an exit is a
    /// result, and only a failure to wait for it is an error.
    pub fn on_exited(&mut self, exit_result: Result<CommandExitCode, String>) -> (flow: ControlFlow<
        Result<CommandExitWorking, CommandError>,
    >)
        ensures
            final(self).server == old(self).server,
            final(self).result.stdout_lines == old(self).result.stdout_lines,
            final(self).result.stderr_lines == old(self).result.stderr_lines,
            match exit_result {
                Ok(code) => {
                    &&& final(self)@ == old(self)@.with_exit(code)
                    &&& final(self).result.exit_code == Some(code)
                    &&& flow matches ControlFlow::Break(Ok(exit))
                    &&& exit@ == final(self)@.result
                    &&& exit.exit_code == Some(code)
                    &&& exit.stdout_lines@ == old(self).result.stdout_lines@
                    &&& exit.stderr_lines@ == old(self).result.stderr_lines@
                },
                Err(error) => {
                    &&& final(self)@ == old(self)@
                    &&& final(self).result.exit_code == old(self).result.exit_code
                    &&& flow matches ControlFlow::Break(Err(failure))
                    &&& failure@ == (CommandErrorView::BadExit { inner_error: error@ })
                    &&& failure matches CommandError::BadExit { inner_error }
                    &&& inner_error@ == error@
                },
            },
    {
        match exit_result {
            Ok(code) => {
                self.result.exit_code = Some(code);
                ControlFlow::Break(Ok(self.result.clone()))
            },
            Err(inner_error) => ControlFlow::Break(Err(CommandError::BadExit { inner_error })),
        }
    }

    /// Gives the run up: the process is to be killed. How the attempt to kill
    /// it goes is the next event, and ends the run.
    pub fn on_cancelled(&mut self) -> (action: CommandAction)
        ensures
            *final(self) == *old(self),
            action@ == CommandActionView::Kill,
            action is Kill,
    {
        CommandAction::Kill
    }

    /// Ends a run that was given up, whatever came of the attempt to kill the
    /// process.
    pub fn on_killed(&mut self, _attempt: Result<(), String>) -> (error: CommandError)
        ensures
            *final(self) == *old(self),
            error@ == CommandErrorView::Cancelled,
            error is Cancelled,
    {
        CommandError::Cancelled
    }

    /// Keeps a line of stdout, and passes it on to the monitor if there is one.
    pub fn on_stdout_line(&mut self, line: String) -> (action: CommandAction)
        ensures
            final(self).server == old(self).server,
            final(self)@ == old(self)@.with_stdout(line@),
            action@ == old(self)@.forwarding(CommandMonitorMessageView::Stdout { line: line@ }),
            final(self).result.exit_code == old(self).result.exit_code,
            final(self).result.stderr_lines == old(self).result.stderr_lines,
            ({
                let before = old(self).result.stdout_lines;
                let after = final(self).result.stdout_lines;
                &&& after.limit() == before.limit()
                &&& after@.len() == if before@.len() < before.limit() {
                    before@.len() + 1
                } else {
                    before.limit()
                }
                &&& forall|i: int|
                    0 <= i < after@.len() ==> #[trigger] after@[i] == before@.push(
                        line,
                    )[before@.len() + 1 - after@.len() + i]
            }),
            old(self).server is None ==> action is Wait,
            old(self).server is Some ==> (action matches CommandAction::Forward {
                message: CommandMonitorMessage::Stdout { line: sent },
            } && sent@ == line@),
    {
        let ghost before = self.result.stdout_lines@;
        self.result.stdout_lines.push(line.clone());
        proof {
            lemma_texts_of_push(before, line, self.result.stdout_lines.limit());
        }
        if self.server.is_some() {
            CommandAction::Forward { message: CommandMonitorMessage::Stdout { line } }
        } else {
            CommandAction::Wait
        }
    }

    /// Keeps a line of stderr, and passes it on to the monitor if there is one.
    pub fn on_stderr_line(&mut self, line: String) -> (action: CommandAction)
        ensures
            final(self).server == old(self).server,
            final(self)@ == old(self)@.with_stderr(line@),
            action@ == old(self)@.forwarding(CommandMonitorMessageView::Stderr { line: line@ }),
            final(self).result.exit_code == old(self).result.exit_code,
            final(self).result.stdout_lines == old(self).result.stdout_lines,
            ({
                let before = old(self).result.stderr_lines;
                let after = final(self).result.stderr_lines;
                &&& after.limit() == before.limit()
                &&& after@.len() == if before@.len() < before.limit() {
                    before@.len() + 1
                } else {
                    before.limit()
                }
                &&& forall|i: int|
                    0 <= i < after@.len() ==> #[trigger] after@[i] == before@.push(
                        line,
                    )[before@.len() + 1 - after@.len() + i]
            }),
            old(self).server is None ==> action is Wait,
            old(self).server is Some ==> (action matches CommandAction::Forward {
                message: CommandMonitorMessage::Stderr { line: sent },
            } && sent@ == line@),
    {
        let ghost before = self.result.stderr_lines@;
        self.result.stderr_lines.push(line.clone());
        proof {
            lemma_texts_of_push(before, line, self.result.stderr_lines.limit());
        }
        if self.server.is_some() {
            CommandAction::Forward { message: CommandMonitorMessage::Stderr { line } }
        } else {
            CommandAction::Wait
        }
    }

    /// Takes in one event, and says what it leads to.
    pub fn tick(&mut self, event: CommandEvent) -> (flow: ControlFlow<
        Result<CommandExit, CommandError>,
        CommandAction,
    >)
        ensures
            final(self).server == old(self).server,
            final(self)@ == old(self)@.next(event@),
            answer_view(flow) == old(self)@.answer(event@),
            event !is Exited ==> final(self).result.exit_code == old(self).result.exit_code,
            event !is StdoutLine ==> final(self).result.stdout_lines == old(self).result.stdout_lines,
            event !is StderrLine ==> final(self).result.stderr_lines == old(self).result.stderr_lines,
            flow is Break <==> event is Exited || event is Killed,
            match event {
                CommandEvent::Exited { outcome: Ok(code) } => {
                    &&& final(self).result.exit_code == Some(code)
                    &&& flow matches ControlFlow::Break(Ok(exit))
                    &&& exit.exit_code == Some(code)
                    &&& exit.stdout_lines@.len() == old(self).result.stdout_lines@.len()
                    &&& exit.stderr_lines@.len() == old(self).result.stderr_lines@.len()
                    &&& forall|i: int|
                        0 <= i < exit.stdout_lines@.len() ==> (#[trigger] exit.stdout_lines@[i])@
                            == old(self).result.stdout_lines@[i]@
                    &&& forall|i: int|
                        0 <= i < exit.stderr_lines@.len() ==> (#[trigger] exit.stderr_lines@[i])@
                            == old(self).result.stderr_lines@[i]@
                },
                CommandEvent::Exited { outcome: Err(error) } => {
                    &&& final(self).result.exit_code == old(self).result.exit_code
                    &&& flow matches ControlFlow::Break(Err(CommandError::BadExit { inner_error }))
                    &&& inner_error@ == error@
                },
                CommandEvent::Cancelled => flow matches ControlFlow::Continue(CommandAction::Kill),
                CommandEvent::Killed { .. } => flow matches ControlFlow::Break(
                    Err(CommandError::Cancelled),
                ),
                CommandEvent::StdoutLine { line } => if old(self).server is Some {
                    &&& flow matches ControlFlow::Continue(CommandAction::Forward { message })
                    &&& message matches CommandMonitorMessage::Stdout { line: sent }
                    &&& sent@ == line@
                } else {
                    flow matches ControlFlow::Continue(CommandAction::Wait)
                },
                CommandEvent::StderrLine { line } => if old(self).server is Some {
                    &&& flow matches ControlFlow::Continue(CommandAction::Forward { message })
                    &&& message matches CommandMonitorMessage::Stderr { line: sent }
                    &&& sent@ == line@
                } else {
                    flow matches ControlFlow::Continue(CommandAction::Wait)
                },
                CommandEvent::StdinLine { line } => if old(self).server is Some {
                    &&& flow matches ControlFlow::Continue(CommandAction::Feed { steps })
                    &&& steps@.len() == 3
                    &&& steps@[0] matches StdinStep::Write { bytes: text }
                    &&& text@ == encode_utf8(trimmed(line@))
                    &&& steps@[1] matches StdinStep::Write { bytes: newline }
                    &&& newline@ == seq![0x0au8]
                    &&& steps@[2] is Flush
                } else {
                    flow matches ControlFlow::Continue(CommandAction::Wait)
                },
            },
            event matches CommandEvent::StdoutLine { line } ==> {
                let before = old(self).result.stdout_lines;
                let after = final(self).result.stdout_lines;
                &&& after.limit() == before.limit()
                &&& after@.len() == if before@.len() < before.limit() {
                    before@.len() + 1
                } else {
                    before.limit()
                }
                &&& forall|i: int|
                    0 <= i < after@.len() ==> #[trigger] after@[i] == before@.push(
                        line,
                    )[before@.len() + 1 - after@.len() + i]
            },
            event matches CommandEvent::StderrLine { line } ==> {
                let before = old(self).result.stderr_lines;
                let after = final(self).result.stderr_lines;
                &&& after.limit() == before.limit()
                &&& after@.len() == if before@.len() < before.limit() {
                    before@.len() + 1
                } else {
                    before.limit()
                }
                &&& forall|i: int|
                    0 <= i < after@.len() ==> #[trigger] after@[i] == before@.push(
                        line,
                    )[before@.len() + 1 - after@.len() + i]
            },
    {
        match event {
            CommandEvent::Exited { outcome } => match self.on_exited(outcome) {
                ControlFlow::Break(Ok(exit)) => ControlFlow::Break(Ok(CommandExit::from(exit))),
                ControlFlow::Break(Err(error)) => ControlFlow::Break(Err(error)),
                ControlFlow::Continue(()) => ControlFlow::Continue(CommandAction::Wait),
            },
            CommandEvent::Cancelled => ControlFlow::Continue(self.on_cancelled()),
            CommandEvent::Killed { attempt } => ControlFlow::Break(Err(self.on_killed(attempt))),
            CommandEvent::StdoutLine { line } => ControlFlow::Continue(self.on_stdout_line(line)),
            CommandEvent::StderrLine { line } => ControlFlow::Continue(self.on_stderr_line(line)),
            CommandEvent::StdinLine { line } => {
                if self.server.is_some() {
                    ControlFlow::Continue(CommandAction::Feed { steps: stdin_steps(line.as_str()) })
                } else {
                    ControlFlow::Continue(CommandAction::Wait)
                }
            },
        }
    }
}

/// Keeping the last lines and taking the texts of lines can change places.
proof fn lemma_texts_of_push(lines: Seq<String>, line: String, limit: nat)
    ensures
        texts(last_n(lines.push(line), limit)) == last_n(texts(lines).push(line@), limit),
{
    assert(texts(lines.push(line)) =~= texts(lines).push(line@));
    assert(texts(last_n(lines.push(line), limit)) =~= last_n(texts(lines.push(line)), limit));
}

/// What is read off an event is its kind and all that it brings.
pub proof fn law_event_is_read_whole(event: CommandEvent)
    ensures
        event is Cancelled <==> event@ is Cancelled,
        event matches CommandEvent::Exited { outcome: Ok(code) } ==> event@ == (
            CommandEventView::Exited { outcome: Ok(code) }),
        event matches CommandEvent::Exited { outcome: Err(error) } ==> event@ == (
            CommandEventView::Exited { outcome: Err(error@) }),
        event matches CommandEvent::Killed { attempt: Ok(()) } ==> event@ == (
            CommandEventView::Killed { attempt: Ok(()) }),
        event matches CommandEvent::Killed { attempt: Err(error) } ==> event@ == (
            CommandEventView::Killed { attempt: Err(error@) }),
        event matches CommandEvent::StdoutLine { line } ==> event@ == (
            CommandEventView::StdoutLine { line: line@ }),
        event matches CommandEvent::StderrLine { line } ==> event@ == (
            CommandEventView::StderrLine { line: line@ }),
        event matches CommandEvent::StdinLine { line } ==> event@ == (
            CommandEventView::StdinLine { line: line@ }),
{
}

/// What is read off an action is its kind and all that it asks for.
pub proof fn law_action_is_read_whole(action: CommandAction)
    ensures
        action is Wait <==> action@ is Wait,
        action is Kill <==> action@ is Kill,
        action matches CommandAction::Forward {
            message: CommandMonitorMessage::Stdout { line },
        } ==> action@ == (CommandActionView::Forward {
            message: CommandMonitorMessageView::Stdout { line: line@ },
        }),
        action matches CommandAction::Forward {
            message: CommandMonitorMessage::Stderr { line },
        } ==> action@ == (CommandActionView::Forward {
            message: CommandMonitorMessageView::Stderr { line: line@ },
        }),
        action matches CommandAction::Feed { steps } ==> {
            &&& action@ matches CommandActionView::Feed { steps: taken }
            &&& taken.len() == steps@.len()
            &&& forall|i: int| 0 <= i < taken.len() ==> #[trigger] taken[i] == steps@[i]@
        },
{
}

/// What is read off an answer is whether the run goes on, and with what.
pub proof fn law_answer_is_read_whole(
    flow: ControlFlow<Result<CommandExit, CommandError>, CommandAction>,
)
    ensures
        flow matches ControlFlow::Continue(action) ==> (answer_view(
            flow,
        ) matches ControlFlow::Continue(read) && read == action@),
        flow matches ControlFlow::Break(Ok(exit)) ==> (answer_view(
            flow,
        ) matches ControlFlow::Break(Ok(read)) && read == exit@),
        flow matches ControlFlow::Break(Err(error)) ==> (answer_view(
            flow,
        ) matches ControlFlow::Break(Err(read)) && read == error@),
{
}

/// What is read off a context is whether the command is watched, and its exit so
/// far.
pub proof fn law_context_is_read_whole(context: CommandContext)
    ensures
        context@.monitored <==> context.server is Some,
        context@.result == context.result@,
{
}

/// A command starts with nothing kept, no exit, and room for a hundred lines of
/// each stream, whether it is watched or not.
pub proof fn law_a_command_starts_with_nothing(monitored: bool)
    ensures
        CommandContextView::start(monitored).monitored == monitored,
        CommandContextView::start(monitored).result.stdout.lines.len() == 0,
        CommandContextView::start(monitored).result.stderr.lines.len() == 0,
        CommandContextView::start(monitored).result.stdout.limit == 100,
        CommandContextView::start(monitored).result.stderr.limit == 100,
        CommandContextView::start(monitored).result.exit_code is None,
{
}

/// A process is killed on a cancellation and on nothing else, whatever came
/// before: least of all on a line.
pub proof fn law_only_a_cancellation_kills(state: CommandContextView, event: CommandEventView)
    ensures
        state.answer(event) matches ControlFlow::Continue(CommandActionView::Kill)
            <==> event is Cancelled,
{
}

/// A command that is not watched just goes on after a line, in every state and
/// whatever the line.
pub proof fn law_lines_of_unwatched_commands_are_only_kept(
    state: CommandContextView,
    line: Seq<char>,
)
    requires
        !state.monitored,
    ensures
        state.answer(CommandEventView::StdoutLine { line }) matches ControlFlow::Continue(
            CommandActionView::Wait,
        ),
        state.answer(CommandEventView::StderrLine { line }) matches ControlFlow::Continue(
            CommandActionView::Wait,
        ),
        state.answer(CommandEventView::StdinLine { line }) matches ControlFlow::Continue(
            CommandActionView::Wait,
        ),
{
}

/// Every line that a watched command writes goes to its monitor, in every state
/// and whatever the line: the line itself, as that of the stream it was written
/// to.
pub proof fn law_lines_of_watched_commands_go_to_the_monitor(
    state: CommandContextView,
    line: Seq<char>,
)
    requires
        state.monitored,
    ensures
        state.answer(CommandEventView::StdoutLine { line }) matches ControlFlow::Continue(action)
            && action == (CommandActionView::Forward {
            message: CommandMonitorMessageView::Stdout { line },
        }),
        state.answer(CommandEventView::StderrLine { line }) matches ControlFlow::Continue(action)
            && action == (CommandActionView::Forward {
            message: CommandMonitorMessageView::Stderr { line },
        }),
{
}

/// Every line meant for the stdin of a watched command is fed to it, in every
/// state and whatever the line: its text, a newline, and a flush at the end.
pub proof fn law_lines_for_watched_commands_are_fed(state: CommandContextView, line: Seq<char>)
    requires
        state.monitored,
    ensures
        state.answer(CommandEventView::StdinLine { line }) matches ControlFlow::Continue(action)
            && action matches CommandActionView::Feed { steps } && {
            &&& steps.len() == 3
            &&& steps[0] matches StdinStepView::Write { bytes: text }
            &&& text == encode_utf8(trimmed(line))
            &&& steps[1] matches StdinStepView::Write { bytes: newline }
            &&& newline == seq![0x0au8]
            &&& steps[2] is Flush
        },
{
}

/// Whatever the code of an exit, and whatever came before, the run gives that
/// code and each line that was kept, of the stream it was kept of.
pub proof fn law_an_exit_gives_what_was_kept(state: CommandContextView, code: CommandExitCode)
    ensures
        state.answer(CommandEventView::Exited { outcome: Ok(code) }) matches ControlFlow::Break(
            Ok(exit),
        ) && exit == (CommandExitView {
            stdout_lines: state.result.stdout.lines,
            stderr_lines: state.result.stderr.lines,
            exit_code: Some(code),
        }),
{
}

/// A run fails by the error of the wait, where that failed, and as cancelled
/// once the process was dealt with, whatever came before.
pub proof fn law_how_a_run_fails(
    state: CommandContextView,
    error: Seq<char>,
    attempt: Result<(), Seq<char>>,
)
    ensures
        state.answer(CommandEventView::Exited { outcome: Err(error) }) matches ControlFlow::Break(
            Err(failure),
        ) && failure == (CommandErrorView::BadExit { inner_error: error }),
        state.answer(CommandEventView::Killed { attempt }) matches ControlFlow::Break(
            Err(CommandErrorView::Cancelled),
        ),
{
}

/// What was kept has no say in what is done next: only in what an exit gives.
pub proof fn law_answers_do_not_depend_on_what_was_kept(
    one: CommandContextView,
    other: CommandContextView,
    event: CommandEventView,
)
    requires
        one.monitored == other.monitored,
        !(event matches CommandEventView::Exited { outcome: Ok(_) }),
    ensures
        one.answer(event) == other.answer(event),
{
}

/// A line is kept of its own stream, as the latest, and at the cost of one older
/// line at most. It changes neither the other stream nor anything else.
pub proof fn law_a_line_is_kept_of_its_stream(state: CommandContextView, line: Seq<char>)
    requires
        state.result.stdout.lines.len() <= state.result.stdout.limit,
        state.result.stderr.lines.len() <= state.result.stderr.limit,
    ensures
        ({
            let before = state.result.stdout;
            let next = state.next(CommandEventView::StdoutLine { line });
            let after = next.result.stdout;
            &&& next.monitored == state.monitored
            &&& next.result.stderr == state.result.stderr
            &&& next.result.exit_code == state.result.exit_code
            &&& after.limit == before.limit
            &&& after.lines.len() == if before.lines.len() < before.limit {
                before.lines.len() + 1
            } else {
                before.limit
            }
            &&& after.lines.len() > 0 ==> after.lines.last() == line
            &&& forall|i: int|
                0 <= i < after.lines.len() - 1 ==> #[trigger] after.lines[i]
                    == before.lines[before.lines.len() + 1 - after.lines.len() + i]
        }),
        ({
            let before = state.result.stderr;
            let next = state.next(CommandEventView::StderrLine { line });
            let after = next.result.stderr;
            &&& next.monitored == state.monitored
            &&& next.result.stdout == state.result.stdout
            &&& next.result.exit_code == state.result.exit_code
            &&& after.limit == before.limit
            &&& after.lines.len() == if before.lines.len() < before.limit {
                before.lines.len() + 1
            } else {
                before.limit
            }
            &&& after.lines.len() > 0 ==> after.lines.last() == line
            &&& forall|i: int|
                0 <= i < after.lines.len() - 1 ==> #[trigger] after.lines[i]
                    == before.lines[before.lines.len() + 1 - after.lines.len() + i]
        }),
{
}

/// What is not a line that the process wrote changes at most the exit code, and
/// that only where the process exited.
pub proof fn law_other_events_keep_the_lines(state: CommandContextView, event: CommandEventView)
    requires
        event !is StdoutLine,
        event !is StderrLine,
    ensures
        state.next(event).monitored == state.monitored,
        state.next(event).result.stdout == state.result.stdout,
        state.next(event).result.stderr == state.result.stderr,
        state.next(event).result.exit_code == match event {
            CommandEventView::Exited { outcome: Ok(code) } => Some(code),
            _ => state.result.exit_code,
        },
{
}

} // verus!
