//! What is left of a command once its process has exited.
use crate::ring::last_n;
use crate::ring::law_one_item_costs_at_most_one;
use crate::ring::RingBuffer;
use vstd::prelude::*;
use vstd::std_specs::convert::FromSpecImpl;

verus! {

/// How a process exited: the code that it exited with, or none where a signal
/// ended it.
#[derive(Debug, Clone, Copy, PartialEq, Eq, Structural)]
pub struct CommandExitCode {
    pub code: Option<i32>,
}

impl CommandExitCode {
    /// Whether the process reported success, which is to exit with zero.
    pub fn success(&self) -> (success: bool)
        ensures
            success == (self.code == Some(0i32)),
    {
        match self.code {
            Some(code) => code == 0,
            None => false,
        }
    }
}

/// The texts of a sequence of lines.
pub open spec fn texts(lines: Seq<String>) -> Seq<Seq<char>> {
    lines.map_values(|line: String| line@)
}

/// The latest lines of a stream, of which no more than `limit` are kept.
pub struct Capture {
    pub limit: nat,
    pub lines: Seq<Seq<char>>,
}

impl Capture {
    /// The capture after one more line.
    pub open spec fn push(self, line: Seq<char>) -> Self {
        Capture { limit: self.limit, lines: last_n(self.lines.push(line), self.limit) }
    }
}

/// What `buffer` has captured.
pub open spec fn captured(buffer: RingBuffer<String>) -> Capture {
    Capture { limit: buffer.limit(), lines: texts(buffer@) }
}

/// The exit of a command while its process may still run.
pub struct CommandExitWorking {
    pub stdout_lines: RingBuffer<String>,
    pub stderr_lines: RingBuffer<String>,
    pub exit_code: Option<CommandExitCode>,
}

/// What a [`CommandExitWorking`] holds.
pub struct CommandExitWorkingView {
    pub stdout: Capture,
    pub stderr: Capture,
    pub exit_code: Option<CommandExitCode>,
}

impl View for CommandExitWorking {
    type V = CommandExitWorkingView;

    open spec fn view(&self) -> CommandExitWorkingView {
        CommandExitWorkingView {
            stdout: captured(self.stdout_lines),
            stderr: captured(self.stderr_lines),
            exit_code: self.exit_code,
        }
    }
}

impl CommandExitWorkingView {
    /// The exit as it is reported.
    pub open spec fn finished(self) -> CommandExitView {
        CommandExitView {
            stdout_lines: self.stdout.lines,
            stderr_lines: self.stderr.lines,
            exit_code: self.exit_code,
        }
    }
}

impl Clone for CommandExitWorking {
    fn clone(&self) -> (copy: Self)
        ensures
            copy@ == self@,
            copy.exit_code == self.exit_code,
            copy.stdout_lines@ == self.stdout_lines@,
            copy.stderr_lines@ == self.stderr_lines@,
            copy.stdout_lines.limit() == self.stdout_lines.limit(),
            copy.stderr_lines.limit() == self.stderr_lines.limit(),
    {
        let copy = CommandExitWorking {
            stdout_lines: self.stdout_lines.clone(),
            stderr_lines: self.stderr_lines.clone(),
            exit_code: self.exit_code,
        };
        assert(copy.stdout_lines@ =~= self.stdout_lines@);
        assert(copy.stderr_lines@ =~= self.stderr_lines@);
        copy
    }
}

/// The exit of a command: the lines it wrote last, and how it exited.
#[derive(Debug)]
pub struct CommandExit {
    pub stdout_lines: Vec<String>,
    pub stderr_lines: Vec<String>,
    pub exit_code: Option<CommandExitCode>,
}

/// What a [`CommandExit`] tells.
pub struct CommandExitView {
    pub stdout_lines: Seq<Seq<char>>,
    pub stderr_lines: Seq<Seq<char>>,
    pub exit_code: Option<CommandExitCode>,
}

impl View for CommandExit {
    type V = CommandExitView;

    open spec fn view(&self) -> CommandExitView {
        CommandExitView {
            stdout_lines: texts(self.stdout_lines@),
            stderr_lines: texts(self.stderr_lines@),
            exit_code: self.exit_code,
        }
    }
}

impl Clone for CommandExit {
    fn clone(&self) -> (copy: Self)
        ensures
            copy@ == self@,
            copy.exit_code == self.exit_code,
            copy.stdout_lines@ == self.stdout_lines@,
            copy.stderr_lines@ == self.stderr_lines@,
    {
        let copy = CommandExit {
            stdout_lines: self.stdout_lines.clone(),
            stderr_lines: self.stderr_lines.clone(),
            exit_code: self.exit_code,
        };
        assert(copy.stdout_lines@ =~= self.stdout_lines@);
        assert(copy.stderr_lines@ =~= self.stderr_lines@);
        copy
    }
}

impl From<CommandExitWorking> for CommandExit {
    fn from(value: CommandExitWorking) -> (exit: Self)
        ensures
            exit@ == value@.finished(),
            exit.exit_code == value.exit_code,
            exit.stdout_lines@.len() == value.stdout_lines@.len(),
            exit.stderr_lines@.len() == value.stderr_lines@.len(),
            forall|i: int|
                0 <= i < exit.stdout_lines@.len() ==> (#[trigger] exit.stdout_lines@[i])@
                    == value.stdout_lines@[i]@,
            forall|i: int|
                0 <= i < exit.stderr_lines@.len() ==> (#[trigger] exit.stderr_lines@[i])@
                    == value.stderr_lines@[i]@,
    {
        let exit = CommandExit {
            stdout_lines: value.stdout_lines.to_vec(),
            stderr_lines: value.stderr_lines.to_vec(),
            exit_code: value.exit_code,
        };
        assert(texts(exit.stdout_lines@) =~= texts(value.stdout_lines@));
        assert(texts(exit.stderr_lines@) =~= texts(value.stderr_lines@));
        exit
    }
}

/// What the conversion gives is stated of the views alone, by `from` itself.
impl FromSpecImpl<CommandExitWorking> for CommandExit {
    open spec fn obeys_from_spec() -> bool {
        false
    }

    open spec fn from_spec(value: CommandExitWorking) -> CommandExit {
        arbitrary()
    }
}

/// The texts of lines are as many as the lines, and each is its line's.
pub proof fn law_texts_of_lines(lines: Seq<String>)
    ensures
        texts(lines).len() == lines.len(),
        forall|i: int| 0 <= i < lines.len() ==> #[trigger] texts(lines)[i] == lines[i]@,
{
}

/// What is read off a working exit is what its fields hold: every line of each
/// buffer, in order, the limits of the two, and the exit code.
pub proof fn law_working_exit_is_read_whole(working: CommandExitWorking)
    ensures
        working@.exit_code == working.exit_code,
        working@.stdout.limit == working.stdout_lines.limit(),
        working@.stderr.limit == working.stderr_lines.limit(),
        working@.stdout.lines.len() == working.stdout_lines@.len(),
        working@.stderr.lines.len() == working.stderr_lines@.len(),
        forall|i: int|
            0 <= i < working.stdout_lines@.len() ==> #[trigger] working@.stdout.lines[i]
                == working.stdout_lines@[i]@,
        forall|i: int|
            0 <= i < working.stderr_lines@.len() ==> #[trigger] working@.stderr.lines[i]
                == working.stderr_lines@[i]@,
{
}

/// What is read off an exit is what its fields hold: every line, in order, and
/// the exit code.
pub proof fn law_exit_is_read_whole(exit: CommandExit)
    ensures
        exit@.exit_code == exit.exit_code,
        exit@.stdout_lines.len() == exit.stdout_lines@.len(),
        exit@.stderr_lines.len() == exit.stderr_lines@.len(),
        forall|i: int|
            0 <= i < exit.stdout_lines@.len() ==> #[trigger] exit@.stdout_lines[i]
                == exit.stdout_lines@[i]@,
        forall|i: int|
            0 <= i < exit.stderr_lines@.len() ==> #[trigger] exit@.stderr_lines[i]
                == exit.stderr_lines@[i]@,
{
}

/// To finish an exit neither adds a line nor loses one, mixes up no streams, and
/// keeps the exit code.
pub proof fn law_finishing_loses_nothing(working: CommandExitWorkingView)
    ensures
        working.finished().stdout_lines == working.stdout.lines,
        working.finished().stderr_lines == working.stderr.lines,
        working.finished().exit_code == working.exit_code,
{
}

/// A captured line is the last one kept, unless none can be kept. Of the lines
/// before it all stay while there is room, and all but the oldest otherwise.
pub proof fn law_capture_keeps_the_latest(capture: Capture, line: Seq<char>)
    requires
        capture.lines.len() <= capture.limit,
    ensures
        capture.push(line).limit == capture.limit,
        capture.limit == 0 ==> capture.push(line).lines.len() == 0,
        capture.lines.len() < capture.limit ==> capture.push(line).lines == capture.lines.push(
            line,
        ),
        0 < capture.lines.len() == capture.limit ==> capture.push(line).lines
            == capture.lines.skip(1).push(line),
{
    law_one_item_costs_at_most_one(capture.lines, line, capture.limit);
}

} // verus!
