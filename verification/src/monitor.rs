//! The channels through which a running command is watched and fed.
//!
//! A monitor has two ends. The server end goes with the command: lines that
//! the command writes go out on it, and lines meant for the command's stdin
//! come in. The client end is held by whoever watches the command.
use std::sync::Arc;
use tokio::sync::mpsc::Receiver;
use tokio::sync::mpsc::Sender;
use tokio::sync::Mutex;
use vstd::prelude::*;
use vstd::slice::slice_to_vec;

verus! {

/// The sending half of a bounded channel of tokio.
#[verifier::external_type_specification]
#[verifier::external_body]
#[verifier::reject_recursive_types(T)]
pub struct ExSender<T>(tokio::sync::mpsc::Sender<T>);

/// The receiving half of a bounded channel of tokio.
#[verifier::external_type_specification]
#[verifier::external_body]
#[verifier::reject_recursive_types(T)]
pub struct ExReceiver<T>(tokio::sync::mpsc::Receiver<T>);

/// The asynchronous lock of tokio.
#[verifier::external_type_specification]
#[verifier::external_body]
#[verifier::reject_recursive_types(T)]
pub struct ExMutex<T: ?Sized>(tokio::sync::Mutex<T>);

/// How many lines the channel that `tx` sends into was made to buffer.
pub uninterp spec fn buffer_limit(tx: Sender<String>) -> nat;

/// The receiving half of the channel that `tx` sends into. There is just one.
pub uninterp spec fn receiver_of(tx: Sender<String>) -> Receiver<String>;

/// The lines in the channel of `rx` when it was made.
pub uninterp spec fn first_lines(rx: Receiver<String>) -> Seq<Seq<char>>;

/// The receiver that `lock` was made to guard.
pub uninterp spec fn guarded(lock: Mutex<Receiver<String>>) -> Receiver<String>;

/// Whether `tx` and `rx` are the halves of one channel that was made empty and
/// buffers up to `capacity` lines.
pub open spec fn joined(tx: Sender<String>, rx: Receiver<String>, capacity: nat) -> bool {
    &&& receiver_of(tx) == rx
    &&& buffer_limit(tx) == capacity
    &&& first_lines(rx) == Seq::<Seq<char>>::empty()
}

/// The numbers of lines for which a channel can be made: at least one, and no
/// more than the permits that a semaphore of tokio can count.
pub open spec fn valid_capacity(capacity: usize) -> bool {
    0 < capacity <= usize::MAX / 8
}

/// Calls `tokio::sync::mpsc::channel`. The two halves belong to one channel,
/// which is made empty and buffers up to `capacity` lines. The channel is a new
/// one: none of the senders that are in use beside it sends into it. The call
/// panics on the capacities that are left out: zero, and more than
/// `Semaphore::MAX_PERMITS`. Which lines are in the channel later on is left
/// unsaid, for the halves are used side by side.
#[verifier::external_body]
fn channel(capacity: usize, _beside: &[&Sender<String>]) -> (halves: (
    Sender<String>,
    Receiver<String>,
))
    requires
        valid_capacity(capacity),
    ensures
        receiver_of(halves.0) == halves.1,
        buffer_limit(halves.0) == capacity,
        first_lines(halves.1) == Seq::<Seq<char>>::empty(),
        forall|i: int| 0 <= i < _beside@.len() ==> receiver_of(*#[trigger] _beside@[i]) != halves.1,
{
    tokio::sync::mpsc::channel(capacity)
}

/// Calls `tokio::sync::Mutex::new`. The lock guards the receiver given. When
/// it is held is left unsaid.
#[verifier::external_body]
fn lock(rx: Receiver<String>) -> (guard: Mutex<Receiver<String>>)
    ensures
        guarded(guard) == rx,
{
    Mutex::new(rx)
}

/// One of the two streams that a command writes.
#[derive(Debug, Clone, Copy, PartialEq, Eq, Structural)]
pub enum CommandStream {
    Stdout,
    Stderr,
}

/// A line that a watched command wrote.
#[derive(Debug)]
pub enum CommandMonitorMessage {
    Stdout { line: String },
    Stderr { line: String },
}

/// What a [`CommandMonitorMessage`] says.
pub enum CommandMonitorMessageView {
    Stdout { line: Seq<char> },
    Stderr { line: Seq<char> },
}

impl View for CommandMonitorMessage {
    type V = CommandMonitorMessageView;

    open spec fn view(&self) -> CommandMonitorMessageView {
        match self {
            CommandMonitorMessage::Stdout { line } => CommandMonitorMessageView::Stdout {
                line: line@,
            },
            CommandMonitorMessage::Stderr { line } => CommandMonitorMessageView::Stderr {
                line: line@,
            },
        }
    }
}

impl CommandMonitorMessageView {
    /// The message that `stream` carried `line`.
    pub open spec fn of(stream: CommandStream, line: Seq<char>) -> Self {
        match stream {
            CommandStream::Stdout => CommandMonitorMessageView::Stdout { line },
            CommandStream::Stderr => CommandMonitorMessageView::Stderr { line },
        }
    }

    /// The stream that the line was written to.
    pub open spec fn stream(self) -> CommandStream {
        match self {
            CommandMonitorMessageView::Stdout { .. } => CommandStream::Stdout,
            CommandMonitorMessageView::Stderr { .. } => CommandStream::Stderr,
        }
    }

    /// The line itself.
    pub open spec fn line(self) -> Seq<char> {
        match self {
            CommandMonitorMessageView::Stdout { line } => line,
            CommandMonitorMessageView::Stderr { line } => line,
        }
    }
}

/// The end of a monitor that goes with the command.
#[derive(Debug)]
pub struct CommandMonitorServer {
    pub stdout_tx: Arc<Sender<String>>,
    pub stderr_tx: Arc<Sender<String>>,
    pub stdin_rx: Arc<Mutex<Receiver<String>>>,
}

/// A clone of the server end shares all of its channels.
impl Clone for CommandMonitorServer {
    fn clone(&self) -> (copy: Self)
        ensures
            copy == *self,
    {
        CommandMonitorServer {
            stdout_tx: self.stdout_tx.clone(),
            stderr_tx: self.stderr_tx.clone(),
            stdin_rx: self.stdin_rx.clone(),
        }
    }
}

impl CommandMonitorServer {
    /// The channel on which lines of `stream` go out.
    pub open spec fn outlet(self, stream: CommandStream) -> Sender<String> {
        match stream {
            CommandStream::Stdout => *self.stdout_tx,
            CommandStream::Stderr => *self.stderr_tx,
        }
    }

    fn new(
        stdout_tx: Sender<String>,
        stderr_tx: Sender<String>,
        stdin_rx: Receiver<String>,
    ) -> (server: Self)
        ensures
            server.outlet(CommandStream::Stdout) == stdout_tx,
            server.outlet(CommandStream::Stderr) == stderr_tx,
            guarded(*server.stdin_rx) == stdin_rx,
    {
        Self {
            stdout_tx: Arc::new(stdout_tx),
            stderr_tx: Arc::new(stderr_tx),
            stdin_rx: Arc::new(lock(stdin_rx)),
        }
    }

    /// Where a message goes out, and the line to send there.
    pub fn route(&self, message: CommandMonitorMessage) -> (sending: (&Arc<Sender<String>>, String))
        ensures
            **sending.0 == self.outlet(message@.stream()),
            sending.1@ == message@.line(),
            match message {
                CommandMonitorMessage::Stdout { line } => {
                    **sending.0 == *self.stdout_tx && sending.1@ == line@
                },
                CommandMonitorMessage::Stderr { line } => {
                    **sending.0 == *self.stderr_tx && sending.1@ == line@
                },
            },
    {
        match message {
            CommandMonitorMessage::Stdout { line } => (&self.stdout_tx, line),
            CommandMonitorMessage::Stderr { line } => (&self.stderr_tx, line),
        }
    }
}

/// The end of a monitor that is held by whoever watches the command.
#[derive(Debug)]
pub struct CommandMonitorClient {
    pub stdout_rx: Arc<Mutex<Receiver<String>>>,
    pub stderr_rx: Arc<Mutex<Receiver<String>>>,
    pub stdin_tx: Arc<Sender<String>>,
}

/// A clone of the client end shares all of its channels.
impl Clone for CommandMonitorClient {
    fn clone(&self) -> (copy: Self)
        ensures
            copy == *self,
    {
        CommandMonitorClient {
            stdout_rx: self.stdout_rx.clone(),
            stderr_rx: self.stderr_rx.clone(),
            stdin_tx: self.stdin_tx.clone(),
        }
    }
}

impl CommandMonitorClient {
    /// The channel on which lines of `stream` come in.
    pub open spec fn inlet(self, stream: CommandStream) -> Receiver<String> {
        match stream {
            CommandStream::Stdout => guarded(*self.stdout_rx),
            CommandStream::Stderr => guarded(*self.stderr_rx),
        }
    }

    fn new(
        stdout_rx: Receiver<String>,
        stderr_rx: Receiver<String>,
        stdin_tx: Sender<String>,
    ) -> (client: Self)
        ensures
            client.inlet(CommandStream::Stdout) == stdout_rx,
            client.inlet(CommandStream::Stderr) == stderr_rx,
            *client.stdin_tx == stdin_tx,
    {
        Self {
            stdout_rx: Arc::new(lock(stdout_rx)),
            stderr_rx: Arc::new(lock(stderr_rx)),
            stdin_tx: Arc::new(stdin_tx),
        }
    }

    /// What the client reports of a delivery on the channel of `stream`: the
    /// line as that stream's, or nothing where the channel has closed.
    pub fn delivered(
        stream: CommandStream,
        delivery: Option<String>,
    ) -> (message: Option<CommandMonitorMessage>)
        ensures
            match delivery {
                Some(line) => message is Some && message->0@ == CommandMonitorMessageView::of(
                    stream,
                    line@,
                ),
                None => message is None,
            },
            match (stream, delivery) {
                (CommandStream::Stdout, Some(line)) => message == Some(
                    CommandMonitorMessage::Stdout { line },
                ),
                (CommandStream::Stderr, Some(line)) => message == Some(
                    CommandMonitorMessage::Stderr { line },
                ),
                (_, None) => message is None,
            },
    {
        match delivery {
            Some(line) => match stream {
                CommandStream::Stdout => Some(CommandMonitorMessage::Stdout { line }),
                CommandStream::Stderr => Some(CommandMonitorMessage::Stderr { line }),
            },
            None => None,
        }
    }
}

/// The two ends of a monitor.
pub struct CommandMonitor {
    pub server: CommandMonitorServer,
    pub client: CommandMonitorClient,
}

impl CommandMonitor {
    /// Whether the two ends belong together. What goes out at one end on a
    /// stream comes in at the other on the same stream and nowhere else, each
    /// of the three channels was made empty and buffers up to `capacity` lines
    /// on its own, and no two of them are the same channel.
    pub open spec fn wired(self, capacity: nat) -> bool {
        let (stdout, stderr) = (CommandStream::Stdout, CommandStream::Stderr);
        let stdin_rx = guarded(*self.server.stdin_rx);
        &&& joined(self.server.outlet(stdout), self.client.inlet(stdout), capacity)
        &&& joined(self.server.outlet(stderr), self.client.inlet(stderr), capacity)
        &&& joined(*self.client.stdin_tx, stdin_rx, capacity)
        &&& self.client.inlet(stdout) != self.client.inlet(stderr)
        &&& self.client.inlet(stdout) != stdin_rx
        &&& self.client.inlet(stderr) != stdin_rx
    }

    /// Whether the channel that `tx` sends into is none of the monitor's own.
    pub open spec fn apart_from_sender(self, tx: Sender<String>) -> bool {
        &&& receiver_of(tx) != receiver_of(*self.server.stdout_tx)
        &&& receiver_of(tx) != receiver_of(*self.server.stderr_tx)
        &&& receiver_of(tx) != receiver_of(*self.client.stdin_tx)
    }

    /// Whether no channel of the monitor is a channel of `other`.
    pub open spec fn apart_from(self, other: CommandMonitor) -> bool {
        &&& self.apart_from_sender(*other.server.stdout_tx)
        &&& self.apart_from_sender(*other.server.stderr_tx)
        &&& self.apart_from_sender(*other.client.stdin_tx)
    }

    /// A monitor whose channels each buffer up to `capacity` lines. Its channels
    /// are new ones: none of the senders that are in use beside it feeds them.
    fn made_beside(capacity: usize, beside: &[&Sender<String>]) -> (monitor: Self)
        requires
            valid_capacity(capacity),
        ensures
            monitor.wired(capacity as nat),
            forall|i: int|
                0 <= i < beside@.len() ==> monitor.apart_from_sender(*#[trigger] beside@[i]),
    {
        let mut in_use: Vec<&Sender<String>> = slice_to_vec(beside);
        let (stdout_tx, stdout_rx) = channel(capacity, in_use.as_slice());
        in_use.push(&stdout_tx);
        let ghost with_stdout = in_use@;
        let (stderr_tx, stderr_rx) = channel(capacity, in_use.as_slice());
        in_use.push(&stderr_tx);
        let ghost with_stderr = in_use@;
        let (stdin_tx, stdin_rx) = channel(capacity, in_use.as_slice());
        proof {
            let n = beside@.len() as int;
            assert(*with_stdout[n] == stdout_tx);
            assert(*with_stderr[n] == stdout_tx);
            assert(*with_stderr[n + 1] == stderr_tx);
            assert forall|i: int| 0 <= i < n implies {
                let receiver = receiver_of(*#[trigger] beside@[i]);
                receiver != stdout_rx && receiver != stderr_rx && receiver != stdin_rx
            } by {
                assert(with_stdout[i] == beside@[i]);
                assert(with_stderr[i] == beside@[i]);
            }
        }

        let server = CommandMonitorServer::new(stdout_tx, stderr_tx, stdin_rx);
        let client = CommandMonitorClient::new(stdout_rx, stderr_rx, stdin_tx);

        Self { server, client }
    }

    /// A monitor whose channels each buffer up to `capacity` lines.
    #[must_use]
    pub fn with_capacity(capacity: usize) -> (monitor: Self)
        requires
            valid_capacity(capacity),
        ensures
            monitor.wired(capacity as nat),
    {
        Self::made_beside(capacity, &[])
    }

    /// A monitor like that of `with_capacity`, made while `other` is in use. The
    /// two share no channel.
    #[must_use]
    pub fn with_capacity_beside(capacity: usize, other: &CommandMonitor) -> (monitor: Self)
        requires
            valid_capacity(capacity),
        ensures
            monitor.wired(capacity as nat),
            monitor.apart_from(*other),
    {
        let stdout_tx: &Sender<String> = &other.server.stdout_tx;
        let stderr_tx: &Sender<String> = &other.server.stderr_tx;
        let stdin_tx: &Sender<String> = &other.client.stdin_tx;
        let beside = [stdout_tx, stderr_tx, stdin_tx];
        let monitor = Self::made_beside(capacity, &beside);
        assert(*beside@[0] == *other.server.stdout_tx);
        assert(*beside@[1] == *other.server.stderr_tx);
        assert(*beside@[2] == *other.client.stdin_tx);
        monitor
    }

    /// A monitor whose channels each buffer up to a hundred lines.
    #[must_use]
    pub fn new() -> (monitor: Self)
        ensures
            monitor.wired(100),
    {
        Self::with_capacity(100)
    }
}

impl Default for CommandMonitor {
    fn default() -> (monitor: Self)
        ensures
            monitor.wired(100),
    {
        Self::new()
    }
}

/// A line keeps its stream on the way through a monitor: the server sends it
/// into the channel from which the client takes that stream's lines, and what
/// the client reports of it is the message that was sent.
pub proof fn law_monitor_keeps_streams(
    monitor: CommandMonitor,
    capacity: nat,
    message: CommandMonitorMessageView,
)
    requires
        monitor.wired(capacity),
    ensures
        receiver_of(monitor.server.outlet(message.stream())) == monitor.client.inlet(
            message.stream(),
        ),
        CommandMonitorMessageView::of(message.stream(), message.line()) == message,
{
}

/// The channels of a monitor are separate: no sender of it feeds a receiver
/// other than its own, so the three senders are different ones too.
pub proof fn law_channels_of_a_monitor_are_separate(monitor: CommandMonitor, capacity: nat)
    requires
        monitor.wired(capacity),
    ensures
        receiver_of(*monitor.server.stdout_tx) != guarded(*monitor.client.stderr_rx),
        receiver_of(*monitor.server.stdout_tx) != guarded(*monitor.server.stdin_rx),
        receiver_of(*monitor.server.stderr_tx) != guarded(*monitor.client.stdout_rx),
        receiver_of(*monitor.server.stderr_tx) != guarded(*monitor.server.stdin_rx),
        receiver_of(*monitor.client.stdin_tx) != guarded(*monitor.client.stdout_rx),
        receiver_of(*monitor.client.stdin_tx) != guarded(*monitor.client.stderr_rx),
        *monitor.server.stdout_tx != *monitor.server.stderr_tx,
        *monitor.server.stdout_tx != *monitor.client.stdin_tx,
        *monitor.server.stderr_tx != *monitor.client.stdin_tx,
{
}

/// Two monitors of which one was made while the other was in use have nothing
/// in common: no receiver of one is a receiver of the other, so that no line
/// gets from one to the other, and neither is any sender.
pub proof fn law_monitors_share_no_channel(
    one: CommandMonitor,
    one_capacity: nat,
    other: CommandMonitor,
    other_capacity: nat,
)
    requires
        one.wired(one_capacity),
        other.wired(other_capacity),
        one.apart_from(other),
    ensures
        other.apart_from(one),
        forall|a: CommandStream, b: CommandStream|
            #![trigger one.client.inlet(a), other.client.inlet(b)]
            one.client.inlet(a) != other.client.inlet(b) && one.server.outlet(a)
                != other.server.outlet(b),
        forall|a: CommandStream|
            #![trigger one.client.inlet(a)]
            one.client.inlet(a) != guarded(*other.server.stdin_rx) && one.server.outlet(a)
                != *other.client.stdin_tx,
        forall|b: CommandStream|
            #![trigger other.client.inlet(b)]
            guarded(*one.server.stdin_rx) != other.client.inlet(b) && *one.client.stdin_tx
                != other.server.outlet(b),
        guarded(*one.server.stdin_rx) != guarded(*other.server.stdin_rx),
        *one.client.stdin_tx != *other.client.stdin_tx,
{
}

/// What is read off a message is its stream and its line.
pub proof fn law_message_is_read_whole(message: CommandMonitorMessage)
    ensures
        message matches CommandMonitorMessage::Stdout { line } ==> message@ == (
            CommandMonitorMessageView::Stdout { line: line@ }),
        message matches CommandMonitorMessage::Stderr { line } ==> message@ == (
            CommandMonitorMessageView::Stderr { line: line@ }),
{
}

/// A message is of the stream and the line that it was made of, and each stream
/// has its own kind of message.
pub proof fn law_messages_of_streams(stream: CommandStream, line: Seq<char>)
    ensures
        CommandMonitorMessageView::of(stream, line).stream() == stream,
        CommandMonitorMessageView::of(stream, line).line() == line,
        CommandMonitorMessageView::of(CommandStream::Stdout, line) == (
            CommandMonitorMessageView::Stdout { line }),
        CommandMonitorMessageView::of(CommandStream::Stderr, line) == (
            CommandMonitorMessageView::Stderr { line }),
{
}

/// Each stream goes out and comes in on the channel that bears its name.
pub proof fn law_channels_of_streams(server: CommandMonitorServer, client: CommandMonitorClient)
    ensures
        server.outlet(CommandStream::Stdout) == *server.stdout_tx,
        server.outlet(CommandStream::Stderr) == *server.stderr_tx,
        client.inlet(CommandStream::Stdout) == guarded(*client.stdout_rx),
        client.inlet(CommandStream::Stderr) == guarded(*client.stderr_rx),
{
}

/// Any number of lines from one up can be asked for, until tokio can count them
/// no more.
pub proof fn law_capacities(capacity: usize)
    ensures
        valid_capacity(capacity) <==> capacity != 0 && 8 * capacity <= usize::MAX,
{
}

/// Each sender of a wired monitor has its receiver at the other end, and each of
/// the three channels was made empty and buffers the lines asked for.
pub proof fn law_wired_monitors_have_three_channels(monitor: CommandMonitor, capacity: nat)
    requires
        monitor.wired(capacity),
    ensures
        receiver_of(*monitor.server.stdout_tx) == guarded(*monitor.client.stdout_rx),
        receiver_of(*monitor.server.stderr_tx) == guarded(*monitor.client.stderr_rx),
        receiver_of(*monitor.client.stdin_tx) == guarded(*monitor.server.stdin_rx),
        buffer_limit(*monitor.server.stdout_tx) == capacity,
        buffer_limit(*monitor.server.stderr_tx) == capacity,
        buffer_limit(*monitor.client.stdin_tx) == capacity,
        first_lines(guarded(*monitor.client.stdout_rx)).len() == 0,
        first_lines(guarded(*monitor.client.stderr_rx)).len() == 0,
        first_lines(guarded(*monitor.server.stdin_rx)).len() == 0,
{
}

} // verus!
