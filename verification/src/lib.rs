//! The rules by which a child process is run, watched, fed and wound up.
pub mod context;
pub mod error;
pub mod exit;
pub mod laws;
pub mod monitor;
pub mod ring;
pub mod stdin;
pub mod write;

pub use context::{CommandAction, CommandContext, CommandEvent};
pub use error::CommandError;
pub use exit::{CommandExit, CommandExitCode, CommandExitWorking};
pub use monitor::{CommandMonitor, CommandMonitorClient, CommandMonitorMessage};
pub use monitor::{CommandMonitorServer, CommandStream};
pub use ring::RingBuffer;
pub use stdin::{stdin_steps, StdinStep};
pub use write::{writer_or_never, NeverWriter, WriterOrNever};
