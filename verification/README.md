# libcmd

Runs child processes and watches them. The rules of a run are a verified
library; the process, its pipes and the waiting are left to a thin shell on
tokio.

- `src/context.rs`: the state of a running command, and what each event leads to
- `src/exit.rs`, `src/error.rs`: what a run ends with
- `src/ring.rs`: the buffer that keeps the latest lines of a stream
- `src/monitor.rs`: the channels between a command and whoever watches it
- `src/stdin.rs`: how a line is fed to a command
- `src/write.rs`: the stand-in for a missing stdin
- `src/laws.rs`: what holds of whole runs
- `app/`: the loop on tokio, the logging, and the types as they are serialised
