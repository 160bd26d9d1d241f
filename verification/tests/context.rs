use libcmd::{CommandAction, CommandContext, CommandError, CommandEvent, CommandExit};
use libcmd::{CommandExitCode, CommandExitWorking, CommandMonitor, CommandMonitorMessage};
use libcmd::{RingBuffer, StdinStep};
use std::ops::ControlFlow;

fn watched() -> CommandContext {
    CommandContext::new(Some(CommandMonitor::new().server))
}

fn unwatched() -> CommandContext {
    CommandContext::new(None)
}

fn out(line: &str) -> CommandEvent {
    CommandEvent::StdoutLine { line: line.to_string() }
}

fn err(line: &str) -> CommandEvent {
    CommandEvent::StderrLine { line: line.to_string() }
}

fn exited(code: Option<i32>) -> CommandEvent {
    CommandEvent::Exited { outcome: Ok(CommandExitCode { code }) }
}

fn action(flow: ControlFlow<Result<CommandExit, CommandError>, CommandAction>) -> CommandAction {
    match flow {
        ControlFlow::Continue(action) => action,
        ControlFlow::Break(_) => panic!("the run ended"),
    }
}

fn result(
    flow: ControlFlow<Result<CommandExit, CommandError>, CommandAction>,
) -> Result<CommandExit, CommandError> {
    match flow {
        ControlFlow::Continue(_) => panic!("the run goes on"),
        ControlFlow::Break(result) => result,
    }
}

#[test]
fn an_exit_reports_the_code_and_the_lines() {
    let mut context = unwatched();
    for event in [out("one"), err("oops"), out("two")] {
        assert!(matches!(action(context.tick(event)), CommandAction::Wait));
    }
    let exit = result(context.tick(exited(Some(0)))).unwrap();
    assert_eq!(exit.stdout_lines, vec!["one", "two"]);
    assert_eq!(exit.stderr_lines, vec!["oops"]);
    assert_eq!(exit.exit_code, Some(CommandExitCode { code: Some(0) }));
}

#[test]
fn a_failing_exit_is_still_a_result() {
    for code in [Some(1), Some(-1), Some(255), None] {
        let exit = result(unwatched().tick(exited(code))).unwrap();
        assert_eq!(exit.exit_code, Some(CommandExitCode { code }));
    }
}

#[test]
fn only_zero_is_a_success() {
    assert!(CommandExitCode { code: Some(0) }.success());
    assert!(!CommandExitCode { code: Some(1) }.success());
    assert!(!CommandExitCode { code: Some(-1) }.success());
    assert!(!CommandExitCode { code: None }.success());
}

#[test]
fn an_exit_reports_the_last_hundred_lines_of_each_stream() {
    let mut context = unwatched();
    for n in 0..250 {
        let _ = context.tick(out(&format!("out {n}")));
        let _ = context.tick(err(&format!("err {n}")));
    }
    let exit = result(context.tick(exited(Some(0)))).unwrap();
    let expected: Vec<String> = (150..250).map(|n| format!("out {n}")).collect();
    assert_eq!(exit.stdout_lines, expected);
    let expected: Vec<String> = (150..250).map(|n| format!("err {n}")).collect();
    assert_eq!(exit.stderr_lines, expected);
}

#[test]
fn a_stream_of_a_hundred_lines_is_kept_whole() {
    let mut context = unwatched();
    for n in 0..100 {
        let _ = context.tick(out(&format!("{n}")));
    }
    let exit = result(context.tick(exited(Some(0)))).unwrap();
    let expected: Vec<String> = (0..100).map(|n| format!("{n}")).collect();
    assert_eq!(exit.stdout_lines, expected);
    assert!(exit.stderr_lines.is_empty());
}

#[test]
fn a_failure_to_wait_is_an_error() {
    let mut context = watched();
    let _ = context.tick(out("lost"));
    let event = CommandEvent::Exited { outcome: Err("gone".to_string()) };
    let error = result(context.tick(event)).unwrap_err();
    assert!(matches!(error, CommandError::BadExit { inner_error } if inner_error == "gone"));
}

#[test]
fn a_cancelled_command_is_killed_and_ends_as_cancelled() {
    for attempt in [Ok(()), Err("no such process".to_string())] {
        let mut context = watched();
        assert!(matches!(action(context.tick(CommandEvent::Cancelled)), CommandAction::Kill));
        let error = result(context.tick(CommandEvent::Killed { attempt })).unwrap_err();
        assert!(matches!(error, CommandError::Cancelled));
    }
}

#[test]
fn a_cancellation_changes_nothing_but_the_result() {
    let mut context = watched();
    let _ = context.tick(out("before"));
    let _ = context.tick(CommandEvent::Cancelled);
    let _ = context.tick(CommandEvent::Killed { attempt: Ok(()) });
    assert_eq!(context.result.stdout_lines.to_vec(), vec!["before"]);
    assert!(context.result.exit_code.is_none());
    assert!(context.server.is_some());
    let forwarded = action(context.tick(out("after")));
    assert!(matches!(
        forwarded,
        CommandAction::Forward { message: CommandMonitorMessage::Stdout { line } } if line == "after"
    ));
    assert_eq!(context.result.stdout_lines.to_vec(), vec!["before", "after"]);
}

#[test]
fn a_run_fails_only_by_waiting_or_by_cancellation() {
    let failed = || CommandEvent::Exited { outcome: Err("gone".to_string()) };
    let killed = || CommandEvent::Killed { attempt: Ok(()) };
    for event in [failed(), killed()] {
        let error = result(unwatched().tick(event)).unwrap_err();
        assert!(matches!(error, CommandError::BadExit { .. } | CommandError::Cancelled));
    }
}

#[test]
fn the_messages_hold_each_stream_whole() {
    let mut context = watched();
    let (mut stdout, mut stderr) = (Vec::new(), Vec::new());
    for event in [out("1"), err("2"), out("3"), err("4"), err("5")] {
        match action(context.tick(event)) {
            CommandAction::Forward { message: CommandMonitorMessage::Stdout { line } } => {
                stdout.push(line);
            }
            CommandAction::Forward { message: CommandMonitorMessage::Stderr { line } } => {
                stderr.push(line);
            }
            other => panic!("{:?}", other),
        }
    }
    let exit = result(context.tick(exited(Some(0)))).unwrap();
    assert_eq!(exit.stdout_lines, stdout);
    assert_eq!(exit.stderr_lines, stderr);
}

#[test]
fn every_line_of_a_watched_command_is_forwarded() {
    let mut context = watched();
    for n in 0..150 {
        let line = format!("{n}");
        let forwarded = action(context.tick(out(&line)));
        assert!(matches!(
            forwarded,
            CommandAction::Forward { message: CommandMonitorMessage::Stdout { line: l } } if l == line
        ));
        let forwarded = action(context.tick(err(&line)));
        assert!(matches!(
            forwarded,
            CommandAction::Forward { message: CommandMonitorMessage::Stderr { line: l } } if l == line
        ));
    }
    assert_eq!(context.result.stdout_lines.len(), 100);
}

#[test]
fn a_watched_command_is_fed() {
    let event = CommandEvent::StdinLine { line: " yes \n".to_string() };
    match action(watched().tick(event)) {
        CommandAction::Feed { steps } => {
            assert_eq!(steps.len(), 3);
            assert!(matches!(&steps[0], StdinStep::Write { bytes } if bytes == b"yes"));
        }
        other => panic!("{:?}", other),
    }
}

#[test]
fn an_unwatched_command_is_not_fed() {
    let event = CommandEvent::StdinLine { line: "yes".to_string() };
    assert!(matches!(action(unwatched().tick(event)), CommandAction::Wait));
}

#[test]
fn only_lines_are_events_of_a_stream() {
    let line = || Ok(Some("l".to_string()));
    let event = CommandEvent::from_stdout(line());
    assert!(matches!(event, Some(CommandEvent::StdoutLine { line }) if line == "l"));
    let event = CommandEvent::from_stderr(line());
    assert!(matches!(event, Some(CommandEvent::StderrLine { line }) if line == "l"));
    let event = CommandEvent::from_stdin(Some("l".to_string()));
    assert!(matches!(event, Some(CommandEvent::StdinLine { line }) if line == "l"));

    assert!(CommandEvent::from_stdout(Ok(None)).is_none());
    assert!(CommandEvent::from_stdout(Err("bad".to_string())).is_none());
    assert!(CommandEvent::from_stderr(Ok(None)).is_none());
    assert!(CommandEvent::from_stderr(Err("bad".to_string())).is_none());
    assert!(CommandEvent::from_stdin(None).is_none());
}

#[test]
fn a_spawned_child_begins_a_run() {
    let (child, context) = CommandContext::spawned(Ok(17), None).ok().unwrap();
    assert_eq!(child, 17);
    assert!(context.server.is_none());
    assert_eq!(context.result.stdout_lines.len(), 0);
    assert_eq!(context.result.stderr_lines.len(), 0);
    assert!(context.result.exit_code.is_none());

    let server = Some(CommandMonitor::new().server);
    let (_, context) = CommandContext::spawned(Ok(()), server).ok().unwrap();
    assert!(context.server.is_some());
}

#[test]
fn a_failure_to_spawn_is_an_error() {
    let begun = CommandContext::spawned::<()>(Err("not found".to_string()), None);
    let error = begun.err().unwrap();
    assert!(matches!(error, CommandError::BadSpawn { inner_error } if inner_error == "not found"));
}

#[test]
fn a_working_exit_becomes_an_exit() {
    let mut working = CommandExitWorking {
        stdout_lines: RingBuffer::new(2),
        stderr_lines: RingBuffer::new(2),
        exit_code: Some(CommandExitCode { code: Some(3) }),
    };
    for line in ["a", "b", "c"] {
        working.stdout_lines.push(line.to_string());
    }
    working.stderr_lines.push("d".to_string());
    let copy = working.clone();
    for working in [working, copy] {
        let exit = CommandExit::from(working);
        assert_eq!(exit.stdout_lines, vec!["b", "c"]);
        assert_eq!(exit.stderr_lines, vec!["d"]);
        assert_eq!(exit.exit_code, Some(CommandExitCode { code: Some(3) }));
    }
}

#[test]
fn a_watched_command_is_fed_every_line_in_order() {
    let mut context = watched();
    let mut fed = Vec::new();
    for line in ["one", " two ", "three\n"] {
        let event = CommandEvent::StdinLine { line: line.to_string() };
        match action(context.tick(event)) {
            CommandAction::Feed { steps } => {
                for step in steps {
                    if let StdinStep::Write { bytes } = step {
                        fed.extend(bytes);
                    }
                }
            }
            other => panic!("{:?}", other),
        }
        let _ = context.tick(out("interleaved"));
    }
    assert_eq!(fed, b"one\ntwo\nthree\n".to_vec());
    assert!(context.server.is_some());
}

#[test]
fn an_attempted_kill_ends_a_run_as_cancelled() {
    let event = CommandEvent::Killed { attempt: Ok(()) };
    let error = result(unwatched().tick(event)).unwrap_err();
    assert!(matches!(error, CommandError::Cancelled));
}

#[test]
fn a_clone_of_an_exit_tells_the_same() {
    let mut context = unwatched();
    let _ = context.tick(out("a"));
    let _ = context.tick(err("b"));
    let exit = result(context.tick(exited(None))).unwrap();
    let copy = exit.clone();
    assert_eq!(copy.stdout_lines, exit.stdout_lines);
    assert_eq!(copy.stderr_lines, exit.stderr_lines);
    assert_eq!(copy.exit_code, exit.exit_code);
}
