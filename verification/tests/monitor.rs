use libcmd::{CommandMonitor, CommandMonitorClient, CommandMonitorMessage, CommandStream};

fn text_of(message: CommandMonitorMessage) -> String {
    match message {
        CommandMonitorMessage::Stdout { line } => format!("out: {line}"),
        CommandMonitorMessage::Stderr { line } => format!("err: {line}"),
    }
}

#[test]
fn the_channels_of_a_monitor_have_the_capacity_asked_for() {
    let monitor = CommandMonitor::with_capacity(7);
    assert_eq!(monitor.server.stdout_tx.max_capacity(), 7);
    assert_eq!(monitor.server.stderr_tx.max_capacity(), 7);
    assert_eq!(monitor.client.stdin_tx.max_capacity(), 7);
}

#[test]
fn the_channels_of_a_monitor_have_a_capacity_of_a_hundred() {
    for monitor in [CommandMonitor::new(), CommandMonitor::default()] {
        assert_eq!(monitor.server.stdout_tx.max_capacity(), 100);
        assert_eq!(monitor.server.stderr_tx.max_capacity(), 100);
        assert_eq!(monitor.client.stdin_tx.max_capacity(), 100);
    }
}

#[test]
fn a_channel_takes_no_more_lines_than_its_capacity() {
    let monitor = CommandMonitor::with_capacity(1);
    assert!(monitor.server.stdout_tx.try_send("one".to_string()).is_ok());
    assert!(monitor.server.stdout_tx.try_send("two".to_string()).is_err());
}

#[test]
fn lines_keep_their_stream_through_a_monitor() {
    let monitor = CommandMonitor::new();
    let messages = vec![
        CommandMonitorMessage::Stdout { line: "a".to_string() },
        CommandMonitorMessage::Stderr { line: "b".to_string() },
        CommandMonitorMessage::Stdout { line: "c".to_string() },
    ];
    for message in messages {
        let (tx, line) = monitor.server.route(message);
        assert!(tx.try_send(line).is_ok());
    }

    let mut stdout = monitor.client.stdout_rx.try_lock().unwrap();
    let mut stderr = monitor.client.stderr_rx.try_lock().unwrap();
    let first = CommandMonitorClient::delivered(CommandStream::Stdout, stdout.try_recv().ok());
    assert_eq!(text_of(first.unwrap()), "out: a");
    let second = CommandMonitorClient::delivered(CommandStream::Stdout, stdout.try_recv().ok());
    assert_eq!(text_of(second.unwrap()), "out: c");
    assert!(stdout.try_recv().is_err());
    let third = CommandMonitorClient::delivered(CommandStream::Stderr, stderr.try_recv().ok());
    assert_eq!(text_of(third.unwrap()), "err: b");
    assert!(stderr.try_recv().is_err());
}

#[test]
fn lines_for_stdin_go_from_the_client_to_the_server() {
    let monitor = CommandMonitor::new();
    assert!(monitor.client.stdin_tx.try_send("ls".to_string()).is_ok());
    let mut stdin = monitor.server.stdin_rx.try_lock().unwrap();
    assert_eq!(stdin.try_recv().unwrap(), "ls");
    assert!(monitor.client.stdout_rx.try_lock().unwrap().try_recv().is_err());
    assert!(monitor.client.stderr_rx.try_lock().unwrap().try_recv().is_err());
}

#[test]
fn clones_of_a_client_share_its_channels() {
    let monitor = CommandMonitor::new();
    let other = monitor.client.clone();
    assert!(monitor.server.stdout_tx.try_send("only once".to_string()).is_ok());
    assert_eq!(other.stdout_rx.try_lock().unwrap().try_recv().unwrap(), "only once");
    assert!(monitor.client.stdout_rx.try_lock().unwrap().try_recv().is_err());
}

#[test]
fn a_closed_channel_delivers_no_message() {
    assert!(CommandMonitorClient::delivered(CommandStream::Stdout, None).is_none());
    assert!(CommandMonitorClient::delivered(CommandStream::Stderr, None).is_none());
}

#[test]
fn the_channels_of_a_monitor_are_separate() {
    let monitor = CommandMonitor::new();
    let (stdout, stderr) = (&monitor.server.stdout_tx, &monitor.server.stderr_tx);
    let stdin = &monitor.client.stdin_tx;
    assert!(!stdout.same_channel(stderr));
    assert!(!stdout.same_channel(stdin));
    assert!(!stderr.same_channel(stdin));

    let monitor = CommandMonitor::with_capacity(1);
    assert!(monitor.server.stdout_tx.try_send("a".to_string()).is_ok());
    assert!(monitor.server.stderr_tx.try_send("b".to_string()).is_ok());
    assert!(monitor.client.stdin_tx.try_send("c".to_string()).is_ok());
    assert_eq!(monitor.client.stdout_rx.try_lock().unwrap().try_recv().unwrap(), "a");
    assert_eq!(monitor.client.stderr_rx.try_lock().unwrap().try_recv().unwrap(), "b");
    assert_eq!(monitor.server.stdin_rx.try_lock().unwrap().try_recv().unwrap(), "c");
}

#[test]
fn the_channels_of_a_monitor_are_made_open_and_empty() {
    let monitor = CommandMonitor::new();
    assert!(monitor.client.stdout_rx.try_lock().unwrap().is_empty());
    assert!(monitor.client.stderr_rx.try_lock().unwrap().is_empty());
    assert!(monitor.server.stdin_rx.try_lock().unwrap().is_empty());
    assert!(!monitor.server.stdout_tx.is_closed());
    assert!(!monitor.server.stderr_tx.is_closed());
    assert!(!monitor.client.stdin_tx.is_closed());
}

#[test]
fn two_monitors_share_no_channel() {
    let (one, other) = (CommandMonitor::default(), CommandMonitor::default());
    let senders = |monitor: &CommandMonitor| {
        [
            monitor.server.stdout_tx.clone(),
            monitor.server.stderr_tx.clone(),
            monitor.client.stdin_tx.clone(),
        ]
    };
    for tx in senders(&one) {
        for other_tx in senders(&other) {
            assert!(!tx.same_channel(&other_tx));
        }
    }
}

#[test]
fn clones_of_a_server_share_its_channels() {
    let monitor = CommandMonitor::new();
    let other = monitor.server.clone();
    assert!(other.stdout_tx.same_channel(&monitor.server.stdout_tx));
    assert!(other.stderr_tx.same_channel(&monitor.server.stderr_tx));
    assert!(other.stderr_tx.try_send("from the clone".to_string()).is_ok());
    let line = monitor.client.stderr_rx.try_lock().unwrap().try_recv().unwrap();
    assert_eq!(line, "from the clone");
    assert!(monitor.client.stdin_tx.try_send("to the clone".to_string()).is_ok());
    assert_eq!(other.stdin_rx.try_lock().unwrap().try_recv().unwrap(), "to the clone");
    assert!(monitor.server.stdin_rx.try_lock().unwrap().try_recv().is_err());
}

#[test]
fn a_monitor_made_beside_another_shares_no_channel_with_it() {
    let one = CommandMonitor::default();
    let other = CommandMonitor::with_capacity_beside(3, &one);
    assert_eq!(other.server.stdout_tx.max_capacity(), 3);
    assert_eq!(other.server.stderr_tx.max_capacity(), 3);
    assert_eq!(other.client.stdin_tx.max_capacity(), 3);
    assert!(!other.server.stdout_tx.same_channel(&one.server.stdout_tx));
    assert!(!other.server.stderr_tx.same_channel(&one.server.stderr_tx));
    assert!(!other.client.stdin_tx.same_channel(&one.client.stdin_tx));

    assert!(other.server.stdout_tx.try_send("here".to_string()).is_ok());
    assert!(one.client.stdout_rx.try_lock().unwrap().try_recv().is_err());
    assert_eq!(other.client.stdout_rx.try_lock().unwrap().try_recv().unwrap(), "here");
}
