use libcmd::CommandError;

#[test]
fn every_error_has_its_message() {
    let inner = || "no such file".to_string();
    assert_eq!(CommandError::Cancelled.message(), "Command execution cancelled");
    assert_eq!(
        CommandError::BadSpawn { inner_error: inner() }.message(),
        "Failed to spawn command process: no such file"
    );
    assert_eq!(
        CommandError::BadExit { inner_error: inner() }.message(),
        "Command process exited with error: no such file"
    );
    assert_eq!(
        CommandError::Acquire { inner_error: inner() }.message(),
        "Failed to acquire permit for command execution: no such file"
    );
}

#[test]
fn a_clone_of_an_error_has_the_same_message() {
    let inner = || "gone".to_string();
    for error in [
        CommandError::Cancelled,
        CommandError::BadSpawn { inner_error: inner() },
        CommandError::BadExit { inner_error: inner() },
        CommandError::Acquire { inner_error: inner() },
    ] {
        assert_eq!(error.clone().message(), error.message());
    }
}
