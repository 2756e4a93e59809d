use command_executor::digits::u64_to_string;
use command_executor::errors::{CommandExecutorError, ErrorCategory};

fn spawn_error() -> CommandExecutorError {
    CommandExecutorError::SpawnError {
        command: "definitely-not-a-real-program".to_string(),
        source: "No such file or directory (os error 2)".to_string(),
    }
}

#[test]
fn decimal_rendering_is_exact() {
    assert_eq!(u64_to_string(0), "0");
    assert_eq!(u64_to_string(7), "7");
    assert_eq!(u64_to_string(10), "10");
    assert_eq!(u64_to_string(12345), "12345");
    assert_eq!(u64_to_string(u64::MAX), "18446744073709551615");
}

#[test]
fn parse_and_empty_failures_are_invalid_argument() {
    let parse = CommandExecutorError::ParseError("echo 'a".to_string());
    assert_eq!(parse.category(), ErrorCategory::InvalidArgument);
    assert_eq!(CommandExecutorError::EmptyCommandError.category(), ErrorCategory::InvalidArgument);
}

#[test]
fn spawn_failure_is_an_operating_system_error() {
    assert_eq!(spawn_error().category(), ErrorCategory::OperatingSystem);
}

#[test]
fn timeout_has_its_own_category() {
    let e = CommandExecutorError::TimeoutError { command: "sleep 5".to_string(), duration_secs: 1 };
    assert_eq!(e.category(), ErrorCategory::Timeout);
}

#[test]
fn stream_failures_are_io_errors() {
    let read = CommandExecutorError::IoError { source: "reset".to_string() };
    assert_eq!(read.category(), ErrorCategory::Io);
    let write = CommandExecutorError::StdinWriteError("closed".to_string());
    assert_eq!(write.category(), ErrorCategory::Io);
}

#[test]
fn join_failure_is_internal() {
    let e = CommandExecutorError::JoinError { source: "task panicked".to_string() };
    assert_eq!(e.category(), ErrorCategory::Internal);
}

#[test]
fn messages_carry_their_context() {
    let e = CommandExecutorError::ParseError("echo 'a".to_string());
    assert_eq!(e.message(), "Failed to parse command: echo 'a");

    assert_eq!(
        spawn_error().message(),
        "Failed to spawn command 'definitely-not-a-real-program': No such file or directory (os error 2)",
    );

    let e = CommandExecutorError::TimeoutError { command: "sleep 5".to_string(), duration_secs: 1 };
    assert_eq!(e.message(), "Command 'sleep 5' timed out after 1 seconds");

    let e = CommandExecutorError::IoError { source: "reset".to_string() };
    assert_eq!(e.message(), "I/O error during command execution: reset");

    let e = CommandExecutorError::JoinError { source: "lost".to_string() };
    assert_eq!(e.message(), "Task join error during command execution: lost");

    let e = CommandExecutorError::StdinWriteError("closed".to_string());
    assert_eq!(e.message(), "Failed to write to stdin: closed");

    assert_eq!(CommandExecutorError::EmptyCommandError.message(), "Empty command string provided");
}

#[test]
fn the_spawn_message_names_the_program() {
    assert!(spawn_error().message().contains("definitely-not-a-real-program"));
}
