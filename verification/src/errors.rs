//! The closed set of failure kinds an execution can end in, the text each
//! one renders to, and the mapping onto caller-visible error categories.
//!
//! Every failure is constructed once at the point it arises, carries the
//! context needed for diagnosis (command text, program name, duration, or
//! the underlying error text), and is translated exactly once at the
//! caller boundary via [`CommandExecutorError::category`].

use vstd::prelude::*;

use crate::digits::{spec_decimal, u64_to_string};

verus! {

/// Why an execution failed. The set is closed: callers can rely on these
/// variants being the only failure kinds.
#[derive(Debug, Clone, PartialEq, Eq)]
pub enum CommandExecutorError {
    /// The command line is malformed (unterminated quote, trailing
    /// escape); the raw input is retained for diagnostics.
    ParseError(String),
    /// The operating system refused to start the program.
    SpawnError { command: String, source: String },
    /// The timer elapsed before the command completed.
    TimeoutError { command: String, duration_secs: u64 },
    /// Reading the child's output, or waiting for its exit, failed.
    IoError { source: String },
    /// A concurrent lane could not be joined (a task-level failure, not
    /// one of the child process).
    JoinError { source: String },
    /// Writing to or closing the child's input failed.
    StdinWriteError(String),
    /// The command line held no words at all.
    EmptyCommandError,
}

/// The caller-visible category of a failure. Each internal kind maps to
/// exactly one category; no failure collapses silently to success.
#[derive(Debug, Clone, Copy, PartialEq, Eq, Structural)]
pub enum ErrorCategory {
    /// Bad input: malformed quoting or an empty command line.
    InvalidArgument,
    /// The spawn system call failed.
    OperatingSystem,
    /// The configured duration elapsed first.
    Timeout,
    /// A stream read or write failed during execution.
    Io,
    /// A task or coordination failure not attributable to the child.
    Internal,
}

impl CommandExecutorError {
    /// Where each failure kind lands at the caller boundary.
    pub open spec fn spec_category(&self) -> ErrorCategory {
        match self {
            CommandExecutorError::ParseError(_) => ErrorCategory::InvalidArgument,
            CommandExecutorError::EmptyCommandError => ErrorCategory::InvalidArgument,
            CommandExecutorError::SpawnError { .. } => ErrorCategory::OperatingSystem,
            CommandExecutorError::TimeoutError { .. } => ErrorCategory::Timeout,
            CommandExecutorError::IoError { .. } => ErrorCategory::Io,
            CommandExecutorError::StdinWriteError(_) => ErrorCategory::Io,
            CommandExecutorError::JoinError { .. } => ErrorCategory::Internal,
        }
    }

    /// The exhaustive, total boundary mapping: every failure kind has
    /// exactly one caller category.
    pub fn category(&self) -> (c: ErrorCategory)
        ensures
            c == self.spec_category(),
    {
        match self {
            CommandExecutorError::ParseError(_) => ErrorCategory::InvalidArgument,
            CommandExecutorError::EmptyCommandError => ErrorCategory::InvalidArgument,
            CommandExecutorError::SpawnError { .. } => ErrorCategory::OperatingSystem,
            CommandExecutorError::TimeoutError { .. } => ErrorCategory::Timeout,
            CommandExecutorError::IoError { .. } => ErrorCategory::Io,
            CommandExecutorError::StdinWriteError(_) => ErrorCategory::Io,
            CommandExecutorError::JoinError { .. } => ErrorCategory::Internal,
        }
    }

    /// The diagnostic text of a failure. A spawn failure names the
    /// program, a timeout repeats the command and its duration.
    pub open spec fn spec_message(&self) -> Seq<char> {
        match self {
            CommandExecutorError::ParseError(raw) => "Failed to parse command: "@ + raw@,
            CommandExecutorError::SpawnError { command, source } => "Failed to spawn command '"@
                + command@ + "': "@ + source@,
            CommandExecutorError::TimeoutError { command, duration_secs } => "Command '"@
                + command@ + "' timed out after "@ + spec_decimal(*duration_secs as int)
                + " seconds"@,
            CommandExecutorError::IoError { source } => "I/O error during command execution: "@
                + source@,
            CommandExecutorError::JoinError { source } => "Task join error during command execution: "@
                + source@,
            CommandExecutorError::StdinWriteError(detail) => "Failed to write to stdin: "@
                + detail@,
            CommandExecutorError::EmptyCommandError => "Empty command string provided"@,
        }
    }

    /// A spawn failure's text names the program that could not be
    /// started: right after the fixed prefix, the text repeats the
    /// program name in full.
    pub proof fn lemma_spawn_message_names_program(command: String, source: String)
        ensures
            ({
                let m = (CommandExecutorError::SpawnError { command, source }).spec_message();
                m.subrange(25, 25 + command@.len() as int) == command@
            }),
    {
        reveal_strlit("Failed to spawn command '");
        let m = (CommandExecutorError::SpawnError { command, source }).spec_message();
        assert(m.subrange(25, 25 + command@.len() as int) =~= command@);
    }

    /// Renders the diagnostic text of this failure.
    pub fn message(&self) -> (r: String)
        ensures
            r@ == self.spec_message(),
    {
        match self {
            CommandExecutorError::ParseError(raw) => {
                let mut s = String::from_str("Failed to parse command: ");
                s.append(raw.as_str());
                s
            },
            CommandExecutorError::SpawnError { command, source } => {
                let mut s = String::from_str("Failed to spawn command '");
                s.append(command.as_str());
                s.append("': ");
                s.append(source.as_str());
                assert(s@ =~= self.spec_message());
                s
            },
            CommandExecutorError::TimeoutError { command, duration_secs } => {
                let mut s = String::from_str("Command '");
                s.append(command.as_str());
                s.append("' timed out after ");
                let d = u64_to_string(*duration_secs);
                s.append(d.as_str());
                s.append(" seconds");
                assert(s@ =~= self.spec_message());
                s
            },
            CommandExecutorError::IoError { source } => {
                let mut s = String::from_str("I/O error during command execution: ");
                s.append(source.as_str());
                s
            },
            CommandExecutorError::JoinError { source } => {
                let mut s = String::from_str("Task join error during command execution: ");
                s.append(source.as_str());
                s
            },
            CommandExecutorError::StdinWriteError(detail) => {
                let mut s = String::from_str("Failed to write to stdin: ");
                s.append(detail.as_str());
                s
            },
            CommandExecutorError::EmptyCommandError => {
                String::from_str("Empty command string provided")
            },
        }
    }
}

} // verus!
