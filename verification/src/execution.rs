//! The decisions of one spawn-to-exit execution.
//!
//! The runtime that spawns the child and drives its pipes is outside the
//! library; it calls in here for every decision: which program a command
//! line names ([`plan_command`]), how the outcomes of the four concurrent
//! I/O lanes join into one result ([`collect_output`]), and what a
//! timeout race resolves to ([`resolve_race`]). A caller always receives
//! either a fully populated [`CommandOutput`] or exactly one
//! [`CommandExecutorError`]; a partial result is never reported as
//! success.

use vstd::prelude::*;

use crate::errors::CommandExecutorError;
use crate::parser::{parse, split_spec, string_views};
use crate::text::{lossy_decode, lossy_of};

verus! {

/// The captured result of a completed execution: both streams decoded
/// lossily, and the exit code, absent when a signal ended the child.
#[derive(Debug, Clone, PartialEq, Eq)]
pub struct CommandOutput {
    pub stdout: String,
    pub stderr: String,
    pub exit_code: Option<i32>,
}

/// A program with its arguments, as a command line names them.
#[derive(Debug, Clone, PartialEq, Eq)]
pub struct CommandPlan {
    pub program: String,
    pub args: Vec<String>,
}

/// How one concurrently-run lane ended: with its own outcome, or not at
/// all because the task running it could not be joined.
#[derive(Debug, Clone, PartialEq, Eq)]
pub enum Joined<T> {
    Finished(T),
    JoinFailed(String),
}

/// What the race of a timer against the running execution reported:
/// the timer fired first (the timer wins ties), or the execution
/// completed with its result.
#[derive(Debug, PartialEq, Eq)]
pub enum RaceOutcome {
    TimerFired,
    Completed(Result<CommandOutput, CommandExecutorError>),
}

/// Splits a command line and names the program to run: the first word,
/// with the remaining words as its arguments. A line of zero words is
/// its own failure, distinct from a malformed line.
pub fn plan_command(command_line: &str) -> (r: Result<CommandPlan, CommandExecutorError>)
    ensures
        match split_spec(command_line@) {
            None => r matches Err(e) && e matches CommandExecutorError::ParseError(raw) && raw@
                == command_line@,
            Some(ws) => {
                if ws.len() == 0 {
                    r == Err::<CommandPlan, CommandExecutorError>(
                        CommandExecutorError::EmptyCommandError,
                    )
                } else {
                    &&& r is Ok
                    &&& r->Ok_0.program@ == ws[0]
                    &&& string_views(r->Ok_0.args@) == ws.drop_first()
                }
            },
        },
{
    match parse(command_line) {
        Err(e) => Err(e),
        Ok(mut words) => {
            if words.len() == 0 {
                Err(CommandExecutorError::EmptyCommandError)
            } else {
                let ghost ws = string_views(words@);
                let program = words.remove(0);
                proof {
                    assert(string_views(words@) =~= ws.drop_first());
                }
                Ok(CommandPlan { program, args: words })
            }
        },
    }
}

/// The first failure among the four lanes, in the fixed priority the
/// join policy reports: the stdin lane before the stdout lane, the
/// stdout lane before the stderr lane, the stderr lane before the exit
/// wait; for each lane, a join failure before the lane's own failure.
pub open spec fn join_verdict(
    stdin_outcome: Joined<Result<(), String>>,
    stdout_outcome: Joined<Result<Vec<u8>, String>>,
    stderr_outcome: Joined<Result<Vec<u8>, String>>,
    wait_outcome: Result<Option<i32>, String>,
) -> Option<CommandExecutorError> {
    match stdin_outcome {
        Joined::JoinFailed(m) => Some(CommandExecutorError::JoinError { source: m }),
        Joined::Finished(Err(m)) => Some(CommandExecutorError::StdinWriteError(m)),
        Joined::Finished(Ok(())) => match stdout_outcome {
            Joined::JoinFailed(m) => Some(CommandExecutorError::JoinError { source: m }),
            Joined::Finished(Err(m)) => Some(CommandExecutorError::IoError { source: m }),
            Joined::Finished(Ok(_)) => match stderr_outcome {
                Joined::JoinFailed(m) => Some(CommandExecutorError::JoinError { source: m }),
                Joined::Finished(Err(m)) => Some(CommandExecutorError::IoError { source: m }),
                Joined::Finished(Ok(_)) => match wait_outcome {
                    Err(m) => Some(CommandExecutorError::IoError { source: m }),
                    Ok(_) => None,
                },
            },
        },
    }
}

/// Joins the outcomes of the four lanes of one execution into one
/// result. Every lane has already run to completion; if any failed, the
/// first failure by priority is reported. On success the two captured
/// byte buffers are decoded lossily — bytes that are not valid UTF-8
/// are replaced, never a reason to fail — and combined with the exit
/// code.
pub fn collect_output(
    stdin_outcome: Joined<Result<(), String>>,
    stdout_outcome: Joined<Result<Vec<u8>, String>>,
    stderr_outcome: Joined<Result<Vec<u8>, String>>,
    wait_outcome: Result<Option<i32>, String>,
) -> (r: Result<CommandOutput, CommandExecutorError>)
    ensures
        match join_verdict(stdin_outcome, stdout_outcome, stderr_outcome, wait_outcome) {
            Some(e) => r == Err::<CommandOutput, CommandExecutorError>(e),
            None => {
                &&& r is Ok
                &&& stdout_outcome matches Joined::Finished(Ok(out_bytes)) && r->Ok_0.stdout@
                    == lossy_of(out_bytes@)
                &&& stderr_outcome matches Joined::Finished(Ok(err_bytes)) && r->Ok_0.stderr@
                    == lossy_of(err_bytes@)
                &&& wait_outcome matches Ok(code) && r->Ok_0.exit_code == code
            },
        },
{
    match stdin_outcome {
        Joined::JoinFailed(m) => {
            return Err(CommandExecutorError::JoinError { source: m });
        },
        Joined::Finished(Err(m)) => {
            return Err(CommandExecutorError::StdinWriteError(m));
        },
        Joined::Finished(Ok(())) => {},
    }
    let out_bytes = match stdout_outcome {
        Joined::JoinFailed(m) => {
            return Err(CommandExecutorError::JoinError { source: m });
        },
        Joined::Finished(Err(m)) => {
            return Err(CommandExecutorError::IoError { source: m });
        },
        Joined::Finished(Ok(b)) => b,
    };
    let err_bytes = match stderr_outcome {
        Joined::JoinFailed(m) => {
            return Err(CommandExecutorError::JoinError { source: m });
        },
        Joined::Finished(Err(m)) => {
            return Err(CommandExecutorError::IoError { source: m });
        },
        Joined::Finished(Ok(b)) => b,
    };
    let exit_code = match wait_outcome {
        Err(m) => {
            return Err(CommandExecutorError::IoError { source: m });
        },
        Ok(code) => code,
    };
    let stdout_text = lossy_decode(&out_bytes);
    let stderr_text = lossy_decode(&err_bytes);
    Ok(CommandOutput { stdout: stdout_text, stderr: stderr_text, exit_code })
}

/// Resolves the race of a timer against the execution: when the timer
/// fired first — and it wins ties — the whole execution fails with a
/// timeout naming the command and the configured duration; otherwise
/// the execution's own result stands unchanged.
pub fn resolve_race(outcome: RaceOutcome, command_line: String, duration_secs: u64) -> (r: Result<
    CommandOutput,
    CommandExecutorError,
>)
    ensures
        match outcome {
            RaceOutcome::TimerFired => r == Err::<CommandOutput, CommandExecutorError>(
                (CommandExecutorError::TimeoutError { command: command_line, duration_secs }),
            ),
            RaceOutcome::Completed(res) => r == res,
        },
{
    match outcome {
        RaceOutcome::TimerFired => Err(
            CommandExecutorError::TimeoutError { command: command_line, duration_secs },
        ),
        RaceOutcome::Completed(res) => res,
    }
}

} // verus!
