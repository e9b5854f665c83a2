//! The capability boundary for external commands. The library decides which
//! command to run and what its captured output means; the caller supplies a
//! [`CommandRunner`] that actually launches processes and hands back plain
//! outcomes.
use vstd::prelude::*;

use crate::Error;
use crate::text::trim_spec;
use crate::text::trim_string;

verus! {

/// One command to run: the full argument list, program first, and whether
/// the pager environment must be suppressed for this invocation so raw
/// output reaches the caller.
#[derive(Debug)]
pub struct CommandRequest {
    pub args: Vec<String>,
    pub suppress_pager: bool,
}

/// What a launched process produced: whether it exited successfully, its
/// standard output when it was valid text, and the captured diagnostic text
/// for failures.
#[derive(Debug)]
pub struct ProcessOutput {
    pub status_ok: bool,
    pub stdout: Option<String>,
    pub detail: String,
}

/// The outcome of trying to run one command.
#[derive(Debug)]
pub enum ProcessResult {
    /// The process ran to completion.
    Ran(ProcessOutput),
    /// The process could not be launched; carries the launch failure text.
    StartFailed(String),
}

/// Runs one external command and reports what happened. The library states
/// nothing about a runner's answers: every function that consumes an
/// outcome is verified for all possible outcomes.
pub trait CommandRunner {
    fn run(&self, request: &CommandRequest) -> ProcessResult;
}

/// Turns a command outcome into the query's result: the launch failure and
/// the failed exit each become their own error carrying the attempted
/// command line, undecodable output is its own error, and a successful run
/// yields the captured output trimmed of surrounding whitespace.
pub fn process_output(result: ProcessResult, raw_command: String) -> (r: Result<String, Error>)
    ensures
        match result {
            ProcessResult::StartFailed(m) => r matches Err(e) && e matches Error::CommandError(
                c,
                m2,
            ) && c@ == raw_command@ && m2@ == m@,
            ProcessResult::Ran(out) => {
                if !out.status_ok {
                    r matches Err(e) && e matches Error::CommandFailure(c, d) && c@
                        == raw_command@ && d@ == out.detail@
                } else {
                    match out.stdout {
                        Option::None => r matches Err(e) && e is CommandOutputParsingError,
                        Option::Some(s) => r matches Ok(t) && t@ == trim_spec(s@),
                    }
                }
            },
        },
{
    match result {
        ProcessResult::StartFailed(m) => Err(Error::CommandError(raw_command, m)),
        ProcessResult::Ran(out) => {
            if !out.status_ok {
                Err(Error::CommandFailure(raw_command, out.detail))
            } else {
                match out.stdout {
                    Option::None => Err(Error::CommandOutputParsingError),
                    Option::Some(s) => Ok(trim_string(s.as_str())),
                }
            }
        },
    }
}

} // verus!
