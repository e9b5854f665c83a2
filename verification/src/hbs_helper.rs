//! The dynamic log-format helper: the one extension point a template can
//! invoke during rendering. Its argument is taken verbatim as a log format
//! specifier, a fresh query runs against the current revision, and the
//! trimmed result is spliced into the output at the invocation's position.
//! A missing or non-string argument fails the render with a usage error,
//! and a failed query fails the whole render: rendering never continues
//! past a failing helper.
use vstd::prelude::*;

use crate::Error;
use crate::error_message_spec;
use crate::exec::is_command_error;
use crate::runner::CommandRequest;
use crate::runner::CommandRunner;
use crate::runner::ProcessResult;
use crate::runner::process_output;
use crate::text::lemma_trim_idempotent;
use crate::text::trim_spec;

verus! {

/// The name under which the helper is registered, the one the template
/// invokes.
pub fn helper_name() -> (r: &'static str)
    ensures
        r@ == "git_log_format"@,
{
    "git_log_format"
}

/// The helper's argument as the template engine handed it over: absent,
/// present but not a string, or the format string itself.
#[derive(Debug)]
pub enum HelperArg {
    Missing,
    NotString,
    Format(String),
}

/// The usage error for an invocation without arguments.
pub open spec fn helper_missing_message() -> Seq<char> {
    "git_log_format: one argument expected"@
}

/// The usage error for an argument that is not a string.
pub open spec fn helper_type_message() -> Seq<char> {
    "git_log_format: only string argument is accepted"@
}

/// The command a format string is turned into: a single-entry log query
/// with exactly that format, with the pager suppressed so raw output
/// reaches the template.
fn log_format_request(format: &String) -> (req: CommandRequest)
    ensures
        req.args@.len() == 4,
        req.args@[0]@ == "git"@,
        req.args@[1]@ == "log"@,
        req.args@[2]@ == "-1"@,
        req.args@[3]@ == "--format="@ + format@,
        req.suppress_pager == true,
{
    let mut args: Vec<String> = Vec::new();
    args.push(String::from_str("git"));
    args.push(String::from_str("log"));
    args.push(String::from_str("-1"));
    let mut fmt_arg = String::from_str("--format=");
    fmt_arg.append(format.as_str());
    args.push(fmt_arg);
    CommandRequest { args, suppress_pager: true }
}

/// What one helper query's outcome contributes, fixed for every outcome: a
/// run that succeeded contributes exactly its output trimmed of surrounding
/// whitespace, and each failure becomes exactly the command-error message,
/// naming the attempted command line, that aborts the render.
pub fn helper_outcome_text(outcome: ProcessResult, raw_command: String) -> (r: Result<
    String,
    String,
>)
    ensures
        match outcome {
            ProcessResult::StartFailed(m) => (r matches Err(t) && t@ == error_message_spec(
                Error::CommandError(raw_command, m),
            )),
            ProcessResult::Ran(out) => {
                if !out.status_ok {
                    r matches Err(t) && t@ == error_message_spec(
                        Error::CommandFailure(raw_command, out.detail),
                    )
                } else {
                    match out.stdout {
                        Option::None => (r matches Err(t) && t@ == error_message_spec(
                            Error::CommandOutputParsingError,
                        )),
                        Option::Some(o) => (r matches Ok(s) && s@ == trim_spec(o@)),
                    }
                }
            },
        },
{
    let ghost oc = outcome;
    let ghost raw = raw_command;
    let result = process_output(outcome, raw_command);
    match result {
        Ok(s) => Ok(s),
        Err(e) => {
            let ghost ge = e;
            let m = e.message();
            proof {
                match oc {
                    ProcessResult::StartFailed(sm) => {
                        assert(ge matches Error::CommandError(c, m2) && c@ == raw@ && m2@
                            == sm@);
                    },
                    ProcessResult::Ran(out) => {
                        if !out.status_ok {
                            assert(ge matches Error::CommandFailure(c, d) && c@ == raw@ && d@
                                == out.detail@);
                        }
                    },
                }
            }
            Err(m)
        },
    }
}

/// Decides one helper invocation: a usage error for a missing or non-string
/// argument, otherwise one fresh log query whose trimmed output is the text
/// to splice in, and whose failure is the message that aborts the render.
pub fn git_log_fmt_helper<R: CommandRunner>(runner: &R, arg: HelperArg) -> (r: Result<
    String,
    String,
>)
    ensures
        arg is Missing ==> (r matches Err(m) && m@ == helper_missing_message()),
        arg is NotString ==> (r matches Err(m) && m@ == helper_type_message()),
        arg is Format ==> (r matches Ok(s) ==> s@ == trim_spec(s@)),
        arg matches HelperArg::Format(f) ==> (r matches Err(m) ==> exists|e: Error|
            is_command_error(e, "git log -1 --format="@ + f@) && m@ == error_message_spec(e)),
{
    match arg {
        HelperArg::Missing => Err(String::from_str("git_log_format: one argument expected")),
        HelperArg::NotString => Err(
            String::from_str("git_log_format: only string argument is accepted"),
        ),
        HelperArg::Format(format) => {
            let req = log_format_request(&format);
            let mut raw = String::from_str("git log -1 --format=");
            raw.append(format.as_str());
            let ghost raws = raw;
            let outcome = runner.run(&req);
            let ghost oc = outcome;
            let r = helper_outcome_text(outcome, raw);
            proof {
                match oc {
                    ProcessResult::StartFailed(m) => {
                        let e = Error::CommandError(raws, m);
                        assert(is_command_error(e, "git log -1 --format="@ + format@));
                        assert(r matches Err(t) && t@ == error_message_spec(e));
                    },
                    ProcessResult::Ran(out) => {
                        if !out.status_ok {
                            let e = Error::CommandFailure(raws, out.detail);
                            assert(is_command_error(e, "git log -1 --format="@ + format@));
                            assert(r matches Err(t) && t@ == error_message_spec(e));
                        } else {
                            match out.stdout {
                                Option::None => {
                                    let e = Error::CommandOutputParsingError;
                                    assert(is_command_error(
                                        e,
                                        "git log -1 --format="@ + format@,
                                    ));
                                    assert(r matches Err(t) && t@ == error_message_spec(e));
                                },
                                Option::Some(o) => {
                                    lemma_trim_idempotent(o@);
                                },
                            }
                        }
                    },
                }
            }
            r
        },
    }
}

} // verus!
