//! The Metadata Source: four independent queries against the
//! version-control tool, each one command run through the caller's
//! [`CommandRunner`], its captured output trimmed and, for tag listings,
//! split into lines. Any one query failing aborts the whole retrieval.
use vstd::prelude::*;

use crate::Error;
use crate::GitInfo;
use crate::runner::CommandRequest;
use crate::runner::CommandRunner;
use crate::runner::ProcessResult;
use crate::runner::process_output;
use crate::text::dec_str_spec;
use crate::text::lemma_tags_filter_items;
use crate::text::lemma_views_strings_push;
use crate::text::split_char_spec;
use crate::text::tag_lines;
use crate::text::tags_filter_spec;
use crate::text::tags_spec;
use crate::text::trim_spec;
use crate::text::usize_string;
use crate::text::views_of_strings;
use crate::text::lemma_trim_idempotent;

verus! {

/// Whether an error is one a command query can produce, carrying the given
/// command line where it names one.
pub open spec fn is_command_error(e: Error, raw: Seq<char>) -> bool {
    match e {
        Error::CommandError(c, _) => c@ == raw,
        Error::CommandFailure(c, _) => c@ == raw,
        Error::CommandOutputParsingError => true,
        _ => false,
    }
}

/// Runs one built request and interprets its outcome; the query's result is
/// a trimmed text or a command error naming the given command line.
pub(crate) fn run_query<R: CommandRunner>(runner: &R, request: &CommandRequest, raw_command: String)
    -> (r: Result<String, Error>)
    ensures
        r matches Ok(s) ==> s@ == trim_spec(s@),
        r matches Err(e) ==> is_command_error(e, raw_command@),
{
    let outcome = runner.run(request);
    let ghost o = outcome;
    let r = process_output(outcome, raw_command);
    proof {
        match o {
            ProcessResult::Ran(out) => {
                if out.status_ok {
                    match out.stdout {
                        Option::Some(s) => {
                            lemma_trim_idempotent(s@);
                        },
                        Option::None => {},
                    }
                }
            },
            ProcessResult::StartFailed(_) => {},
        }
    }
    r
}

fn push_arg(args: &mut Vec<String>, arg: &str)
    ensures
        views_of_strings(final(args)@) == views_of_strings(old(args)@).push(arg@),
{
    let pushed = String::from_str(arg);
    let ghost before = args@;
    args.push(pushed);
    proof {
        lemma_views_strings_push(before, pushed);
    }
}

/// The command that queries the full revision identifier.
fn rev_parse_request() -> (req: CommandRequest)
    ensures
        views_of_strings(req.args@) == seq!["git"@, "rev-parse"@, "HEAD"@],
        req.suppress_pager == false,
{
    let mut args: Vec<String> = Vec::new();
    proof {
        assert(views_of_strings(args@) =~~= Seq::<Seq<char>>::empty());
    }
    push_arg(&mut args, "git");
    push_arg(&mut args, "rev-parse");
    push_arg(&mut args, "HEAD");
    proof {
        assert(views_of_strings(args@) =~~= seq!["git"@, "rev-parse"@, "HEAD"@]);
    }
    CommandRequest { args, suppress_pager: false }
}

/// The full identifier of the current revision, trimmed.
pub fn git_rev_parse<R: CommandRunner>(runner: &R) -> (r: Result<String, Error>)
    ensures
        r matches Ok(s) ==> s@ == trim_spec(s@),
        r matches Err(e) ==> is_command_error(e, "git rev-parse HEAD"@),
{
    let request = rev_parse_request();
    run_query(runner, &request, String::from_str("git rev-parse HEAD"))
}

/// The abbreviation argument handed to the revision query: the tool's own
/// default when no length is given, otherwise a request for exactly that
/// many characters.
pub open spec fn short_arg_spec(short: Option<usize>) -> Seq<char> {
    match short {
        Option::None => "--short"@,
        Option::Some(n) => "--short="@ + dec_str_spec(n as int),
    }
}

fn short_arg(short: &Option<usize>) -> (arg: String)
    ensures
        arg@ == short_arg_spec(*short),
{
    match short {
        Option::None => String::from_str("--short"),
        Option::Some(short_len) => {
            let mut opt = String::from_str("--short=");
            let len_text = usize_string(*short_len);
            opt.append(len_text.as_str());
            opt
        },
    }
}

/// The command that queries the abbreviated revision identifier, with the
/// requested abbreviation.
fn rev_parse_short_request(short: &Option<usize>) -> (req: CommandRequest)
    ensures
        views_of_strings(req.args@) == seq![
            "git"@,
            "rev-parse"@,
            short_arg_spec(*short),
            "HEAD"@,
        ],
        req.suppress_pager == false,
{
    let mut args: Vec<String> = Vec::new();
    proof {
        assert(views_of_strings(args@) =~~= Seq::<Seq<char>>::empty());
    }
    push_arg(&mut args, "git");
    push_arg(&mut args, "rev-parse");
    let abbrev = short_arg(short);
    let ghost before = args@;
    args.push(abbrev);
    proof {
        lemma_views_strings_push(before, abbrev);
    }
    push_arg(&mut args, "HEAD");
    proof {
        assert(views_of_strings(args@) =~~= seq![
            "git"@,
            "rev-parse"@,
            short_arg_spec(*short),
            "HEAD"@,
        ]);
    }
    CommandRequest { args, suppress_pager: false }
}

/// The abbreviated identifier of the current revision, trimmed. Without a
/// length the tool's own default abbreviation is requested; with one,
/// exactly that many characters are.
pub fn git_rev_parse_short<R: CommandRunner>(runner: &R, short: &Option<usize>) -> (r: Result<
    String,
    Error,
>)
    ensures
        r matches Ok(s) ==> s@ == trim_spec(s@),
        r matches Err(e) ==> is_command_error(e, "git rev-parse --short HEAD"@),
{
    let request = rev_parse_short_request(short);
    run_query(runner, &request, String::from_str("git rev-parse --short HEAD"))
}

/// The command that queries the branch's symbolic name.
fn branch_request() -> (req: CommandRequest)
    ensures
        views_of_strings(req.args@) == seq!["git"@, "rev-parse"@, "--abbrev-ref"@, "HEAD"@],
        req.suppress_pager == false,
{
    let mut args: Vec<String> = Vec::new();
    proof {
        assert(views_of_strings(args@) =~~= Seq::<Seq<char>>::empty());
    }
    push_arg(&mut args, "git");
    push_arg(&mut args, "rev-parse");
    push_arg(&mut args, "--abbrev-ref");
    push_arg(&mut args, "HEAD");
    proof {
        assert(views_of_strings(args@) =~~= seq![
            "git"@,
            "rev-parse"@,
            "--abbrev-ref"@,
            "HEAD"@,
        ]);
    }
    CommandRequest { args, suppress_pager: false }
}

/// The symbolic name of the current branch, trimmed.
pub fn git_branch<R: CommandRunner>(runner: &R) -> (r: Result<String, Error>)
    ensures
        r matches Ok(s) ==> s@ == trim_spec(s@),
        r matches Err(e) ==> is_command_error(e, "git rev-parse --abbrev-ref HEAD"@),
{
    let request = branch_request();
    run_query(runner, &request, String::from_str("git rev-parse --abbrev-ref HEAD"))
}

/// The command that queries the tags pointing at the current revision, with
/// the caller's filter glob passed through as the last argument.
fn tags_request(filter: &Option<String>) -> (req: CommandRequest)
    ensures
        views_of_strings(req.args@) == (match filter {
            Option::None => seq!["git"@, "tag"@, "-l"@, "--points-at"@, "HEAD"@],
            Option::Some(p) => seq!["git"@, "tag"@, "-l"@, "--points-at"@, "HEAD"@, p@],
        }),
        req.suppress_pager == false,
{
    let mut args: Vec<String> = Vec::new();
    proof {
        assert(views_of_strings(args@) =~~= Seq::<Seq<char>>::empty());
    }
    push_arg(&mut args, "git");
    push_arg(&mut args, "tag");
    push_arg(&mut args, "-l");
    push_arg(&mut args, "--points-at");
    push_arg(&mut args, "HEAD");
    match filter {
        Option::None => {
            proof {
                assert(views_of_strings(args@) =~~= seq![
                    "git"@,
                    "tag"@,
                    "-l"@,
                    "--points-at"@,
                    "HEAD"@,
                ]);
            }
        },
        Option::Some(tag_pattern) => {
            let pattern = tag_pattern.clone();
            let ghost before = args@;
            args.push(pattern);
            proof {
                lemma_views_strings_push(before, pattern);
                assert(views_of_strings(args@) =~~= seq![
                    "git"@,
                    "tag"@,
                    "-l"@,
                    "--points-at"@,
                    "HEAD"@,
                    tag_pattern@,
                ]);
            }
        },
    }
    CommandRequest { args, suppress_pager: false }
}

/// The tags pointing at the current revision, optionally filtered by a
/// glob: the listing's lines, trimmed, empty ones dropped, order kept.
pub fn git_tags<R: CommandRunner>(runner: &R, filter: &Option<String>) -> (r: Result<
    Vec<String>,
    Error,
>)
    ensures
        r matches Ok(tags) ==> forall|i: int|
            0 <= i < tags@.len() ==> (#[trigger] tags@[i])@.len() > 0 && tags@[i]@ == trim_spec(
                tags@[i]@,
            ),
        r matches Err(e) ==> is_command_error(
            e,
            match filter {
                Option::None => "git tag -l --points-at HEAD"@,
                Option::Some(p) => "git tag -l --points-at HEAD "@ + p@,
            },
        ),
{
    let request = tags_request(filter);
    let raw_command = match filter {
        Option::None => String::from_str("git tag -l --points-at HEAD"),
        Option::Some(tag_pattern) => {
            let mut raw = String::from_str("git tag -l --points-at HEAD ");
            raw.append(tag_pattern.as_str());
            raw
        },
    };
    match run_query(runner, &request, raw_command) {
        Err(e) => Err(e),
        Ok(listing) => {
            let tags = tag_lines(listing.as_str());
            proof {
                assert(listing@ == trim_spec(listing@));
                assert(views_of_strings(tags@) == tags_spec(trim_spec(listing@)));
                lemma_tags_filter_items(split_char_spec(listing@, '\n'));
                assert forall|i: int| 0 <= i < tags@.len() implies (#[trigger] tags@[i])@.len()
                    > 0 && tags@[i]@ == trim_spec(tags@[i]@) by {
                    assert(views_of_strings(tags@)[i] == tags@[i]@);
                    assert(views_of_strings(tags@)[i] == tags_spec(listing@)[i]);
                    assert(tags_spec(listing@)[i] == tags_filter_spec(
                        split_char_spec(listing@, '\n'),
                    )[i]);
                }
            }
            Ok(tags)
        },
    }
}

/// Gathers the repository facts in one pass: revision, abbreviated
/// revision, branch and tags, in that order; the first query to fail aborts
/// the retrieval with its own error, and there is no partial result.
pub fn git_info<R: CommandRunner>(runner: &R, tag_filter: &Option<String>, short: &Option<usize>)
    -> (r: Result<GitInfo, Error>)
    ensures
        r matches Ok(info) ==> {
            &&& info.revision@ == trim_spec(info.revision@)
            &&& info.rev_short@ == trim_spec(info.rev_short@)
            &&& info.branch@ == trim_spec(info.branch@)
            &&& forall|i: int|
                0 <= i < info.tags@.len() ==> (#[trigger] info.tags@[i])@.len() > 0
                    && info.tags@[i]@ == trim_spec(info.tags@[i]@)
        },
        r matches Err(e) ==> e is CommandError || e is CommandFailure
            || e is CommandOutputParsingError,
{
    let rev = match git_rev_parse(runner) {
        Ok(s) => s,
        Err(e) => {
            return Err(e);
        },
    };
    let rev_short = match git_rev_parse_short(runner, short) {
        Ok(s) => s,
        Err(e) => {
            return Err(e);
        },
    };
    let branch = match git_branch(runner) {
        Ok(s) => s,
        Err(e) => {
            return Err(e);
        },
    };
    let tags = match git_tags(runner, tag_filter) {
        Ok(t) => t,
        Err(e) => {
            return Err(e);
        },
    };
    Ok(GitInfo { revision: rev, rev_short, branch, tags })
}

} // verus!
