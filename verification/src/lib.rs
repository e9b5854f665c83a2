//! Renders a text template against the state of a version-control checkout:
//! the current revision, an abbreviated revision, the branch, and the tags
//! pointing at the revision, merged with a snapshot of the process
//! environment and an optional caller-supplied JSON object.
//!
//! Every external command runs behind the [`runner::CommandRunner`]
//! capability, so the decision logic here is independent of process
//! plumbing; a thin binary supplies the real runner, the file reads and the
//! output sink.
pub mod exec;
pub mod hbs_helper;
pub mod jsonfmt;
pub mod render;
pub mod runner;
pub mod text;

use vstd::prelude::*;

use crate::runner::CommandRunner;

verus! {

/// The command-line options, populated once by the caller and read-only
/// thereafter.
#[derive(Debug)]
pub struct Opts {
    pub template: String,
    pub output: Option<String>,
    pub tag_pattern: Option<String>,
    pub extra_vars: Option<String>,
    pub debug: bool,
    pub show_version: bool,
    pub short: Option<usize>,
}

impl Opts {
    pub fn new() -> (opts: Opts)
        ensures
            opts.template@ == Seq::<char>::empty(),
            opts.output is None,
            opts.tag_pattern is None,
            opts.extra_vars is None,
            opts.debug == false,
            opts.show_version == false,
            opts.short is None,
    {
        Opts {
            template: String::new(),
            output: None,
            tag_pattern: None,
            extra_vars: None,
            debug: false,
            show_version: false,
            short: None,
        }
    }
}

/// A failure of the template stage: the template file could not be read, the
/// template source did not compile, or rendering failed.
#[derive(Debug)]
pub enum TemplateError {
    IOError(String),
    TemplateError(String),
    RenderError(String),
}

/// A failure of extra-vars parsing: the supplied text was not valid JSON, or
/// it was valid JSON but not an object.
#[derive(Debug)]
pub enum JsonError {
    NotObject,
    Error(String),
}

/// Every failure the tool can report, one variant per stage.
#[derive(Debug)]
pub enum Error {
    /// A query process could not be launched; carries the command line and
    /// the launch failure.
    CommandError(String, String),
    /// A query process exited with failure; carries the command line and the
    /// captured diagnostic text.
    CommandFailure(String, String),
    /// A query process produced output that was not valid text.
    CommandOutputParsingError,
    TemplateError(TemplateError),
    /// The output file could not be written.
    OutputError(String),
    JsonError(JsonError),
}

pub open spec fn template_error_message_spec(e: TemplateError) -> Seq<char> {
    match e {
        TemplateError::IOError(m) => m@,
        TemplateError::TemplateError(m) => m@,
        TemplateError::RenderError(m) => m@,
    }
}

pub open spec fn json_error_message_spec(e: JsonError) -> Seq<char> {
    match e {
        JsonError::NotObject => "JSON Object expected"@,
        JsonError::Error(m) => m@,
    }
}

pub open spec fn error_message_spec(e: Error) -> Seq<char> {
    match e {
        Error::CommandError(c, m) => "Failed to run command '"@ + c@ + "'. "@ + m@,
        Error::CommandFailure(c, d) => "Failed to run command '"@ + c@ + "'.\n"@ + d@,
        Error::CommandOutputParsingError => "Failed to parse command output"@,
        Error::TemplateError(t) => "Failed to render template. "@
            + template_error_message_spec(t),
        Error::OutputError(m) => "Failed to write the output. "@ + m@,
        Error::JsonError(j) => "Failed to parse extra vars. "@ + json_error_message_spec(j),
    }
}

impl TemplateError {
    /// The one-line diagnostic for this failure.
    pub fn message(&self) -> (r: String)
        ensures
            r@ == template_error_message_spec(*self),
    {
        match self {
            TemplateError::IOError(m) => m.clone(),
            TemplateError::TemplateError(m) => m.clone(),
            TemplateError::RenderError(m) => m.clone(),
        }
    }
}

impl JsonError {
    /// The one-line diagnostic for this failure.
    pub fn message(&self) -> (r: String)
        ensures
            r@ == json_error_message_spec(*self),
    {
        match self {
            JsonError::NotObject => String::from_str("JSON Object expected"),
            JsonError::Error(m) => m.clone(),
        }
    }
}

impl Error {
    /// The one-line diagnostic naming the stage that failed and why.
    pub fn message(&self) -> (r: String)
        ensures
            r@ == error_message_spec(*self),
    {
        match self {
            Error::CommandError(c, m) => {
                let mut r = String::from_str("Failed to run command '");
                r.append(c.as_str());
                r.append("'. ");
                r.append(m.as_str());
                r
            },
            Error::CommandFailure(c, d) => {
                let mut r = String::from_str("Failed to run command '");
                r.append(c.as_str());
                r.append("'.\n");
                r.append(d.as_str());
                r
            },
            Error::CommandOutputParsingError => String::from_str(
                "Failed to parse command output",
            ),
            Error::TemplateError(t) => {
                let mut r = String::from_str("Failed to render template. ");
                let tail = t.message();
                r.append(tail.as_str());
                r
            },
            Error::OutputError(m) => {
                let mut r = String::from_str("Failed to write the output. ");
                r.append(m.as_str());
                r
            },
            Error::JsonError(j) => {
                let mut r = String::from_str("Failed to parse extra vars. ");
                let tail = j.message();
                r.append(tail.as_str());
                r
            },
        }
    }
}

/// The whole run's outcome, as the process reports it.
#[derive(Debug)]
pub enum ExitStatus {
    Success,
    Error(Error),
}

impl ExitStatus {
    /// The process exit code: zero on success, one fixed non-zero code on
    /// any failure.
    pub fn exit_code(&self) -> (code: i32)
        ensures
            code == 0 <==> self is Success,
            self is Error ==> code == 9,
    {
        match self {
            ExitStatus::Success => 0,
            ExitStatus::Error(_) => 9,
        }
    }

    /// The diagnostic to print: empty on success, the error's message
    /// otherwise.
    pub fn message(&self) -> (r: String)
        ensures
            match self {
                ExitStatus::Success => r@ == Seq::<char>::empty(),
                ExitStatus::Error(e) => r@ == error_message_spec(*e),
            },
    {
        match self {
            ExitStatus::Success => String::new(),
            ExitStatus::Error(e) => e.message(),
        }
    }
}

/// The repository facts gathered once per invocation: full revision,
/// abbreviated revision, branch name, and the tags pointing at the revision.
#[derive(Debug)]
pub struct GitInfo {
    pub revision: String,
    pub rev_short: String,
    pub branch: String,
    pub tags: Vec<String>,
}

/// A value held by the context: a string, a list of strings, a table of
/// string pairs, or a ready-made JSON object source text spliced in whole.
#[derive(Debug)]
pub enum ContextValue {
    Text(String),
    TextList(Vec<String>),
    Table(Vec<(String, String)>),
    ObjectText(String),
}

/// The merged, ordered mapping fed into the template: repository fields
/// first, then the environment snapshot, then the caller's extra variables
/// under their own reserved key.
#[derive(Debug)]
pub struct Context {
    pub entries: Vec<(String, ContextValue)>,
}

impl Context {
    /// The keys, in insertion order.
    pub open spec fn keys(self) -> Seq<Seq<char>> {
        self.entries@.map_values(|e: (String, ContextValue)| e.0@)
    }
}

/// The caller's extra variables: absent, or the validated source text of a
/// JSON object.
#[derive(Debug)]
pub enum ExtraVars {
    Absent,
    Object(String),
}

/// The JSON object text the context carries for the extra variables: the
/// validated text, or an empty object when none were supplied.
pub open spec fn extra_vars_text_spec(extra: ExtraVars) -> Seq<char> {
    match extra {
        ExtraVars::Absent => "{}"@,
        ExtraVars::Object(s) => s@,
    }
}

/// Builds the context from the repository facts, the extra variables and the
/// environment snapshot, read once by the caller and passed in whole.
///
/// The repository fields sit under exactly the keys `revision`, `rev_short`,
/// `branch` and `tags` at top level; the environment and the extra variables
/// sit whole under the reserved keys `env` and `extra`, so neither can
/// collide with a repository field, and nothing the caller's JSON defines
/// reaches the top level.
pub fn create_context(git_info: &GitInfo, extra_vars: ExtraVars, env: Vec<(String, String)>)
    -> (ctx: Context)
    ensures
        ctx.keys() =~= seq![
            "revision"@,
            "rev_short"@,
            "branch"@,
            "tags"@,
            "env"@,
            "extra"@,
        ],
        ctx.entries@[0].1 == ContextValue::Text(git_info.revision),
        ctx.entries@[1].1 == ContextValue::Text(git_info.rev_short),
        ctx.entries@[2].1 == ContextValue::Text(git_info.branch),
        ctx.entries@[3].1 matches ContextValue::TextList(l) && l@ == git_info.tags@,
        ctx.entries@[4].1 matches ContextValue::Table(t) && t@ == env@,
        ctx.entries@[5].1 matches ContextValue::ObjectText(t)
            && t@ == extra_vars_text_spec(extra_vars),
{
    let extra_text = match extra_vars {
        ExtraVars::Absent => String::from_str("{}"),
        ExtraVars::Object(s) => s,
    };
    let mut entries: Vec<(String, ContextValue)> = Vec::new();
    entries.push((String::from_str("revision"), ContextValue::Text(git_info.revision.clone())));
    entries.push((String::from_str("rev_short"), ContextValue::Text(git_info.rev_short.clone())));
    entries.push((String::from_str("branch"), ContextValue::Text(git_info.branch.clone())));
    entries.push((String::from_str("tags"), ContextValue::TextList(clone_strings(&git_info.tags))));
    entries.push((String::from_str("env"), ContextValue::Table(env)));
    entries.push((String::from_str("extra"), ContextValue::ObjectText(extra_text)));
    let ctx = Context { entries };
    proof {
        assert(ctx.keys() =~= seq![
            "revision"@,
            "rev_short"@,
            "branch"@,
            "tags"@,
            "env"@,
            "extra"@,
        ]);
    }
    ctx
}

/// What parsing an extra-vars text yields, as a function of the text alone:
/// whether a valid JSON text is an object, or the parser's diagnostic for a
/// malformed one.
pub uninterp spec fn extra_vars_parse_of(s: Seq<char>) -> Result<bool, Seq<char>>;

/// Relies on serde_json's `from_str`, `Value::is_object` and the parse
/// error's rendering: whether a text parses as JSON, whether the parsed
/// value is an object, and the diagnostic for a malformed text are each
/// functions of the text alone.
#[verifier::external_body]
fn classify_extra_vars(s: &str) -> (r: Result<bool, String>)
    ensures
        match r {
            Result::Ok(b) => extra_vars_parse_of(s@) == Result::<bool, Seq<char>>::Ok(b),
            Result::Err(m) => extra_vars_parse_of(s@) matches Err(sm) && m@ == sm,
        },
{
    match serde_json::from_str::<serde_json::Value>(s) {
        Result::Ok(v) => Result::Ok(v.is_object()),
        Result::Err(e) => Result::Err(e.to_string()),
    }
}

/// Validates the caller's extra variables before anything is rendered:
/// absent text is an empty object, a JSON object is accepted whole, and a
/// malformed text or a non-object value is rejected with its own error.
pub fn parse_extra_vars(opt: &Option<String>) -> (r: Result<ExtraVars, Error>)
    ensures
        match opt {
            Option::None => r matches Ok(e) && e is Absent,
            Option::Some(s) => match extra_vars_parse_of(s@) {
                Result::Ok(true) => r matches Ok(e) && e matches ExtraVars::Object(t) && t@
                    == s@,
                Result::Ok(false) => r matches Err(e) && e matches Error::JsonError(j) && j
                    is NotObject,
                Result::Err(m) => r matches Err(e) && e matches Error::JsonError(j) && j
                    matches JsonError::Error(t) && t@ == m,
            },
        },
{
    match opt {
        Option::None => Ok(ExtraVars::Absent),
        Option::Some(raw_json) => match classify_extra_vars(raw_json.as_str()) {
            Ok(is_object) => {
                if is_object {
                    Ok(ExtraVars::Object(raw_json.clone()))
                } else {
                    Err(Error::JsonError(JsonError::NotObject))
                }
            },
            Err(m) => Err(Error::JsonError(JsonError::Error(m))),
        },
    }
}

/// Renders the context against the template source the caller read,
/// registering the dynamic helper before the template so it resolves
/// wherever it appears. Each stage's failure is tied to its own variant: a
/// source the caller could not read becomes the read error, and nothing
/// else does; a context dump the engine's data model refuses becomes one
/// fixed render error; a source that does not compile becomes the compile
/// error carrying the engine's diagnostic; after that, only the render
/// itself, which the live helper queries make runner-dependent, can fail,
/// and only with the render-failure variant.
pub fn render_context<R: CommandRunner + Sync>(
    context: &Context,
    template_source: Result<String, String>,
    runner: &R,
) -> (r: Result<String, Error>)
    ensures
        template_source matches Err(m) ==> (r matches Err(e) && e matches Error::TemplateError(
            t,
        ) && t matches TemplateError::IOError(m2) && m2@ == m@),
        template_source is Ok ==> !(r matches Err(e) && e matches Error::TemplateError(t) && t
            is IOError),
        (template_source is Ok && !render::json_data_of(
            jsonfmt::context_json_spec(*context),
        )) ==> (r matches Err(e) && e matches Error::TemplateError(t) && t
            matches TemplateError::RenderError(m) && m@
            == "the context dump was not accepted as data"@),
        template_source matches Ok(src) ==> render::json_data_of(
            jsonfmt::context_json_spec(*context),
        ) ==> (match render::compile_of(src@) {
            Option::Some(d) => r matches Err(e) && e matches Error::TemplateError(t) && t
                matches TemplateError::TemplateError(m) && m@ == d,
            Option::None => r matches Err(e) ==> (e matches Error::TemplateError(t) && t
                is RenderError),
        }),
        r matches Err(e) ==> e is TemplateError,
{
    match template_source {
        Err(m) => Err(Error::TemplateError(TemplateError::IOError(m))),
        Ok(src) => {
            let data_text = jsonfmt::context_json(context);
            match render::parse_data_value(data_text.as_str()) {
                Option::None => Err(
                    Error::TemplateError(
                        TemplateError::RenderError(
                            String::from_str("the context dump was not accepted as data"),
                        ),
                    ),
                ),
                Option::Some(data) => {
                    let mut hb = render::engine_with_helper(runner);
                    match render::engine_compile(&mut hb, src.as_str()) {
                        Option::Some(m) => Err(
                            Error::TemplateError(TemplateError::TemplateError(m)),
                        ),
                        Option::None => match render::engine_run(&hb, &data) {
                            Ok(s) => Ok(s),
                            Err(m) => Err(Error::TemplateError(TemplateError::RenderError(m))),
                        },
                    }
                },
            }
        },
    }
}

/// The separator banner printed in debug mode: one line of eighty hash
/// marks, visibly dividing the diagnostic dump from the real output on the
/// shared stream.
pub open spec fn banner_spec() -> Seq<char> {
    Seq::new(80, |i: int| '#')
}

/// The bytes the sink sends to standard output when no output path is
/// given: the rendered text with a final line break, in debug mode preceded
/// by a blank line and the separator banner.
pub open spec fn sink_stdout_spec(rendered: Seq<char>, debug: bool) -> Seq<char> {
    if debug {
        "\n\n"@ + banner_spec() + "\n"@ + rendered + "\n"@
    } else {
        rendered + "\n"@
    }
}

/// The exact text the sink writes to standard output for a rendered result
/// when no output path is given; the caller only forwards it. The rendered
/// text itself, unchanged, is what an output file receives instead.
pub fn sink_stdout_text(rendered: &String, debug: bool) -> (r: String)
    ensures
        r@ == sink_stdout_spec(rendered@, debug),
{
    if debug {
        let mut r = String::from_str("\n\n");
        proof {
            assert(r@ =~= "\n\n"@ + banner_spec().subrange(0, 0));
        }
        let mut i: usize = 0;
        while i < 80
            invariant
                i <= 80,
                r@ == "\n\n"@ + banner_spec().subrange(0, i as int),
            decreases 80 - i,
        {
            r.append("#");
            proof {
                reveal_strlit("#");
                assert(r@ =~= "\n\n"@ + banner_spec().subrange(0, i + 1));
            }
            i = i + 1;
        }
        proof {
            assert(banner_spec().subrange(0, 80) =~= banner_spec());
        }
        r.append("\n");
        r.append(rendered.as_str());
        r.append("\n");
        proof {
            assert(r@ =~= sink_stdout_spec(rendered@, true));
        }
        r
    } else {
        let mut r = rendered.clone();
        r.append("\n");
        r
    }
}

/// Gathers everything the template sees: the repository facts, then the
/// validated extra variables, merged with the environment snapshot into the
/// context. The first failing step aborts with its own error and there is
/// no partial context.
pub fn gather_context<R: CommandRunner>(
    runner: &R,
    tag_pattern: &Option<String>,
    short: &Option<usize>,
    extra_vars: &Option<String>,
    env: Vec<(String, String)>,
) -> (r: Result<Context, Error>)
    ensures
        r matches Ok(ctx) ==> ctx.keys() =~= seq![
            "revision"@,
            "rev_short"@,
            "branch"@,
            "tags"@,
            "env"@,
            "extra"@,
        ],
        r matches Ok(ctx) ==> (ctx.entries@[0].1 matches ContextValue::Text(s) && s@
            == crate::text::trim_spec(s@)),
        r matches Ok(ctx) ==> (ctx.entries@[1].1 matches ContextValue::Text(s) && s@
            == crate::text::trim_spec(s@)),
        r matches Ok(ctx) ==> (ctx.entries@[2].1 matches ContextValue::Text(s) && s@
            == crate::text::trim_spec(s@)),
        r matches Ok(ctx) ==> ctx.entries@[5].1 matches ContextValue::ObjectText(t) && (
        match extra_vars {
            Option::None => t@ == "{}"@,
            Option::Some(s) => t@ == s@ && extra_vars_parse_of(s@) == Result::<
                bool,
                Seq<char>,
            >::Ok(true),
        }),
        r matches Err(e) ==> !(e is TemplateError) && !(e is OutputError),
{
    let info = match exec::git_info(runner, tag_pattern, short) {
        Ok(i) => i,
        Err(e) => {
            return Err(e);
        },
    };
    let extra = match parse_extra_vars(extra_vars) {
        Ok(x) => x,
        Err(e) => {
            return Err(e);
        },
    };
    Ok(create_context(&info, extra, env))
}

/// The six top-level keys of a built context are pairwise distinct: the
/// repository fields, the environment and the extra variables sit under
/// different keys, so no insertion can ever overwrite another layer's
/// entry.
pub proof fn lemma_context_keys_distinct(ctx: Context)
    requires
        ctx.keys() =~= seq![
            "revision"@,
            "rev_short"@,
            "branch"@,
            "tags"@,
            "env"@,
            "extra"@,
        ],
    ensures
        forall|i: int, j: int|
            0 <= i < j < ctx.keys().len() ==> ctx.keys()[i] != ctx.keys()[j],
{
    reveal_strlit("revision");
    reveal_strlit("rev_short");
    reveal_strlit("branch");
    reveal_strlit("tags");
    reveal_strlit("env");
    reveal_strlit("extra");
    let ks = ctx.keys();
    assert(ks.len() == 6);
    assert forall|i: int, j: int| 0 <= i < j < ks.len() implies ks[i] != ks[j] by {
        assert(ks[0].len() == 8);
        assert(ks[1].len() == 9);
        assert(ks[2].len() == 6);
        assert(ks[3].len() == 4);
        assert(ks[4].len() == 3);
        assert(ks[5].len() == 5);
    }
}

/// A copy of a list of strings, holding the same character sequences.
fn clone_strings(v: &Vec<String>) -> (r: Vec<String>)
    ensures
        r@ == v@,
{
    let mut r: Vec<String> = Vec::new();
    let mut i: usize = 0;
    while i < v.len()
        invariant
            i <= v@.len(),
            r@ == v@.subrange(0, i as int),
        decreases v@.len() - i,
    {
        r.push(v[i].clone());
        assert(r@ =~= v@.subrange(0, i + 1));
        i = i + 1;
    }
    assert(r@ =~= v@);
    r
}

} // verus!
