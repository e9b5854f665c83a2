use git_rev::create_context;
use git_rev::gather_context;
use git_rev::hbs_helper::git_log_fmt_helper;
use git_rev::hbs_helper::HelperArg;
use git_rev::parse_extra_vars;
use git_rev::render_context;
use git_rev::runner::CommandRequest;
use git_rev::runner::CommandRunner;
use git_rev::runner::ProcessOutput;
use git_rev::runner::ProcessResult;
use git_rev::Context;
use git_rev::ContextValue;
use git_rev::Error;
use git_rev::ExtraVars;
use git_rev::GitInfo;
use git_rev::TemplateError;

/// Answers log-format queries from a fixed table; any other request fails.
struct FormatTableRunner {
    formats: Vec<(String, String)>,
}

impl CommandRunner for FormatTableRunner {
    fn run(&self, request: &CommandRequest) -> ProcessResult {
        assert!(request.suppress_pager, "log-format queries must suppress the pager");
        let last = request.args.last().unwrap();
        for (fmt, reply) in &self.formats {
            if last == &format!("--format={}", fmt) {
                return ProcessResult::Ran(ProcessOutput {
                    status_ok: true,
                    stdout: Some(reply.clone()),
                    detail: String::new(),
                });
            }
        }
        ProcessResult::Ran(ProcessOutput {
            status_ok: false,
            stdout: None,
            detail: "unknown format".to_string(),
        })
    }
}

fn table_runner_for(fmt: &str, reply: &str) -> FormatTableRunner {
    FormatTableRunner { formats: vec![(fmt.to_string(), reply.to_string())] }
}

fn render_sample_info() -> GitInfo {
    GitInfo {
        revision: "fe9c0de11fe9c0de".to_string(),
        rev_short: "fe9c0de".to_string(),
        branch: "release".to_string(),
        tags: vec!["v2.1".to_string()],
    }
}

fn render_sample_context() -> Context {
    create_context(&render_sample_info(), ExtraVars::Absent, Vec::new())
}

#[test]
fn literal_template_renders_byte_for_byte() {
    let runner = FormatTableRunner { formats: Vec::new() };
    let template = "plain text, no substitution at all.\nsecond line\n";
    let out = render_context(&render_sample_context(), Ok(template.to_string()), &runner);
    assert_eq!(out.unwrap(), template);
}

#[test]
fn empty_template_renders_to_the_empty_string() {
    let runner = FormatTableRunner { formats: Vec::new() };
    let out = render_context(&render_sample_context(), Ok(String::new()), &runner);
    assert_eq!(out.unwrap(), "");
}

#[test]
fn revision_substitution_is_exact() {
    let runner = FormatTableRunner { formats: Vec::new() };
    let out = render_context(&render_sample_context(), Ok("{{revision}}".to_string()), &runner);
    assert_eq!(out.unwrap(), "fe9c0de11fe9c0de");
}

#[test]
fn all_repository_fields_are_reachable() {
    let runner = FormatTableRunner { formats: Vec::new() };
    let template = "{{revision}}|{{rev_short}}|{{branch}}|{{#each tags}}{{this}}{{/each}}";
    let out = render_context(&render_sample_context(), Ok(template.to_string()), &runner);
    assert_eq!(out.unwrap(), "fe9c0de11fe9c0de|fe9c0de|release|v2.1");
}

#[test]
fn environment_is_reachable_under_env() {
    let runner = FormatTableRunner { formats: Vec::new() };
    let env = vec![("BUILD_NUMBER".to_string(), "42".to_string())];
    let ctx = create_context(&render_sample_info(), ExtraVars::Absent, env);
    let out = render_context(&ctx, Ok("build {{env.BUILD_NUMBER}}".to_string()), &runner);
    assert_eq!(out.unwrap(), "build 42");
}

#[test]
fn extra_vars_are_reachable_under_extra() {
    let runner = FormatTableRunner { formats: Vec::new() };
    let extra = parse_extra_vars(&Some("{\"name\":\"banner\"}".to_string())).unwrap();
    let ctx = create_context(&render_sample_info(), extra, Vec::new());
    let out = render_context(&ctx, Ok("hello {{extra.name}}".to_string()), &runner);
    assert_eq!(out.unwrap(), "hello banner");
}

#[test]
fn helper_output_lands_at_the_invocation_position() {
    let runner = table_runner_for("%h %s", "abc123 fix bug\n");
    let template = "rev X, last commit: {{git_log_format \"%h %s\"}}!";
    let out = render_context(&render_sample_context(), Ok(template.to_string()), &runner);
    assert_eq!(out.unwrap(), "rev X, last commit: abc123 fix bug!");
}

#[test]
fn helper_without_arguments_fails_the_render() {
    let runner = FormatTableRunner { formats: Vec::new() };
    let out = render_context(
        &render_sample_context(),
        Ok("before {{git_log_format}} after".to_string()),
        &runner,
    );
    match out {
        Err(Error::TemplateError(TemplateError::RenderError(m))) => {
            assert!(m.contains("git_log_format: one argument expected"), "got: {}", m);
        }
        _ => panic!("a helper invocation without arguments must fail the render"),
    }
}

#[test]
fn helper_with_numeric_argument_fails_the_render() {
    let runner = FormatTableRunner { formats: Vec::new() };
    let out = render_context(
        &render_sample_context(),
        Ok("{{git_log_format 5}}".to_string()),
        &runner,
    );
    match out {
        Err(Error::TemplateError(TemplateError::RenderError(m))) => {
            assert!(m.contains("git_log_format: only string argument is accepted"), "got: {}", m);
        }
        _ => panic!("a non-string helper argument must fail the render"),
    }
}

#[test]
fn failing_helper_query_aborts_the_whole_render() {
    let runner = FormatTableRunner { formats: Vec::new() };
    let out = render_context(
        &render_sample_context(),
        Ok("{{git_log_format \"%x\"}}".to_string()),
        &runner,
    );
    match out {
        Err(Error::TemplateError(TemplateError::RenderError(m))) => {
            assert!(m.contains("git log -1 --format=%x"), "got: {}", m);
        }
        _ => panic!("a failing query must abort the render"),
    }
}

#[test]
fn unreadable_template_becomes_the_read_error() {
    let runner = FormatTableRunner { formats: Vec::new() };
    let out = render_context(
        &render_sample_context(),
        Err("No such file or directory".to_string()),
        &runner,
    );
    match out {
        Err(Error::TemplateError(TemplateError::IOError(m))) => {
            assert_eq!(m, "No such file or directory");
        }
        _ => panic!("an unreadable template must become the template read error"),
    }
}

#[test]
fn template_syntax_error_becomes_the_compile_error() {
    let runner = FormatTableRunner { formats: Vec::new() };
    let out = render_context(
        &render_sample_context(),
        Ok("{{#if}}{{/each}}".to_string()),
        &runner,
    );
    match out {
        Err(Error::TemplateError(TemplateError::TemplateError(m))) => assert!(!m.is_empty()),
        _ => panic!("a template that does not compile must become the compile error"),
    }
}

#[test]
fn helper_logic_reports_usage_errors_directly() {
    let runner = FormatTableRunner { formats: Vec::new() };
    match git_log_fmt_helper(&runner, HelperArg::Missing) {
        Err(m) => assert_eq!(m, "git_log_format: one argument expected"),
        Ok(_) => panic!("a missing argument must be a usage error"),
    }
    match git_log_fmt_helper(&runner, HelperArg::NotString) {
        Err(m) => assert_eq!(m, "git_log_format: only string argument is accepted"),
        Ok(_) => panic!("a non-string argument must be a usage error"),
    }
}

#[test]
fn helper_outcome_success_contributes_the_trimmed_output() {
    let outcome = ProcessResult::Ran(ProcessOutput {
        status_ok: true,
        stdout: Some("  abc123 fix bug\n".to_string()),
        detail: String::new(),
    });
    let r = git_rev::hbs_helper::helper_outcome_text(outcome, "git log -1 --format=%s".to_string());
    assert_eq!(r.unwrap(), "abc123 fix bug");
}

#[test]
fn helper_outcome_failures_become_exact_command_messages() {
    let raw = "git log -1 --format=%s".to_string();
    let start_failed = ProcessResult::StartFailed("no git".to_string());
    assert_eq!(
        git_rev::hbs_helper::helper_outcome_text(start_failed, raw.clone()).unwrap_err(),
        "Failed to run command 'git log -1 --format=%s'. no git"
    );
    let bad_exit = ProcessResult::Ran(ProcessOutput {
        status_ok: false,
        stdout: None,
        detail: "fatal: bad format".to_string(),
    });
    assert_eq!(
        git_rev::hbs_helper::helper_outcome_text(bad_exit, raw.clone()).unwrap_err(),
        "Failed to run command 'git log -1 --format=%s'.\nfatal: bad format"
    );
    let undecodable = ProcessResult::Ran(ProcessOutput {
        status_ok: true,
        stdout: None,
        detail: String::new(),
    });
    assert_eq!(
        git_rev::hbs_helper::helper_outcome_text(undecodable, raw).unwrap_err(),
        "Failed to parse command output"
    );
}

#[test]
fn helper_logic_trims_the_query_output() {
    let runner = table_runner_for("%H", "fe9c0de11fe9c0de\n");
    match git_log_fmt_helper(&runner, HelperArg::Format("%H".to_string())) {
        Ok(s) => assert_eq!(s, "fe9c0de11fe9c0de"),
        Err(m) => panic!("the query must succeed, got: {}", m),
    }
}

/// Answers the four metadata queries in order, then log-format queries.
struct PipelineRunner {
    metadata: std::sync::Mutex<Vec<ProcessResult>>,
}

impl CommandRunner for PipelineRunner {
    fn run(&self, _request: &CommandRequest) -> ProcessResult {
        self.metadata.lock().unwrap().remove(0)
    }
}

fn pipeline_ok(stdout: &str) -> ProcessResult {
    ProcessResult::Ran(ProcessOutput {
        status_ok: true,
        stdout: Some(stdout.to_string()),
        detail: String::new(),
    })
}

#[test]
fn gathered_context_renders_end_to_end() {
    let runner = PipelineRunner {
        metadata: std::sync::Mutex::new(vec![
            pipeline_ok("fe9c0de11fe9c0de\n"),
            pipeline_ok("fe9c0de\n"),
            pipeline_ok("release\n"),
            pipeline_ok("v2.1\n"),
        ]),
    };
    let env = vec![("CI".to_string(), "yes".to_string())];
    let ctx = gather_context(&runner, &None, &None, &Some("{\"a\":\"b\"}".to_string()), env)
        .unwrap();
    let out = render_context(
        &ctx,
        Ok("{{branch}}-{{extra.a}}-{{env.CI}}".to_string()),
        &runner,
    );
    assert_eq!(out.unwrap(), "release-b-yes");
}

#[test]
fn gathering_rejects_bad_extra_vars_before_rendering() {
    let runner = PipelineRunner {
        metadata: std::sync::Mutex::new(vec![
            pipeline_ok("fe9c0de11fe9c0de\n"),
            pipeline_ok("fe9c0de\n"),
            pipeline_ok("release\n"),
            pipeline_ok("v2.1\n"),
        ]),
    };
    let out = gather_context(&runner, &None, &None, &Some("[1,2,3]".to_string()), Vec::new());
    match out {
        Err(Error::JsonError(_)) => {}
        _ => panic!("non-object extra vars must be rejected while gathering"),
    }
}

#[test]
fn helper_name_is_the_reserved_one() {
    assert_eq!(git_rev::hbs_helper::helper_name(), "git_log_format");
}

#[test]
fn triple_mustache_substitutes_unescaped() {
    let runner = FormatTableRunner { formats: Vec::new() };
    let ctx = Context {
        entries: vec![("v".to_string(), ContextValue::Text("a&b".to_string()))],
    };
    let out = render_context(&ctx, Ok("{{{v}}}".to_string()), &runner);
    assert_eq!(out.unwrap(), "a&b");
}

#[test]
fn helper_output_is_not_html_escaped() {
    let runner = table_runner_for("%s", "a <fix> & more\n");
    let out = render_context(
        &render_sample_context(),
        Ok("{{git_log_format \"%s\"}}".to_string()),
        &runner,
    );
    assert_eq!(out.unwrap(), "a <fix> & more");
}
