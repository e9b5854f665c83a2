use git_rev::jsonfmt::context_json;
use git_rev::jsonfmt::context_json_pretty;
use git_rev::parse_extra_vars;
use git_rev::create_context;
use git_rev::Context;
use git_rev::ContextValue;
use git_rev::Error;
use git_rev::ExitStatus;
use git_rev::ExtraVars;
use git_rev::GitInfo;
use git_rev::JsonError;
use git_rev::Opts;
use git_rev::TemplateError;

fn sample_info() -> GitInfo {
    GitInfo {
        revision: "0123abcd0123abcd".to_string(),
        rev_short: "0123abc".to_string(),
        branch: "main".to_string(),
        tags: vec!["v1.0".to_string(), "stable".to_string()],
    }
}

fn entry_key(ctx: &Context, i: usize) -> &str {
    ctx.entries[i].0.as_str()
}

#[test]
fn context_places_repository_fields_under_fixed_keys() {
    let env = vec![("HOME".to_string(), "/root".to_string())];
    let ctx = create_context(&sample_info(), ExtraVars::Absent, env);
    assert_eq!(ctx.entries.len(), 6);
    assert_eq!(entry_key(&ctx, 0), "revision");
    assert_eq!(entry_key(&ctx, 1), "rev_short");
    assert_eq!(entry_key(&ctx, 2), "branch");
    assert_eq!(entry_key(&ctx, 3), "tags");
    assert_eq!(entry_key(&ctx, 4), "env");
    assert_eq!(entry_key(&ctx, 5), "extra");
    match &ctx.entries[0].1 {
        ContextValue::Text(s) => assert_eq!(s, "0123abcd0123abcd"),
        _ => panic!("revision must be a text value"),
    }
    match &ctx.entries[3].1 {
        ContextValue::TextList(l) => assert_eq!(l, &vec!["v1.0".to_string(), "stable".to_string()]),
        _ => panic!("tags must be a list value"),
    }
}

#[test]
fn extra_stays_nested_and_never_reaches_top_level() {
    let raw = "{\"revision\":\"overwritten\",\"name\":\"x\"}".to_string();
    let extra = match parse_extra_vars(&Some(raw.clone())) {
        Ok(e) => e,
        Err(_) => panic!("an object must be accepted"),
    };
    let ctx = create_context(&sample_info(), extra, Vec::new());
    assert_eq!(ctx.entries.len(), 6);
    match &ctx.entries[0].1 {
        ContextValue::Text(s) => assert_eq!(s, "0123abcd0123abcd"),
        _ => panic!("revision must be a text value"),
    }
    match &ctx.entries[5].1 {
        ContextValue::ObjectText(t) => assert_eq!(t, &raw),
        _ => panic!("extra must hold the supplied object text"),
    }
}

#[test]
fn extra_vars_absent_becomes_empty_object() {
    match parse_extra_vars(&None) {
        Ok(ExtraVars::Absent) => {}
        _ => panic!("absent extra vars must be accepted as absent"),
    }
    let ctx = create_context(&sample_info(), ExtraVars::Absent, Vec::new());
    match &ctx.entries[5].1 {
        ContextValue::ObjectText(t) => assert_eq!(t, "{}"),
        _ => panic!("extra must default to the empty object"),
    }
}

#[test]
fn extra_vars_array_is_rejected() {
    match parse_extra_vars(&Some("[1,2,3]".to_string())) {
        Err(Error::JsonError(JsonError::NotObject)) => {}
        _ => panic!("an array must be rejected as not an object"),
    }
}

#[test]
fn extra_vars_scalar_is_rejected() {
    match parse_extra_vars(&Some("true".to_string())) {
        Err(Error::JsonError(JsonError::NotObject)) => {}
        _ => panic!("a scalar must be rejected as not an object"),
    }
}

#[test]
fn extra_vars_malformed_text_is_rejected_with_parser_diagnostic() {
    match parse_extra_vars(&Some("{\"a\":".to_string())) {
        Err(Error::JsonError(JsonError::Error(m))) => assert!(!m.is_empty()),
        _ => panic!("malformed text must be rejected with the parser's diagnostic"),
    }
}

#[test]
fn extra_vars_object_is_accepted_whole() {
    match parse_extra_vars(&Some("{\"a\":1}".to_string())) {
        Ok(ExtraVars::Object(t)) => assert_eq!(t, "{\"a\":1}"),
        _ => panic!("an object must be accepted whole"),
    }
}

#[test]
fn context_json_renders_small_context_exactly() {
    let ctx = Context {
        entries: vec![
            ("a".to_string(), ContextValue::Text("x\ny".to_string())),
            ("b".to_string(), ContextValue::TextList(vec!["p".to_string(), "q".to_string()])),
            (
                "c".to_string(),
                ContextValue::Table(vec![("k".to_string(), "v".to_string())]),
            ),
            ("d".to_string(), ContextValue::ObjectText("{\"z\":9}".to_string())),
        ],
    };
    assert_eq!(
        context_json(&ctx),
        "{\"a\":\"x\\ny\",\"b\":[\"p\",\"q\"],\"c\":{\"k\":\"v\"},\"d\":{\"z\":9}}"
    );
}

#[test]
fn context_json_escapes_quotes_backslashes_and_controls() {
    let ctx = Context {
        entries: vec![(
            "a".to_string(),
            ContextValue::Text("q\"b\\t\tu\u{1}".to_string()),
        )],
    };
    assert_eq!(context_json(&ctx), "{\"a\":\"q\\\"b\\\\t\\tu\\u0001\"}");
}

#[test]
fn pretty_dump_is_valid_json_with_the_same_keys() {
    let env = vec![
        ("HOME".to_string(), "/root".to_string()),
        ("TERM".to_string(), "dumb".to_string()),
    ];
    let extra = parse_extra_vars(&Some("{\"n\":[1,2]}".to_string())).unwrap();
    let ctx = create_context(&sample_info(), extra, env);
    let dump = context_json_pretty(&ctx);
    let parsed: serde_json::Value = serde_json::from_str(&dump).unwrap();
    let obj = parsed.as_object().unwrap();
    let mut keys: Vec<&str> = obj.keys().map(|k| k.as_str()).collect();
    keys.sort();
    assert_eq!(keys, vec!["branch", "env", "extra", "rev_short", "revision", "tags"]);
    assert_eq!(obj["revision"].as_str().unwrap(), "0123abcd0123abcd");
    assert_eq!(obj["env"]["HOME"].as_str().unwrap(), "/root");
    assert_eq!(obj["extra"]["n"][1].as_i64().unwrap(), 2);
}

#[test]
fn pretty_dump_has_one_member_per_line() {
    let ctx = Context {
        entries: vec![
            ("a".to_string(), ContextValue::Text("x".to_string())),
            ("b".to_string(), ContextValue::Text("y".to_string())),
        ],
    };
    assert_eq!(context_json_pretty(&ctx), "{\n  \"a\": \"x\",\n  \"b\": \"y\"\n}");
}

#[test]
fn compact_dump_of_built_context_parses_back() {
    let extra = parse_extra_vars(&Some("{\"deep\":{\"list\":[true,null]}}".to_string())).unwrap();
    let env = vec![("PATH".to_string(), "/usr/bin:/bin".to_string())];
    let ctx = create_context(&sample_info(), extra, env);
    let text = context_json(&ctx);
    let parsed: serde_json::Value = serde_json::from_str(&text).unwrap();
    assert_eq!(parsed["tags"][0].as_str().unwrap(), "v1.0");
    assert_eq!(parsed["extra"]["deep"]["list"][0].as_bool().unwrap(), true);
}

#[test]
fn exit_code_is_zero_on_success_and_fixed_on_failure() {
    assert_eq!(ExitStatus::Success.exit_code(), 0);
    let failed = ExitStatus::Error(Error::CommandOutputParsingError);
    assert_eq!(failed.exit_code(), 9);
}

#[test]
fn exit_status_message_is_empty_on_success() {
    assert_eq!(ExitStatus::Success.message(), "");
}

#[test]
fn error_messages_name_the_failing_stage() {
    let e = Error::CommandError("git rev-parse HEAD".to_string(), "boom".to_string());
    assert_eq!(e.message(), "Failed to run command 'git rev-parse HEAD'. boom");
    let e = Error::CommandFailure("git rev-parse HEAD".to_string(), "fatal: bad".to_string());
    assert_eq!(e.message(), "Failed to run command 'git rev-parse HEAD'.\nfatal: bad");
    let e = Error::CommandOutputParsingError;
    assert_eq!(e.message(), "Failed to parse command output");
    let e = Error::TemplateError(TemplateError::IOError("denied".to_string()));
    assert_eq!(e.message(), "Failed to render template. denied");
    let e = Error::OutputError("disk full".to_string());
    assert_eq!(e.message(), "Failed to write the output. disk full");
    let e = Error::JsonError(JsonError::NotObject);
    assert_eq!(e.message(), "Failed to parse extra vars. JSON Object expected");
}

#[test]
fn stdout_sink_appends_one_line_break() {
    assert_eq!(git_rev::sink_stdout_text(&"out".to_string(), false), "out\n");
}

#[test]
fn stdout_sink_emits_empty_output_with_its_line_break() {
    assert_eq!(git_rev::sink_stdout_text(&String::new(), false), "\n");
}

#[test]
fn stdout_sink_banners_the_output_in_debug_mode() {
    let expected = format!("\n\n{}\nout\n", "#".repeat(80));
    assert_eq!(git_rev::sink_stdout_text(&"out".to_string(), true), expected);
}

#[test]
fn opts_start_empty() {
    let opts = Opts::new();
    assert_eq!(opts.template, "");
    assert!(opts.output.is_none());
    assert!(opts.tag_pattern.is_none());
    assert!(opts.extra_vars.is_none());
    assert!(!opts.debug);
    assert!(!opts.show_version);
    assert!(opts.short.is_none());
}
