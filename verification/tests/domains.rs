//! Tests of the domain adapters: the test context, hook contexts and
//! inputs, HTTP contexts, and the command-line helpers.

use rumi::args::{
    build_claude_context, build_http_context, detect_domain, parse_claude_args, parse_context_pairs,
    parse_http_args, ClaudeArgs, Domain, HttpArgs,
};
use rumi::claude::{
    compile_hook_matches, ArgumentInput, ArgumentMatch, CwdInput, EventInput, GitBranchInput,
    HookContext, HookEvent, HookInput, HookMatch, SessionIdInput, StringMatch, ToolNameInput,
};
use rumi::http::{
    get_query_param, parse_path_only, parse_query_string, HttpMessage, HttpRequest, MessageInput,
    PathInput,
};
use rumi::testing::{StringInput, TestContext};
use rumi::{
    ContainsMatcher, CoreMatcher, DataInput, ExactMatcher, FieldMatcher, Matcher, MatchingData,
    OnMatch, Predicate, SinglePredicate,
};

fn string_of(v: &str) -> MatchingData {
    MatchingData::String(v.to_string())
}

// ── Test domain ──────────────────────────────────────────────────────────

#[test]
fn test_context_builder() {
    let ctx = TestContext::new().with("foo", "bar").with("baz", "qux");
    assert_eq!(ctx.get("foo"), Some("bar"));
    assert_eq!(ctx.get("baz"), Some("qux"));
    assert_eq!(ctx.get("missing"), None);
}

#[test]
fn test_string_input() {
    let ctx = TestContext::new().with("name", "alice");
    let input = StringInput::new("name");
    assert_eq!(input.get(&ctx), string_of("alice"));
}

#[test]
fn test_string_input_missing_key() {
    let ctx = TestContext::new();
    let input = StringInput::new("missing");
    assert_eq!(input.get(&ctx), MatchingData::Absent);
}

#[test]
fn test_full_matcher() {
    let ctx = TestContext::new().with("role", "admin");

    let matcher: Matcher<StringInput, CoreMatcher, &str> = Matcher::new(
        vec![FieldMatcher::new(
            Predicate::Single(SinglePredicate::new(
                StringInput::new("role"),
                CoreMatcher::Exact(ExactMatcher::new("admin")),
            )),
            OnMatch::Action("allowed"),
        )],
        Some(OnMatch::Action("denied")),
    );

    assert_eq!(matcher.evaluate(&ctx), Some(&"allowed"));
}

// ── Hook contexts and inputs ─────────────────────────────────────────────

#[test]
fn event_input_returns_event_string() {
    let ctx = HookContext::pre_tool_use("Bash");
    assert_eq!(EventInput.get(&ctx), string_of("PreToolUse"));
}

#[test]
fn event_input_all_variants() {
    let cases = vec![
        ("PreToolUse", HookContext::pre_tool_use("X")),
        ("PostToolUse", HookContext::post_tool_use("X")),
        ("Stop", HookContext::stop()),
        ("SubagentStop", HookContext::subagent_stop()),
        ("UserPromptSubmit", HookContext::user_prompt_submit()),
        ("SessionStart", HookContext::session_start()),
        ("SessionEnd", HookContext::session_end()),
        ("PreCompact", HookContext::pre_compact()),
        ("Notification", HookContext::notification()),
    ];
    for (event_name, ctx) in cases {
        assert_eq!(EventInput.get(&ctx), string_of(event_name), "failed for {event_name}");
    }
}

#[test]
fn tool_name_input_returns_tool() {
    let ctx = HookContext::pre_tool_use("Write");
    assert_eq!(ToolNameInput.get(&ctx), string_of("Write"));
}

#[test]
fn tool_name_input_empty_for_non_tool_events() {
    let ctx = HookContext::stop();
    assert_eq!(ToolNameInput.get(&ctx), MatchingData::String(String::new()));
}

#[test]
fn argument_input_returns_value() {
    let ctx = HookContext::pre_tool_use("Bash").with_arg("command", "ls");
    assert_eq!(ArgumentInput::new("command").get(&ctx), string_of("ls"));
}

#[test]
fn argument_input_returns_none_for_missing() {
    let ctx = HookContext::pre_tool_use("Bash");
    assert_eq!(ArgumentInput::new("command").get(&ctx), MatchingData::Absent);
}

#[test]
fn session_id_input() {
    let ctx = HookContext::pre_tool_use("Bash").with_session_id("abc-123");
    assert_eq!(SessionIdInput.get(&ctx), string_of("abc-123"));
}

#[test]
fn cwd_input() {
    let ctx = HookContext::pre_tool_use("Bash").with_cwd("/home/user/project");
    assert_eq!(CwdInput.get(&ctx), string_of("/home/user/project"));
}

#[test]
fn git_branch_input_present() {
    let ctx = HookContext::pre_tool_use("Bash").with_git_branch("main");
    assert_eq!(GitBranchInput.get(&ctx), string_of("main"));
}

#[test]
fn git_branch_input_absent() {
    let ctx = HookContext::pre_tool_use("Bash");
    assert_eq!(GitBranchInput.get(&ctx), MatchingData::Absent);
}

#[test]
fn test_hook_context_builder() {
    let ctx = HookContext::pre_tool_use("Bash").with_arg("command", "ls -la");
    assert_eq!(ctx.event(), HookEvent::PreToolUse);
    assert_eq!(ctx.tool_name(), "Bash");
    assert_eq!(ctx.argument("command"), Some("ls -la"));
}

#[test]
fn test_tool_name_input() {
    let ctx = HookContext::pre_tool_use("Write");
    assert_eq!(ToolNameInput.get(&ctx), string_of("Write"));
}

#[test]
fn test_event_input() {
    let ctx = HookContext::post_tool_use("Read");
    assert_eq!(EventInput.get(&ctx), string_of("PostToolUse"));
}

#[test]
fn test_argument_input() {
    let ctx = HookContext::pre_tool_use("Bash").with_arg("command", "echo hello");
    let input = ArgumentInput::new("command");
    assert_eq!(input.get(&ctx), string_of("echo hello"));
}

#[test]
fn test_dangerous_command_matcher() {
    let ctx = HookContext::pre_tool_use("Bash").with_arg("command", "rm -rf /important");

    let matcher: Matcher<HookInput, CoreMatcher, &str> = Matcher::new(
        vec![FieldMatcher::new(
            Predicate::And(vec![
                Predicate::Single(SinglePredicate::new(
                    HookInput::ToolName(ToolNameInput),
                    CoreMatcher::Exact(ExactMatcher::new("Bash")),
                )),
                Predicate::Single(SinglePredicate::new(
                    HookInput::Argument(ArgumentInput::new("command")),
                    CoreMatcher::Contains(ContainsMatcher::new("rm -rf")),
                )),
            ]),
            OnMatch::Action("block"),
        )],
        Some(OnMatch::Action("allow")),
    );

    assert_eq!(matcher.evaluate(&ctx), Some(&"block"));
}

// ── Hook rules ───────────────────────────────────────────────────────────

#[test]
fn e2e_empty_rules_matches_everything() {
    let matcher = compile_hook_matches(&vec![], "hit", Some("miss")).unwrap();
    assert_eq!(matcher.evaluate(&HookContext::pre_tool_use("Bash")), Some(&"hit"));
    assert_eq!(matcher.evaluate(&HookContext::stop()), Some(&"hit"));
}

#[test]
fn hook_rule_selects_and_traces_consistently() {
    let rule = HookMatch {
        event: Some(HookEvent::PreToolUse),
        tool_name: Some(StringMatch::Exact("Bash".to_string())),
        arguments: Some(vec![ArgumentMatch {
            name: "command".to_string(),
            value: StringMatch::Contains("rm -rf".to_string()),
        }]),
        cwd: None,
        git_branch: None,
    };

    let hit = HookContext::pre_tool_use("Bash").with_arg("command", "sudo rm -rf /");
    let miss = HookContext::pre_tool_use("Bash").with_arg("command", "ls -la");

    let t_hit = rule.trace(&hit);
    assert!(t_hit.matched);
    assert_eq!(t_hit.steps.len(), 3);

    let t_miss = rule.trace(&miss);
    assert!(!t_miss.matched);

    let matcher = rule.compile("block").unwrap();
    assert_eq!(matcher.evaluate(&hit), Some(&"block"));
    assert_eq!(matcher.evaluate(&miss), None);
}

#[test]
fn hook_rule_rejects_invalid_regex() {
    let rule = HookMatch {
        event: None,
        tool_name: Some(StringMatch::Regex("[invalid".to_string())),
        arguments: None,
        cwd: None,
        git_branch: None,
    };
    assert!(rule.to_predicate().is_err());
    let err = match rule.compile("x") {
        Err(e) => e,
        Ok(_) => panic!("expected an error"),
    };
    assert!(err.message().contains("invalid regex"));
}

// ── HTTP helpers and contexts ────────────────────────────────────────────

#[test]
fn test_parse_query_string() {
    assert_eq!(parse_query_string("/api/users?page=1&limit=10"), Some("page=1&limit=10"));
    assert_eq!(parse_query_string("/api/users"), None);
    assert_eq!(parse_query_string("/api?"), Some(""));
}

#[test]
fn test_parse_path_only() {
    assert_eq!(parse_path_only("/api/users?page=1"), "/api/users");
    assert_eq!(parse_path_only("/api/users"), "/api/users");
}

#[test]
fn test_get_query_param() {
    let query = "page=1&limit=10&sort=name";
    assert_eq!(get_query_param(query, "page"), Some("1"));
    assert_eq!(get_query_param(query, "limit"), Some("10"));
    assert_eq!(get_query_param(query, "sort"), Some("name"));
    assert_eq!(get_query_param(query, "missing"), None);
}

#[test]
fn test_http_request_builder() {
    let req = HttpRequest::builder()
        .method("POST")
        .path("/api/users")
        .header("Content-Type", "application/json")
        .query_param("page", "1")
        .build();

    assert_eq!(req.method(), "POST");
    assert_eq!(req.path(), "/api/users");
    assert_eq!(req.header("content-type"), Some("application/json"));
    assert_eq!(req.query_param("page"), Some("1"));
}

#[test]
fn test_case_insensitive_headers() {
    let req = HttpRequest::builder().header("X-Custom-Header", "value").build();
    assert_eq!(req.header("x-custom-header"), Some("value"));
    assert_eq!(req.header("X-CUSTOM-HEADER"), Some("value"));
}

#[test]
fn http_message_indexes_pseudo_headers() {
    let msg = HttpMessage::from_headers(vec![
        (":path".to_string(), "/api/users?page=1&limit=20".to_string()),
        (":method".to_string(), "POST".to_string()),
        (":scheme".to_string(), "https".to_string()),
        (":authority".to_string(), "example.com".to_string()),
        ("Content-Type".to_string(), "application/json".to_string()),
    ]);
    assert_eq!(msg.path(), Some("/api/users"));
    assert_eq!(msg.raw_path(), Some("/api/users?page=1&limit=20"));
    assert_eq!(msg.method(), Some("POST"));
    assert_eq!(msg.scheme(), Some("https"));
    assert_eq!(msg.authority(), Some("example.com"));
    assert_eq!(msg.header("content-type"), Some("application/json"));
    assert_eq!(msg.query_param("page"), Some("1"));
    assert_eq!(msg.query_param("limit"), Some("20"));
    assert_eq!(msg.query_param("missing"), None);

    let input = MessageInput::Path(PathInput);
    assert_eq!(input.get(&msg), string_of("/api/users"));
}

// ── Command-line helpers ─────────────────────────────────────────────────

#[test]
fn detect_domain_http() {
    let args: Vec<String> = vec!["http".to_string(), "config.yaml".to_string()];
    let (domain, rest_start) = detect_domain(&args);
    assert_eq!(domain, Domain::Http);
    assert_eq!(args.len() - rest_start, 1);
    assert_eq!(args[rest_start], "config.yaml");
}

#[test]
fn detect_domain_claude() {
    let args: Vec<String> = vec!["hooks".to_string(), "rules.yaml".to_string()];
    let (domain, rest_start) = detect_domain(&args);
    assert_eq!(domain, Domain::Claude);
    assert_eq!(args.len() - rest_start, 1);
}

#[test]
fn detect_domain_default() {
    let args: Vec<String> =
        vec!["config.yaml".to_string(), "--context".to_string(), "k=v".to_string()];
    let (domain, rest_start) = detect_domain(&args);
    assert_eq!(domain, Domain::Test);
    assert_eq!(args.len() - rest_start, 3);
}

#[test]
fn parse_http_args_basic() {
    let args: Vec<String> = vec![
        "--method".to_string(),
        "GET".to_string(),
        "--path".to_string(),
        "/api/users".to_string(),
    ];
    let result = parse_http_args(&args).unwrap();
    assert_eq!(result.method, "GET");
    assert_eq!(result.path, "/api/users");
}

#[test]
fn parse_http_args_with_headers_and_query() {
    let args: Vec<String> = vec![
        "--method".to_string(),
        "POST".to_string(),
        "--path".to_string(),
        "/api".to_string(),
        "--header".to_string(),
        "content-type=application/json".to_string(),
        "--header".to_string(),
        "authorization=Bearer token".to_string(),
        "--query".to_string(),
        "page=1".to_string(),
    ];
    let result = parse_http_args(&args).unwrap();
    assert_eq!(result.method, "POST");
    assert_eq!(result.headers.len(), 2);
    assert_eq!(result.headers[0], ("content-type".to_string(), "application/json".to_string()));
    assert_eq!(result.query_params.len(), 1);
    assert_eq!(result.query_params[0], ("page".to_string(), "1".to_string()));
}

#[test]
fn parse_claude_args_basic() {
    let args: Vec<String> = vec![
        "--event".to_string(),
        "PreToolUse".to_string(),
        "--tool".to_string(),
        "Bash".to_string(),
    ];
    let result = parse_claude_args(&args).unwrap();
    assert_eq!(result.event, "PreToolUse");
    assert_eq!(result.tool, "Bash");
}

#[test]
fn parse_claude_args_full() {
    let args: Vec<String> = vec![
        "--event".to_string(),
        "PreToolUse".to_string(),
        "--tool".to_string(),
        "Bash".to_string(),
        "--arg".to_string(),
        "command=ls -la".to_string(),
        "--cwd".to_string(),
        "/home/user".to_string(),
        "--branch".to_string(),
        "main".to_string(),
        "--session".to_string(),
        "abc-123".to_string(),
    ];
    let result = parse_claude_args(&args).unwrap();
    assert_eq!(result.event, "PreToolUse");
    assert_eq!(result.tool, "Bash");
    assert_eq!(result.arguments.len(), 1);
    assert_eq!(result.arguments[0], ("command".to_string(), "ls -la".to_string()));
    assert_eq!(result.cwd, Some("/home/user".to_string()));
    assert_eq!(result.branch, Some("main".to_string()));
    assert_eq!(result.session_id, Some("abc-123".to_string()));
}

#[test]
fn build_claude_context_all_events() {
    for event in [
        "PreToolUse",
        "PostToolUse",
        "Stop",
        "SubagentStop",
        "UserPromptSubmit",
        "SessionStart",
        "SessionEnd",
        "PreCompact",
        "Notification",
    ] {
        let args = ClaudeArgs { event: event.to_string(), ..Default::default() };
        assert!(build_claude_context(&args).is_ok(), "failed for {event}");
    }
    let bad = ClaudeArgs { event: "BadEvent".to_string(), ..Default::default() };
    assert!(build_claude_context(&bad).is_err());
}

#[test]
fn build_http_context_from_args() {
    let args = HttpArgs {
        method: "GET".to_string(),
        path: "/api/users".to_string(),
        headers: vec![("content-type".to_string(), "application/json".to_string())],
        query_params: vec![("page".to_string(), "1".to_string())],
    };
    let ctx = build_http_context(&args);
    assert_eq!(ctx.method(), "GET");
    assert_eq!(ctx.path(), "/api/users");
    assert_eq!(ctx.header("content-type"), Some("application/json"));
    assert_eq!(ctx.query_param("page"), Some("1"));
}

#[test]
fn parse_context_empty() {
    let result = parse_context_pairs(&vec![]);
    assert!(result.is_ok());
    assert!(result.unwrap().entries.is_empty());
}

#[test]
fn parse_context_pairs_basic() {
    let args: Vec<String> =
        vec!["--context".to_string(), "method=GET".to_string(), "path=/api".to_string()];
    let result = parse_context_pairs(&args).unwrap();
    assert_eq!(result.get("method").map(String::as_str), Some("GET"));
    assert_eq!(result.get("path").map(String::as_str), Some("/api"));
}

#[test]
fn parse_context_missing_equals() {
    let args: Vec<String> = vec!["--context".to_string(), "badformat".to_string()];
    let result = parse_context_pairs(&args);
    assert!(result.is_err());
}
