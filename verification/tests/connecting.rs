use mcp_compressor_core::backend::{
    backend_operation, group_kill_report, group_target, service_error, stdio_command,
    stdio_outcome, timeout_error, tree_kill_args, tree_kill_report, BackendServerConfig,
    BackendTransport, Completion, StdioHandshake, StdioOutcome, Stream,
};
use mcp_compressor_core::connect::{
    connect_backend, http_connected, stdio_connected, Connecting, ListingTools, Target,
};
use mcp_compressor_core::error::Error;
use mcp_compressor_core::text;
use mcp_compressor_core::timeout::Timeout;
use mcp_compressor_core::tool::{filter_tools, Tool};

fn config(transport: BackendTransport, timeout: Option<Timeout>) -> BackendServerConfig<String> {
    BackendServerConfig {
        name: "hanging".to_string(),
        command: "python3".to_string(),
        args: vec!["hanging_server.py".to_string()],
        cwd: Some("/work".to_string()),
        env: vec![("HANG_OPERATION".to_string(), "connection".to_string())],
        transport,
        timeout,
        use_oauth: false,
        has_header_provider: false,
        oauth_app_name: None,
    }
}

fn target(included: &[&str], excluded: &[&str]) -> Target {
    let texts = |list: &[&str]| list.iter().map(|text| text.to_string()).collect::<Vec<String>>();
    Target {
        public_name: "public".to_string(),
        backend_name: "slow".to_string(),
        include_tools: texts(included),
        exclude_tools: texts(excluded),
        timeout: Some(Timeout::from_millis(500)),
    }
}

fn tool(name: &str) -> Tool {
    Tool::new(name.to_string(), None, serde_json::Value::Null)
}

fn names(tools: &[Tool]) -> Vec<&str> {
    tools.iter().map(|tool| tool.name.as_str()).collect()
}

fn assert_timeout(error: &Error, backend: &str, operation: &str, timeout: Timeout) {
    match error {
        Error::BackendTimeout {
            backend: actual_backend,
            operation: actual_operation,
            timeout: actual_timeout,
        } => {
            assert_eq!(actual_backend, backend);
            assert_eq!(actual_operation, operation);
            assert_eq!(*actual_timeout, timeout);
        }
        other => panic!("expected a timeout, got {other:?}"),
    }
}

#[test]
fn zero_timeout_is_rejected_before_anything_starts() {
    for transport in [BackendTransport::Stdio, BackendTransport::StreamableHttp] {
        let error = connect_backend(
            &config(transport, Some(Timeout::new(0, 0))),
            "hanging".to_string(),
            vec![],
            vec![],
        )
        .unwrap_err();
        assert_eq!(
            error.message(),
            r#"validation error: backend "hanging" timeout must be greater than zero"#
        );
    }
}

#[test]
fn stdio_backend_keeps_names_filters_and_timeout() {
    let timeout = Some(Timeout::from_millis(500));
    let started = connect_backend(
        &config(BackendTransport::Stdio, timeout),
        "public".to_string(),
        vec!["a".to_string()],
        vec!["b".to_string()],
    )
    .unwrap();
    match started {
        Connecting::Stdio(target) => {
            assert_eq!(target.public_name, "public");
            assert_eq!(target.backend_name, "hanging");
            assert_eq!(target.include_tools, vec!["a".to_string()]);
            assert_eq!(target.exclude_tools, vec!["b".to_string()]);
            assert_eq!(target.timeout, timeout);
        }
        other => panic!("expected a child process, got {other:?}"),
    }
}

#[test]
fn http_connection_is_bounded_unless_a_human_logs_in() {
    let timeout = Some(Timeout::from_millis(500));
    let mut config = config(BackendTransport::StreamableHttp, timeout);
    let started = connect_backend(&config, "p".to_string(), vec![], vec![]).unwrap();
    assert!(matches!(started, Connecting::Http { deadline, .. } if deadline == timeout));
    config.use_oauth = true;
    let started = connect_backend(&config, "p".to_string(), vec![], vec![]).unwrap();
    assert!(matches!(started, Connecting::Http { deadline: None, .. }));
}

#[test]
fn operations_give_their_own_result_or_a_timeout() {
    let deadline = Some(Timeout::from_millis(500));
    let done = backend_operation(deadline, "b", "op", Completion::Finished(Ok(7)));
    assert!(matches!(done, Ok(7)));
    let failed: Result<u32, Error> = backend_operation(
        None,
        "b",
        "op",
        Completion::Finished(Err(Error::Auth("no".to_string()))),
    );
    assert!(matches!(failed, Err(Error::Auth(reason)) if reason == "no"));
    let late: Result<u32, Error> = backend_operation(deadline, "b", "op", Completion::Elapsed);
    assert_timeout(&late.unwrap_err(), "b", "op", Timeout::from_millis(500));
}

#[test]
fn errors_of_services_and_timeouts_are_typed() {
    assert!(matches!(service_error("x".to_string()), Error::Config(reason) if reason == "x"));
    let error = timeout_error("b", "call tool `hang`", Timeout::from_millis(500));
    assert_timeout(&error, "b", "call tool `hang`", Timeout::from_millis(500));
}

#[test]
fn child_process_gets_its_command_line_and_pipes() {
    let config = config(BackendTransport::Stdio, None);
    let command = stdio_command(&config);
    assert_eq!(command.program, "python3");
    assert_eq!(command.args, &vec!["hanging_server.py".to_string()]);
    assert_eq!(command.cwd, Some(&"/work".to_string()));
    assert_eq!(
        command.env,
        &vec![("HANG_OPERATION".to_string(), "connection".to_string())]
    );
    assert_eq!(command.stdin, Stream::Piped);
    assert_eq!(command.stdout, Stream::Piped);
    assert_eq!(command.stderr, Stream::Inherited);
}

#[test]
fn handshake_that_runs_out_of_time_stops_the_process() {
    let timeout = Some(Timeout::from_millis(500));
    let outcome = stdio_outcome::<()>(timeout, "hanging", Some(42), StdioHandshake::Elapsed);
    match outcome {
        StdioOutcome::Abandoned { process_id, error } => {
            assert_eq!(process_id, Some(42));
            assert_timeout(&error, "hanging", "connection", Timeout::from_millis(500));
        }
        other => panic!("expected an abandoned process, got {other:?}"),
    }
    assert!(matches!(
        stdio_outcome(None, "hanging", Some(42), StdioHandshake::Connected("client")),
        StdioOutcome::Connected("client", Some(42))
    ));
    assert!(matches!(
        stdio_outcome::<()>(None, "hanging", None, StdioHandshake::Refused("no".to_string())),
        StdioOutcome::Failed(Error::Config(reason)) if reason == "no"
    ));
}

#[test]
fn process_groups_are_addressed_by_negation() {
    assert_eq!(group_target(None), None);
    assert_eq!(group_target(Some(42)), Some(-42));
    assert_eq!(group_target(Some(0x7fff_ffff)), Some(-0x7fff_ffff));
    assert_eq!(group_target(Some(0x8000_0001)), Some(0x7fff_ffff));
    assert_eq!(group_target(Some(0xffff_ffff)), Some(1));
}

#[test]
fn only_a_signal_that_failed_is_reported() {
    assert_eq!(group_kill_report(42, 0, None, 3, "x"), None);
    assert_eq!(group_kill_report(42, -1, Some(3), 3, "x"), None);
    assert_eq!(
        group_kill_report(42, -1, Some(1), 3, "not permitted"),
        Some("failed to terminate backend process group 42: not permitted".to_string())
    );
    assert!(group_kill_report(42, -1, None, 3, "x").is_some());
}

#[test]
fn process_trees_are_ended_by_number() {
    assert_eq!(tree_kill_args(None), None);
    assert_eq!(
        tree_kill_args(Some(1234)),
        Some(vec![
            "/PID".to_string(),
            "1234".to_string(),
            "/T".to_string(),
            "/F".to_string(),
        ])
    );
    assert_eq!(tree_kill_report(7, true, "x"), None);
    assert_eq!(
        tree_kill_report(7, false, "exit code: 1"),
        Some("failed to terminate backend process tree 7: exit code: 1".to_string())
    );
}

#[test]
fn discovery_ends_with_a_ready_backend() {
    let listing = stdio_connected(target(&[], &["c"]), Ok(Some(42))).unwrap();
    let listing = listing
        .listed(Completion::Finished(Ok(vec![tool("a"), tool("c"), tool("b")])))
        .unwrap();
    let listing = listing
        .listed(Completion::Finished(Ok(vec!["fixture://r".to_string()])))
        .unwrap();
    let ready = listing
        .listed(Completion::Finished(Ok(vec!["prompt"])))
        .unwrap();
    assert_eq!(ready.public_name, "public");
    assert_eq!(ready.backend_name, "slow");
    assert_eq!(names(&ready.tools), vec!["a", "b"]);
    assert_eq!(ready.resources, vec!["fixture://r".to_string()]);
    assert_eq!(ready.prompts, vec!["prompt"]);
    assert_eq!(ready.timeout, Some(Timeout::from_millis(500)));
}

#[test]
fn unsupported_listings_are_empty() {
    let listing = stdio_connected(target(&[], &[]), Ok(None)).unwrap();
    let unsupported = || Error::Config("method not found".to_string());
    let ready = listing
        .listed(Completion::Finished(Ok(vec![tool("a")])))
        .unwrap()
        .listed(Completion::Finished(Err(unsupported())))
        .unwrap()
        .listed::<u8>(Completion::Finished(Err(unsupported())))
        .unwrap();
    assert_eq!(names(&ready.tools), vec!["a"]);
    assert!(ready.resources.is_empty());
    assert!(ready.prompts.is_empty());
}

#[test]
fn tools_are_not_optional() {
    let listing = stdio_connected(target(&[], &[]), Ok(Some(42))).unwrap();
    let failure = listing
        .listed(Completion::Finished(Err(Error::Config("broken".to_string()))))
        .unwrap_err();
    assert_eq!(failure.process_id, Some(42));
    assert_eq!(failure.error.message(), "config error: broken");
}

#[test]
fn each_listing_is_bounded_under_its_own_name() {
    let timeout = Timeout::from_millis(500);
    let start = || stdio_connected(target(&[], &[]), Ok(Some(42))).unwrap();

    let failure = start().listed(Completion::Elapsed).unwrap_err();
    assert_eq!(failure.process_id, Some(42));
    assert_timeout(&failure.error, "slow", "list tools", timeout);

    let resources = || start().listed(Completion::Finished(Ok(vec![]))).unwrap();
    let failure = resources().listed(Completion::Elapsed).unwrap_err();
    assert_eq!(failure.process_id, Some(42));
    assert_timeout(&failure.error, "slow", "list resources", timeout);

    let prompts = resources().listed(Completion::Finished(Ok(vec![]))).unwrap();
    let failure = prompts.listed::<u8>(Completion::Elapsed).unwrap_err();
    assert_eq!(failure.process_id, Some(42));
    assert_timeout(&failure.error, "slow", "list prompts", timeout);
}

#[test]
fn listing_errors_of_another_kind_are_final() {
    let failure = stdio_connected(target(&[], &[]), Ok(Some(42)))
        .unwrap()
        .listed(Completion::Finished(Ok(vec![])))
        .unwrap()
        .listed(Completion::Finished(Err(Error::Auth("no".to_string()))))
        .unwrap_err();
    assert_eq!(failure.process_id, Some(42));
    assert!(matches!(failure.error, Error::Auth(_)));
}

#[test]
fn http_connection_has_no_process() {
    let deadline = Some(Timeout::from_millis(500));
    let listing =
        http_connected(target(&[], &[]), deadline, Completion::Finished(Ok(()))).unwrap();
    assert!(matches!(listing, ListingTools { process_id: None, .. }));
    let error = http_connected(target(&[], &[]), deadline, Completion::Elapsed).unwrap_err();
    assert_timeout(&error, "slow", "connection", Timeout::from_millis(500));
    let error = http_connected(
        target(&[], &[]),
        None,
        Completion::Finished(Err(Error::Config("x".to_string()))),
    )
    .unwrap_err();
    assert_eq!(error.message(), "config error: x");
}

#[test]
fn failed_handshake_is_passed_on() {
    let error = stdio_connected(target(&[], &[]), Err(Error::Config("x".to_string()))).unwrap_err();
    assert_eq!(error.message(), "config error: x");
}

#[test]
fn filters_select_then_drop() {
    let all = || vec![tool("a"), tool("b"), tool("a"), tool("c")];
    let texts = |list: &[&str]| list.iter().map(|text| text.to_string()).collect::<Vec<String>>();
    assert_eq!(
        names(&filter_tools(all(), &texts(&[]), &texts(&[]))),
        vec!["a", "b", "a", "c"]
    );
    assert_eq!(
        names(&filter_tools(all(), &texts(&["a", "c"]), &texts(&["c"]))),
        vec!["a", "a"]
    );
    assert!(filter_tools(all(), &texts(&["A"]), &texts(&[])).is_empty());
}

#[test]
fn texts_are_compared_by_characters() {
    assert!(text::same_text("é", "é"));
    assert!(!text::same_text("e", "é"));
    assert!(text::ends_with("alpha_invoke_tool", "_invoke_tool"));
    assert!(!text::ends_with("tool", "_invoke_tool"));
    assert!(text::ends_with("x", ""));
    assert!(text::contains_chars(&text::chars_of("a401b"), "401"));
    assert!(text::contains_chars(&text::chars_of(""), ""));
    assert!(!text::contains_chars(&text::chars_of("40"), "401"));
    assert_eq!(text::lower_chars(&text::chars_of("AbÉ1")), vec!['a', 'b', 'É', '1']);
    assert_eq!(text::decimal_text(0), "0");
    assert_eq!(text::decimal_text(u32::MAX), "4294967295");
}
