use mcp_compressor_core::error::Error;
use mcp_compressor_core::proxy::{
    dispatch_exec, exec_refreshed, BackendCall, ExecRequest, ExecStep, RunningToolProxy,
    SessionToken, ToolProxyServer,
};
use mcp_compressor_core::sdk::FfiBackendConfig;
use mcp_compressor_core::session::{
    compressed_session_from_server, invoke_refreshed, parse_ffi_transform_mode, server_config,
    start_compressed_session, start_compressed_session_from_mcp_config,
    start_compressed_session_with_backend_configs,
    start_compressed_session_with_backend_configs_and_before_exec, FfiCompressedSession,
    FfiCompressedSessionConfig, FfiTool, InvokeStep, ProxyTransformMode, ServerListing,
    SessionStart, SessionStep,
};
use mcp_compressor_core::tool::Tool;
use serde_json::Value;
use std::sync::Arc;

type Session = FfiCompressedSession<&'static str, &'static str, u8, ()>;

fn json(text: &str) -> Value {
    serde_json::from_str(text).unwrap()
}

fn config(level: &str, mode: Option<&str>, bridge: bool) -> FfiCompressedSessionConfig {
    FfiCompressedSessionConfig {
        compression_level: level.to_string(),
        server_name: Some("alpha".to_string()),
        include_tools: vec!["a".to_string()],
        exclude_tools: vec!["b".to_string()],
        toonify: true,
        transform_mode: mode.map(str::to_string),
        bridge,
    }
}

fn level(name: &str) -> Result<u8, Error> {
    match name {
        "max" => Ok(3),
        other => Err(Error::UnknownCompressionLevel(other.to_string())),
    }
}

fn tool(name: &str) -> Tool {
    Tool::new(
        name.to_string(),
        Some(format!("does {name}")),
        json(r#"{"type":"object"}"#),
    )
}

fn listing() -> ServerListing<u8> {
    ServerListing {
        frontend_tools: Ok(vec![tool("alpha_invoke_tool"), tool("alpha_list_tools")]),
        backend_tools: vec![tool("echo"), tool("add")],
        backend_tools_by_server: vec![("alpha".to_string(), tool("echo"))],
        just_bash_providers: vec![1, 2],
    }
}

fn names(tools: &[FfiTool]) -> Vec<&str> {
    tools.iter().map(|tool| tool.name.as_str()).collect()
}

/// Opens a session, with a bridge or without.
fn open(bridge: bool, before_exec: Option<Arc<&'static str>>) -> Session {
    match compressed_session_from_server("server", listing(), bridge, before_exec).unwrap() {
        SessionStep::Ready(session) => session,
        SessionStep::StartBridge { server, pending, .. } => pending
            .bridged(Ok(RunningToolProxy::new(
                "127.0.0.1:8080",
                SessionToken::new("secret".to_string()),
                (),
                ToolProxyServer::in_process(server),
            )))
            .unwrap(),
    }
}

#[test]
fn transform_modes_have_several_names() {
    for name in [None, Some("compressed-tools"), Some("compressed"), Some("normal")] {
        assert_eq!(
            parse_ffi_transform_mode(name).unwrap(),
            ProxyTransformMode::CompressedTools
        );
    }
    for name in ["cli", "cli-mode"] {
        assert_eq!(parse_ffi_transform_mode(Some(name)).unwrap(), ProxyTransformMode::Cli);
    }
    for name in ["just-bash", "just_bash"] {
        assert_eq!(
            parse_ffi_transform_mode(Some(name)).unwrap(),
            ProxyTransformMode::JustBash
        );
    }
    for name in ["", "CLI", "cli_mode"] {
        assert_eq!(
            parse_ffi_transform_mode(Some(name)).unwrap_err().message(),
            format!("config error: invalid transform mode: {name}")
        );
    }
}

#[test]
fn settings_reach_the_server() {
    let server = server_config(config("max", Some("cli"), true), Ok(3_u8)).unwrap();
    assert_eq!(server.level, 3);
    assert_eq!(server.server_name, Some("alpha".to_string()));
    assert_eq!(server.include_tools, vec!["a".to_string()]);
    assert_eq!(server.exclude_tools, vec!["b".to_string()]);
    assert!(server.toonify);
    assert_eq!(server.transform_mode, ProxyTransformMode::Cli);
}

#[test]
fn wrong_level_is_reported_before_a_wrong_mode() {
    let start: Result<SessionStart<u8, Vec<u8>, u8>, Error> =
        start_compressed_session_with_backend_configs(
            config("loud", Some("wrong"), false),
            vec![1_u8],
            level,
        );
    assert_eq!(start.unwrap_err().message(), "unknown compression level: \"loud\"");
    let start: Result<SessionStart<u8, Vec<u8>, u8>, Error> =
        start_compressed_session_with_backend_configs(
            config("max", Some("wrong"), false),
            vec![1_u8],
            level,
        );
    assert_eq!(
        start.unwrap_err().message(),
        "config error: invalid transform mode: wrong"
    );
}

#[test]
fn session_starts_on_its_backends() {
    let backend = |name: &str| FfiBackendConfig {
        name: name.to_string(),
        command_or_url: "python3".to_string(),
        args: vec![],
        oauth_app_name: None,
    };
    let start: SessionStart<u8, Vec<String>, u8> = start_compressed_session(
        config("max", None, true),
        vec![backend("b"), backend("a")],
        level,
        |backend: FfiBackendConfig| backend.name,
    )
    .unwrap();
    assert_eq!(start.server.level, 3);
    assert_eq!(start.source, vec!["b".to_string(), "a".to_string()]);
    assert!(start.bridge);
    assert!(start.before_exec.is_none());
}

#[test]
fn session_starts_on_an_mcp_config_without_a_hook() {
    let start: SessionStart<u8, &str, u8> =
        start_compressed_session_from_mcp_config(config("max", None, false), "{}", level).unwrap();
    assert_eq!(start.source, "{}");
    assert!(!start.bridge);
    assert!(start.before_exec.is_none());
}

#[test]
fn session_starts_with_its_hook() {
    let hook = Arc::new("hook");
    let start = start_compressed_session_with_backend_configs_and_before_exec(
        config("max", None, true),
        vec![1_u8],
        Some(Arc::clone(&hook)),
        level,
    )
    .unwrap();
    assert!(Arc::ptr_eq(&start.before_exec.unwrap(), &hook));
}

#[test]
fn session_without_a_bridge_is_not_reachable() {
    let session = open(false, None);
    assert_eq!(session.bridge_url(), "");
    assert_eq!(session.token(), "");
    assert!(session.proxy.is_none());
    assert_eq!(*session.server, "server");
}

#[test]
fn bridged_session_tells_where_its_bridge_is() {
    let session = open(true, None);
    assert_eq!(session.bridge_url(), "http://127.0.0.1:8080");
    assert_eq!(session.token(), "secret");
    let proxy = session.proxy.as_ref().unwrap();
    assert!(Arc::ptr_eq(proxy.server(), &session.server));
}

#[test]
fn sessions_tell_their_tools_in_order() {
    for bridge in [false, true] {
        let session = open(bridge, None);
        let info = session.info();
        assert_eq!(info.bridge_url, session.bridge_url());
        assert_eq!(info.token, session.token());
        assert_eq!(names(&info.frontend_tools), vec!["alpha_invoke_tool", "alpha_list_tools"]);
        assert_eq!(names(&info.backend_tools), vec!["echo", "add"]);
        assert_eq!(info.backend_tools_by_server.len(), 1);
        assert_eq!(info.backend_tools_by_server[0].server_name, "alpha");
        assert_eq!(info.backend_tools_by_server[0].tool.name, "echo");
        assert_eq!(info.just_bash_providers, vec![1, 2]);
        let listed = session.list_frontend_tools();
        assert_eq!(names(&listed), names(&info.frontend_tools));
        assert_eq!(listed[0].description, Some("does alpha_invoke_tool".to_string()));
        assert_eq!(listed[0].input_schema, json(r#"{"type":"object"}"#));
    }
}

#[test]
fn listing_errors_come_before_the_bridge() {
    for bridge in [false, true] {
        let mut listing = listing();
        listing.frontend_tools = Err(Error::Config("broken".to_string()));
        let step: Result<SessionStep<&str, u8, u8, ()>, Error> =
            compressed_session_from_server("server", listing, bridge, None);
        assert_eq!(step.unwrap_err().message(), "config error: broken");
    }
}

#[test]
fn failed_bridge_fails_the_session() {
    let step: SessionStep<&str, u8, u8, ()> =
        compressed_session_from_server("server", listing(), true, None).unwrap();
    match step {
        SessionStep::StartBridge { pending, .. } => {
            let session: Result<FfiCompressedSession<&str, u8, u8, ()>, Error> =
                pending.bridged(Err(Error::Auth("no".to_string())));
            assert_eq!(session.unwrap_err().message(), "auth error: no");
        }
        other => panic!("expected a bridge, got {other:?}"),
    }
}

#[test]
fn bridge_gets_the_same_hook_as_the_session() {
    let hook = Arc::new("hook");
    let step: SessionStep<&str, &str, u8, ()> =
        compressed_session_from_server("server", listing(), true, Some(Arc::clone(&hook)))
            .unwrap();
    match step {
        SessionStep::StartBridge { hook: given, pending, .. } => {
            assert!(Arc::ptr_eq(&given.unwrap(), &hook));
            assert!(Arc::ptr_eq(&pending.before_exec.unwrap(), &hook));
        }
        other => panic!("expected a bridge, got {other:?}"),
    }
}

/// How often the hook runs before one call within the process.
fn refreshes_before_one_call(bridge: bool) -> usize {
    let session = open(bridge, Some(Arc::new("hook")));
    let input = json(r#"{ "tool_name": "echo", "tool_input": { "message": "hi" } }"#);
    match session.invoke("alpha_alpha_invoke_tool", input) {
        InvokeStep::Refresh(request) => {
            assert_eq!(
                invoke_refreshed(request, Ok(())).unwrap().tool,
                "alpha_alpha_invoke_tool"
            );
            1
        }
        InvokeStep::Dispatch(_) => 0,
    }
}

#[test]
fn calls_within_the_process_refresh_with_and_without_a_bridge() {
    assert_eq!(refreshes_before_one_call(false), 1);
    assert_eq!(refreshes_before_one_call(true), 1);
}

#[test]
fn calls_without_a_hook_are_dispatched() {
    let session = open(true, None);
    let step = session.invoke("add", json("[1]"));
    assert!(matches!(
        step,
        InvokeStep::Dispatch(request) if request.tool == "add" && request.input == json("[1]")
    ));
}

#[test]
fn failed_hook_fails_the_call() {
    let request = ExecRequest {
        tool: "add".to_string(),
        input: Value::Null,
    };
    let failed = invoke_refreshed(request, Err(Error::Auth("stale".to_string())));
    assert_eq!(failed.unwrap_err().message(), "auth error: stale");
}

#[test]
fn bridge_and_process_dispatch_the_same_call() {
    let session = open(true, None);
    let in_process = match session.invoke("add", json("[1]")) {
        InvokeStep::Dispatch(request) => request,
        InvokeStep::Refresh(request) => request,
    };
    let over_bridge = ExecRequest {
        tool: "add".to_string(),
        input: json("[1]"),
    };
    let over_bridge = match exec_refreshed(over_bridge, Ok(())) {
        ExecStep::Dispatch(request) => request,
        other => panic!("expected a dispatch, got {other:?}"),
    };
    for request in [in_process, over_bridge] {
        let call = dispatch_exec(request.tool, request.input, |_| unreachable!()).unwrap();
        assert!(matches!(
            call,
            BackendCall::Single { tool, input } if tool == "add" && input == json("[1]")
        ));
    }
}
