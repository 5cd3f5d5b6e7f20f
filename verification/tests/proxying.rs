use axum::body::Body;
use http::{HeaderMap, HeaderValue, Response};
use mcp_compressor_core::error::Error;
use mcp_compressor_core::proxy::{
    authorized, close_response, dispatch_exec, exec, exec_granted, exec_refreshed, exec_result,
    health, wrapper_call, BackendCall, ExecRequest, ExecStep, RunningToolProxy, SessionToken,
    ToolProxyServer, WrapperInvokeInput,
};
use serde_json::Value;
use std::sync::Arc;

fn run<T>(future: impl std::future::Future<Output = T>) -> T {
    tokio::runtime::Builder::new_current_thread()
        .enable_all()
        .build()
        .unwrap()
        .block_on(future)
}

fn json(text: &str) -> Value {
    serde_json::from_str(text).unwrap()
}

fn read_wrapper(input: Value) -> Result<WrapperInvokeInput, serde_json::Error> {
    let name: String = serde_json::from_value(input["tool_name"].clone())?;
    Ok(WrapperInvokeInput {
        tool_name: name,
        tool_input: input["tool_input"].clone(),
    })
}

fn request(tool: &str) -> ExecRequest {
    ExecRequest {
        tool: tool.to_string(),
        input: json(r#"{"tool_name":"echo"}"#),
    }
}

fn assert_answer(response: Response<Body>, status: u16, body: &str) {
    assert_eq!(response.status().as_u16(), status);
    assert_eq!(response.headers()["connection"], "close");
    assert_eq!(response.headers()["content-type"], "text/plain; charset=utf-8");
    assert_eq!(response.headers().len(), 2);
    let bytes = run(axum::body::to_bytes(response.into_body(), 1 << 20)).unwrap();
    assert_eq!(bytes, body.as_bytes());
}

fn assert_reply(step: ExecStep, status: u16, body: &str) {
    match step {
        ExecStep::Reply(response) => assert_answer(response, status, body),
        other => panic!("expected a reply, got {other:?}"),
    }
}

fn with_authorization(values: &[&[u8]]) -> HeaderMap {
    let mut headers = HeaderMap::new();
    headers.insert("x-other", HeaderValue::from_static("Bearer secret"));
    for value in values {
        headers.append("Authorization", HeaderValue::from_bytes(value).unwrap());
    }
    headers
}

#[test]
fn responses_close_the_connection() {
    assert_answer(close_response(200, "hällo".to_string()), 200, "hällo");
    assert_answer(close_response(503, String::new()), 503, "");
    assert_answer(health(), 200, "ok");
}

#[test]
fn authorization_takes_a_header_that_verifies() {
    let verify = |shown: &str| shown == "Bearer secret";
    assert!(authorized(&with_authorization(&[b"Bearer secret"]), verify));
    assert!(!authorized(&with_authorization(&[b"Bearer other"]), verify));
    assert!(!authorized(&with_authorization(&[]), verify));
}

#[test]
fn first_authorization_header_counts() {
    let verify = |shown: &str| shown == "Bearer secret";
    assert!(authorized(&with_authorization(&[b"Bearer secret", b"x"]), verify));
    assert!(!authorized(&with_authorization(&[b"x", b"Bearer secret"]), verify));
}

#[test]
fn headers_that_are_not_text_are_refused() {
    assert!(!authorized(&with_authorization(&[b"Bearer \xff"]), |_: &str| true));
    assert!(authorized(&with_authorization(&[b"a\tb ~"]), |shown: &str| shown == "a\tb ~"));
    assert!(authorized(&with_authorization(&[b""]), |shown: &str| shown.is_empty()));
}

#[test]
fn requests_without_a_token_are_refused() {
    for has_hook in [false, true] {
        let step = exec(&with_authorization(&[]), |_: &str| true, has_hook, request("t"));
        assert_reply(step, 401, "unauthorized");
        assert_reply(exec_granted(false, has_hook, request("t")), 401, "unauthorized");
    }
}

#[test]
fn hook_refreshes_before_dispatch() {
    let headers = with_authorization(&[b"Bearer secret"]);
    let step = exec(&headers, |_: &str| true, true, request("t"));
    let pending = match step {
        ExecStep::Refresh(pending) => pending,
        other => panic!("expected a refresh, got {other:?}"),
    };
    match exec_refreshed(pending, Ok(())) {
        ExecStep::Dispatch(dispatched) => {
            assert_eq!(dispatched.tool, "t");
            assert_eq!(dispatched.input, json(r#"{"tool_name":"echo"}"#));
        }
        other => panic!("expected a dispatch, got {other:?}"),
    }
    assert_reply(
        exec_refreshed(request("t"), Err(Error::Auth("secret detail".to_string()))),
        400,
        "auth provider refresh failed",
    );
}

#[test]
fn without_a_hook_requests_are_dispatched_at_once() {
    let headers = with_authorization(&[b"Bearer secret"]);
    let step = exec(&headers, |_: &str| true, false, request("t"));
    assert!(matches!(step, ExecStep::Dispatch(dispatched) if dispatched.tool == "t"));
}

#[test]
fn results_and_errors_become_answers() {
    assert_answer(exec_result(Ok("alpha:hi".to_string())), 200, "alpha:hi");
    assert_answer(
        exec_result(Err(Error::ToolNotFound("x".to_string()))),
        400,
        "tool not found: \"x\"",
    );
    let io = std::io::Error::new(std::io::ErrorKind::Other, "pipe");
    assert_answer(exec_result(Err(Error::Io(io))), 400, "IO error: pipe");
}

#[test]
fn invoke_wrappers_are_recognised_by_name() {
    for tool in ["invoke_tool", "_invoke_tool", "alpha_invoke_tool"] {
        let input = json(r#"{"tool_name":"echo","tool_input":{"message":"hi"}}"#);
        match dispatch_exec(tool.to_string(), input, read_wrapper).unwrap() {
            BackendCall::Wrapper { tool: wrapper, invocation } => {
                assert_eq!(wrapper, tool);
                assert_eq!(invocation.tool_name, "echo");
                assert_eq!(invocation.tool_input, json(r#"{"message":"hi"}"#));
            }
            other => panic!("expected a wrapper, got {other:?}"),
        }
    }
    for tool in ["", "invoke_tools", "xinvoke_tool", "invoke_tool_", "add"] {
        let input = json(r#"{"a":1}"#);
        match dispatch_exec(tool.to_string(), input, |_| unreachable!()).unwrap() {
            BackendCall::Single { tool: single, input } => {
                assert_eq!(single, tool);
                assert_eq!(input, json(r#"{"a":1}"#));
            }
            other => panic!("expected a single backend, got {other:?}"),
        }
    }
}

#[test]
fn wrapper_input_of_another_shape_is_refused() {
    let call = dispatch_exec("invoke_tool".to_string(), Value::Null, read_wrapper);
    assert!(matches!(call, Err(Error::Json(_))));
    let broken = serde_json::from_str::<Value>("{").unwrap_err();
    assert!(matches!(
        wrapper_call("invoke_tool".to_string(), Err(broken)),
        Err(Error::Json(_))
    ));
}

#[test]
fn bridge_tells_its_urls_and_token() {
    let server = ToolProxyServer::in_process("server");
    let proxy = RunningToolProxy::new(
        "127.0.0.1:8080",
        SessionToken::new("secret".to_string()),
        (),
        Arc::clone(&server),
    );
    assert_eq!(proxy.bridge_url(), "http://127.0.0.1:8080");
    assert_eq!(proxy.health_url(), "http://127.0.0.1:8080/health");
    assert_eq!(proxy.exec_url(), "http://127.0.0.1:8080/exec");
    assert_eq!(proxy.token_value(), "secret");
    assert_eq!(proxy.token().value(), "secret");
    assert!(Arc::ptr_eq(proxy.server(), &server));
}

fn bridge() -> RunningToolProxy<(), ()> {
    RunningToolProxy::new("x", SessionToken::new(String::new()), (), Arc::new(()))
}

#[test]
fn cancelled_task_is_a_clean_shutdown() {
    let ended = run(async {
        let task = tokio::spawn(std::future::pending::<()>());
        task.abort();
        task.await
    });
    assert!(ended.is_err());
    assert!(bridge().shutdown(ended).is_ok());
    assert!(bridge().shutdown(Ok(())).is_ok());
}

#[test]
fn failed_task_is_reported() {
    let ended = run(async { tokio::spawn(async { panic!("broken") }).await });
    let failure = bridge().shutdown(ended).unwrap_err();
    assert!(failure.is_panic());
}
