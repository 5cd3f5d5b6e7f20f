use http::{HeaderName, HeaderValue};
use mcp_compressor_core::backend::{BackendServerConfig, BackendTransport};
use mcp_compressor_core::error::Error;
use mcp_compressor_core::http_backend::{
    backend_http_client, backend_http_client_builder, built_client, built_oauth_client,
    connect_direct, connect_streamable_http_backend, direct_transport, header_map_of,
    oauth_http_client, remote_backend_error, served, BackendHttpClient, HttpRoute, RequestEnd,
    RequestFailure, AUTH_POSSIBLE_HINT, AUTH_REQUIRED_HINT,
};
use mcp_compressor_core::oauth::{
    begin_login, connect_oauth_streamable_http_backend, BrowserAnswer, CallbackFailure,
    OauthBackend, OauthCallback, OauthEvent, OauthPhase, OauthStep,
};
use mcp_compressor_core::timeout::Timeout;

fn config(url: &str, timeout: Option<Timeout>) -> BackendServerConfig<String> {
    BackendServerConfig {
        name: "remote".to_string(),
        command: url.to_string(),
        args: vec![],
        cwd: None,
        env: vec![],
        transport: BackendTransport::StreamableHttp,
        timeout,
        use_oauth: false,
        has_header_provider: false,
        oauth_app_name: None,
    }
}

fn http_error() -> reqwest::Error {
    reqwest::Client::builder().user_agent("\n").build().unwrap_err()
}

#[test]
fn errors_that_ask_for_authentication_get_the_stronger_advice() {
    for error in [
        "status 401",
        "403 Forbidden",
        "missing WWW-Authenticate",
        "UnAuthorized",
    ] {
        let message = remote_backend_error("https://x", error.to_string()).message();
        assert_eq!(
            message,
            format!(
                "config error: failed to initialize remote streamable HTTP backend \
                 https://x: {error}{AUTH_REQUIRED_HINT}"
            )
        );
    }
    for error in ["status 500", "www-authenticate", ""] {
        let message = remote_backend_error("https://x", error.to_string()).message();
        assert_eq!(
            message,
            format!(
                "config error: failed to initialize remote streamable HTTP backend \
                 https://x: {error}{AUTH_POSSIBLE_HINT}"
            )
        );
    }
    assert!(AUTH_REQUIRED_HINT
        .contains("`mcp-compressor -- <url> -H \"Authorization=Bearer <token>\"`"));
}

#[test]
fn urls_take_no_arguments() {
    let mut config = config("https://x", None);
    assert_eq!(connect_streamable_http_backend(&config).unwrap(), HttpRoute::Direct);
    config.use_oauth = true;
    assert_eq!(connect_streamable_http_backend(&config).unwrap(), HttpRoute::OAuth);
    config.args = vec!["-v".to_string()];
    assert_eq!(
        connect_streamable_http_backend(&config).unwrap_err().message(),
        "config error: streamable HTTP backend URLs do not accept command arguments"
    );
}

#[test]
fn served_errors_carry_advice() {
    assert_eq!(served("https://x", Ok(5)).unwrap(), 5);
    let error = served::<u8>("https://x", Err("401".to_string())).unwrap_err();
    assert!(error.message().ends_with(AUTH_REQUIRED_HINT));
}

#[test]
fn failed_clients_are_reported_by_kind() {
    assert!(matches!(built_client(Ok(1)), Ok(1)));
    assert!(matches!(built_client::<u8>(Err(http_error())), Err(Error::Http(_))));
    assert!(matches!(built_oauth_client(Ok(1)), Ok(1)));
    let error = built_oauth_client::<u8>(Err(http_error())).unwrap_err();
    assert_eq!(
        error.message(),
        format!("config error: failed to build OAuth HTTP client: {}", http_error())
    );
}

#[test]
fn headers_go_to_the_provider_or_to_the_transport() {
    let timeout = Some(Timeout::from_millis(400));
    let mut config = config("https://x", timeout);
    let transport = direct_transport(&config, Ok("client"), Ok(vec!["h"])).unwrap();
    assert_eq!(transport.client.inner, "client");
    assert_eq!(transport.client.timeout, timeout);
    assert_eq!(transport.custom_headers, Some(vec!["h"]));
    assert_eq!(transport.provider_headers, None);

    let transport = direct_transport(&config, Ok("client"), Ok(Vec::<&str>::new())).unwrap();
    assert_eq!(transport.custom_headers, None);
    assert_eq!(transport.provider_headers, None);

    config.has_header_provider = true;
    let transport = direct_transport(&config, Ok("client"), Ok(vec!["h"])).unwrap();
    assert_eq!(transport.custom_headers, None);
    assert_eq!(transport.provider_headers, Some(vec!["h"]));
}

#[test]
fn failures_of_the_client_come_first() {
    let config = config("https://x", None);
    let error = direct_transport::<_, u8, u8>(
        &config,
        Err(Error::Http(http_error())),
        Err(Error::Config("headers".to_string())),
    )
    .unwrap_err();
    assert!(matches!(error, Error::Http(_)));
    let error =
        connect_direct::<_, u8>(&config, Err(Error::Config("headers".to_string()))).unwrap_err();
    assert_eq!(error.message(), "config error: headers");
    assert!(connect_direct(&config, Ok(vec![1_u8])).is_ok());
}

#[test]
fn only_connecting_is_bounded() {
    let config_with = |timeout| config("https://x", timeout);
    let bounded = config_with(Some(Timeout::from_millis(400)));
    let shown = format!("{:?}", backend_http_client_builder(&bounded));
    assert!(shown.contains("connect_timeout: 400ms"), "{shown}");
    assert!(!shown.contains(" timeout:"), "{shown}");
    let shown = format!("{:?}", backend_http_client_builder(&config_with(None)));
    assert!(!shown.contains("timeout:"), "{shown}");
    assert!(shown.contains("*/*"), "{shown}");
    let shown = format!("{:?}", backend_http_client(&bounded).unwrap());
    assert!(!shown.contains("timeout:"), "{shown}");
    let shown = format!("{:?}", oauth_http_client(&bounded, Ok(vec![])).unwrap().unwrap());
    assert!(!shown.contains("timeout:"), "{shown}");
}

/// Ten chunks of four bytes each, one every hundred milliseconds.
async fn drip() -> axum::body::Body {
    let chunks = futures::stream::unfold(0_u8, |index| async move {
        if index >= 10 {
            return None;
        }
        tokio::time::sleep(std::time::Duration::from_millis(100)).await;
        let chunk = axum::body::Bytes::from_static(b"tick");
        Some((Ok::<_, std::convert::Infallible>(chunk), index + 1))
    });
    axum::body::Body::from_stream(chunks)
}

#[test]
fn backend_timeout_does_not_sever_long_lived_streams() {
    let runtime = tokio::runtime::Builder::new_current_thread()
        .enable_all()
        .build()
        .unwrap();
    let directory = tempfile::tempdir().unwrap();
    let socket = directory.path().join("socket");
    let backend = config("http://localhost/stream", Some(Timeout::from_millis(400)));
    let body = runtime.block_on(async {
        let listener = tokio::net::UnixListener::bind(&socket).unwrap();
        let app = axum::Router::new().route("/stream", axum::routing::get(drip));
        let server = tokio::spawn(async move { axum::serve(listener, app).await.unwrap() });
        let client = backend_http_client_builder(&backend)
            .unix_socket(socket.as_path())
            .build()
            .unwrap();
        let response = client.get(&backend.command).send().await.unwrap();
        let body = response.bytes().await.unwrap();
        server.abort();
        body
    });
    assert_eq!(body.len(), 40);
}

#[test]
fn requests_get_a_little_more_than_the_timeout() {
    let client = BackendHttpClient::new((), Some(Timeout::from_millis(200)));
    assert_eq!(client.request_deadline(), Some(Timeout::from_millis(300)));
    assert_eq!(BackendHttpClient::new((), None).request_deadline(), None);
    let longest = Timeout::new(u64::MAX, 999_999_999);
    let client = BackendHttpClient::new((), Some(longest));
    assert_eq!(client.request_deadline(), Some(longest));
}

#[test]
fn requests_give_their_own_result_or_a_timeout() {
    let client = BackendHttpClient::new((), Some(Timeout::from_millis(200)));
    assert!(matches!(client.request::<_, u8>(RequestEnd::Finished(Ok(1))), Ok(1)));
    assert!(matches!(
        client.request::<u8, _>(RequestEnd::Finished(Err(2))),
        Err(RequestFailure::Own(2))
    ));
    assert!(matches!(
        client.request::<u8, u8>(RequestEnd::Elapsed),
        Err(RequestFailure::TimedOut("backend HTTP request timed out"))
    ));
}

fn header(name: &str, value: &'static str) -> (HeaderName, HeaderValue) {
    (
        HeaderName::from_bytes(name.as_bytes()).unwrap(),
        HeaderValue::from_static(value),
    )
}

#[test]
fn login_client_has_the_configured_headers() {
    let headers = vec![header("X-Tenant", "tenant-123")];
    let backend = config("http://127.0.0.1:0/mcp", None);
    let client = oauth_http_client(&backend, Ok(headers)).unwrap().unwrap();
    let shown = format!("{client:?}");
    assert!(shown.contains(r#""x-tenant": "tenant-123""#), "{shown}");
    assert!(shown.contains(r#""accept": "*/*""#), "{shown}");
}

#[test]
fn configured_header_replaces_what_the_client_would_send() {
    let headers = vec![header("accept", "text/plain"), header("Accept", "text/html")];
    let backend = config("http://127.0.0.1:0/mcp", None);
    let client = oauth_http_client(&backend, Ok(headers)).unwrap().unwrap();
    let shown = format!("{client:?}");
    assert!(shown.contains(r#""accept": "text/html""#), "{shown}");
    assert!(!shown.contains("*/*") && !shown.contains("text/plain"), "{shown}");
}

#[test]
fn header_map_keeps_names_in_order_and_last_values() {
    let list = vec![header("b", "1"), header("a", "2"), header("b", "3")];
    let map = header_map_of(list).unwrap();
    let shown: Vec<(&str, &str)> = map
        .iter()
        .map(|(name, value)| (name.as_str(), value.to_str().unwrap()))
        .collect();
    assert_eq!(shown, vec![("accept", "*/*"), ("b", "3"), ("a", "2")]);
}

#[test]
fn invalid_headers_end_a_login_before_it_begins() {
    let backend = config("http://127.0.0.1:0/mcp", None);
    let invalid = || Error::Config("invalid HTTP header name `invalid header`".to_string());
    let error = connect_oauth_streamable_http_backend(&backend, Err(invalid()))
        .unwrap()
        .unwrap_err();
    assert!(error.message().contains("invalid HTTP header name"));
    let error = oauth_http_client(&backend, Err(invalid())).unwrap().unwrap_err();
    assert!(error.message().contains("invalid HTTP header name"));
}

#[test]
fn many_headers_give_a_client_and_more_than_a_map_holds_give_none() {
    let headers = |count: usize| -> Vec<(HeaderName, HeaderValue)> {
        (0..count).map(|i| header(&format!("x-{i}"), "v")).collect()
    };
    let backend = config("http://x", None);
    for count in [0, 1, 6552, 6553, 6554, 7000, 24575] {
        let client = oauth_http_client(&backend, Ok(headers(count))).unwrap().unwrap();
        let shown = format!("{client:?}");
        assert_eq!(shown.matches(r#"": "v""#).count(), count);
        let login = connect_oauth_streamable_http_backend(&backend, Ok(headers(count)));
        assert!(login.unwrap().is_ok());
    }
    for count in [24576, 30000] {
        assert!(header_map_of(headers(count)).is_none());
        assert!(oauth_http_client(&backend, Ok(headers(count))).is_none());
        assert!(connect_oauth_streamable_http_backend(&backend, Ok(headers(count))).is_none());
    }
}

#[test]
fn login_begins_with_its_manager() {
    let mut backend = config("http://x/mcp", None);
    let login = connect_oauth_streamable_http_backend(&backend, Ok(vec![]))
        .unwrap()
        .unwrap();
    assert!(matches!(login.phase, OauthPhase::CreatingManager));
    assert_eq!(login.backend.uri, "http://x/mcp");
    assert_eq!(login.backend.name, "remote");
    assert_eq!(login.backend.registered_name(), "mcp-compressor");
    backend.oauth_app_name = Some("app".to_string());
    let login = begin_login(&backend, Ok(login.client)).unwrap();
    assert_eq!(login.backend.registered_name(), "app");
    let error = begin_login(&backend, Err(Error::Auth("no".to_string()))).unwrap_err();
    assert_eq!(error.message(), "auth error: no");
}

fn login_backend() -> OauthBackend {
    OauthBackend {
        uri: "http://x/mcp".to_string(),
        name: "remote".to_string(),
        app_name: None,
    }
}

fn go_on(phase: OauthPhase, event: OauthEvent<u8>) -> OauthPhase {
    match login_backend().advance(phase, event) {
        OauthStep::Continue(next) => next,
        other => panic!("expected to go on, got {other:?}"),
    }
}

fn failure(phase: OauthPhase, event: OauthEvent<u8>) -> String {
    match login_backend().advance(phase, event) {
        OauthStep::Failed(error) => error.message(),
        other => panic!("expected a failure, got {other:?}"),
    }
}

#[test]
fn login_goes_through_every_phase() {
    let phase = go_on(OauthPhase::CreatingManager, OauthEvent::Manager(Ok(())));
    let phase = go_on(phase, OauthEvent::StoreRemembered(Ok(())));
    let phase = go_on(phase, OauthEvent::CredentialsLoaded(Ok(false)));
    let phase = go_on(phase, OauthEvent::ListenerBound(Ok("http://127.0.0.1:1/cb".to_string())));
    assert!(matches!(
        &phase,
        OauthPhase::CreatingState { redirect_uri } if redirect_uri == "http://127.0.0.1:1/cb"
    ));
    let phase = go_on(phase, OauthEvent::StateCreated(Ok(true)));
    assert!(matches!(
        &phase,
        OauthPhase::StartingAuthorization { install_stores: true, redirect_uri }
            if redirect_uri == "http://127.0.0.1:1/cb"
    ));
    let phase = go_on(phase, OauthEvent::AuthorizationStarted(Ok(())));
    let phase = go_on(phase, OauthEvent::UrlKnown(Ok("http://auth".to_string())));
    assert!(matches!(
        &phase,
        OauthPhase::OpeningBrowser { auth_url } if auth_url == "http://auth"
    ));
    let phase = go_on(phase, OauthEvent::BrowserAsked(BrowserAnswer::Failed("x".to_string())));
    let phase = go_on(
        phase,
        OauthEvent::CallbackReceived(Ok(OauthCallback {
            code: "code".to_string(),
            state: "state".to_string(),
        })),
    );
    assert!(matches!(
        &phase,
        OauthPhase::CompletingLogin { code, state } if code == "code" && state == "state"
    ));
    let phase = go_on(phase, OauthEvent::LoginCompleted(Ok(())));
    let phase = go_on(phase, OauthEvent::ManagerTaken(true));
    assert!(matches!(
        login_backend().advance(phase, OauthEvent::Served(Ok(9_u8))),
        OauthStep::Connected(9)
    ));
}

#[test]
fn stored_credentials_need_no_login() {
    let phase = go_on(OauthPhase::LoadingCredentials, OauthEvent::CredentialsLoaded(Ok(true)));
    assert!(matches!(phase, OauthPhase::Serving));
}

#[test]
fn each_failure_of_a_login_says_what_failed() {
    let reason = || "r".to_string();
    let io = || std::io::Error::new(std::io::ErrorKind::Other, "io");
    let uri = || "u".to_string();
    assert_eq!(
        failure(OauthPhase::CreatingManager, OauthEvent::Manager(Err(reason()))),
        "config error: failed to initialize OAuth manager: r"
    );
    assert_eq!(
        failure(OauthPhase::RememberingStore, OauthEvent::StoreRemembered(Err(io()))),
        "IO error: io"
    );
    assert_eq!(
        failure(OauthPhase::LoadingCredentials, OauthEvent::CredentialsLoaded(Err(reason()))),
        "config error: failed to load OAuth credentials: r"
    );
    assert_eq!(
        failure(OauthPhase::BindingListener, OauthEvent::ListenerBound(Err(io()))),
        "IO error: io"
    );
    assert_eq!(
        failure(
            OauthPhase::CreatingState { redirect_uri: uri() },
            OauthEvent::StateCreated(Err(reason()))
        ),
        "config error: failed to initialize OAuth state: r"
    );
    assert_eq!(
        failure(
            OauthPhase::StartingAuthorization { install_stores: false, redirect_uri: uri() },
            OauthEvent::AuthorizationStarted(Err(reason()))
        ),
        "config error: failed to start OAuth authorization: r"
    );
    assert_eq!(
        failure(OauthPhase::GettingUrl, OauthEvent::UrlKnown(Err(reason()))),
        "config error: failed to get OAuth authorization URL: r"
    );
    assert_eq!(
        failure(
            OauthPhase::AwaitingCallback,
            OauthEvent::CallbackReceived(Err(CallbackFailure::Task(reason())))
        ),
        "config error: OAuth callback task failed: r"
    );
    assert_eq!(
        failure(
            OauthPhase::AwaitingCallback,
            OauthEvent::CallbackReceived(Err(CallbackFailure::Io(io())))
        ),
        "IO error: io"
    );
    assert_eq!(
        failure(
            OauthPhase::CompletingLogin { code: uri(), state: uri() },
            OauthEvent::LoginCompleted(Err(reason()))
        ),
        "config error: failed to complete OAuth authorization: r"
    );
    assert_eq!(
        failure(OauthPhase::TakingManager, OauthEvent::ManagerTaken(false)),
        "config error: OAuth authorization did not produce an authorized manager"
    );
    assert_eq!(
        failure(OauthPhase::Serving, OauthEvent::Served(Err("401".to_string()))),
        format!(
            "config error: failed to initialize remote streamable HTTP backend \
             http://x/mcp: 401{AUTH_REQUIRED_HINT}"
        )
    );
}

#[test]
fn login_tells_a_human_what_to_do() {
    let backend = login_backend();
    assert_eq!(
        backend.browser_message(&BrowserAnswer::Opened),
        "Opened browser to authorize remote."
    );
    assert_eq!(
        backend.browser_message(&BrowserAnswer::Disabled),
        "Browser opening disabled for remote."
    );
    assert_eq!(
        backend.browser_message(&BrowserAnswer::Failed("no display".to_string())),
        "Failed to open browser for remote: no display"
    );
    assert_eq!(
        backend.manual_message("http://auth"),
        "If the browser did not open, authorize remote with this URL:\nhttp://auth"
    );
}
