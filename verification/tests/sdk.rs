use mcp_compressor_core::error::Error;
use mcp_compressor_core::sdk::{normalize_sdk_server, normalize_sdk_servers, FfiSdkServerConfig};

fn texts(list: &[&str]) -> Vec<String> {
    list.iter().map(|text| text.to_string()).collect()
}

fn structured(
    command: Option<&str>,
    url: Option<&str>,
    args: &[&str],
    headers: &[(&str, &str)],
) -> FfiSdkServerConfig {
    FfiSdkServerConfig::Structured {
        command: command.map(str::to_string),
        url: url.map(str::to_string),
        args: texts(args),
        headers: headers
            .iter()
            .map(|(key, value)| (key.to_string(), value.to_string()))
            .collect(),
        oauth_app_name: Some("app".to_string()),
    }
}

#[test]
fn bare_text_is_a_command_without_arguments() {
    let backend = normalize_sdk_server(
        "alpha".to_string(),
        FfiSdkServerConfig::CommandOrUrl("https://example.com/mcp".to_string()),
    )
    .unwrap();
    assert_eq!(backend.name, "alpha");
    assert_eq!(backend.command_or_url, "https://example.com/mcp");
    assert!(backend.args.is_empty());
    assert_eq!(backend.oauth_app_name, None);
}

#[test]
fn without_headers_arguments_are_unchanged() {
    let backend = normalize_sdk_server(
        "alpha".to_string(),
        structured(Some("python3"), None, &["server.py", "-v"], &[]),
    )
    .unwrap();
    assert_eq!(backend.command_or_url, "python3");
    assert_eq!(backend.args, texts(&["server.py", "-v"]));
    assert_eq!(backend.oauth_app_name, Some("app".to_string()));
}

#[test]
fn url_wins_over_command() {
    let backend = normalize_sdk_server(
        "alpha".to_string(),
        structured(Some("python3"), Some("https://example.com"), &[], &[]),
    )
    .unwrap();
    assert_eq!(backend.command_or_url, "https://example.com");
}

#[test]
fn headers_become_arguments_and_fix_the_auth_mode() {
    let backend = normalize_sdk_server(
        "alpha".to_string(),
        structured(
            None,
            Some("https://example.com"),
            &["--timeout", "5"],
            &[("Authorization", "Bearer a=b"), ("X-Tenant", "t")],
        ),
    )
    .unwrap();
    assert_eq!(
        backend.args,
        texts(&[
            "-H",
            "Authorization=Bearer a=b",
            "-H",
            "X-Tenant=t",
            "--auth",
            "explicit-headers",
            "--timeout",
            "5",
        ])
    );
}

#[test]
fn chosen_auth_mode_is_respected() {
    let backend = normalize_sdk_server(
        "alpha".to_string(),
        structured(
            None,
            Some("https://example.com"),
            &["--auth", "oauth"],
            &[("X-Tenant", "t")],
        ),
    )
    .unwrap();
    assert_eq!(backend.args, texts(&["-H", "X-Tenant=t", "--auth", "oauth"]));
}

#[test]
fn server_without_command_or_url_is_refused() {
    let error = normalize_sdk_server("alpha".to_string(), structured(None, None, &[], &[]))
        .unwrap_err();
    assert!(matches!(
        error,
        Error::Config(reason) if reason == "server alpha must define command or url"
    ));
}

#[test]
fn servers_keep_their_order() {
    let backends = normalize_sdk_servers(vec![
        ("b".to_string(), FfiSdkServerConfig::CommandOrUrl("x".to_string())),
        ("a".to_string(), structured(Some("y"), None, &[], &[])),
    ])
    .unwrap();
    let names: Vec<&str> = backends.iter().map(|backend| backend.name.as_str()).collect();
    assert_eq!(names, vec!["b", "a"]);
}

#[test]
fn first_undefined_server_is_reported() {
    let error = normalize_sdk_servers(vec![
        ("a".to_string(), FfiSdkServerConfig::CommandOrUrl("x".to_string())),
        ("b".to_string(), structured(None, None, &[], &[])),
        ("c".to_string(), structured(None, None, &[], &[])),
    ])
    .unwrap_err();
    assert_eq!(
        error.message(),
        "config error: server b must define command or url"
    );
}

#[test]
fn no_servers_give_no_backends() {
    assert!(normalize_sdk_servers(vec![]).unwrap().is_empty());
}
