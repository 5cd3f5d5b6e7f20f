use mcp_compressor_core::error::Error;
use mcp_compressor_core::timeout::Timeout;

fn json_error() -> serde_json::Error {
    serde_json::from_str::<serde_json::Value>("[1,").unwrap_err()
}

fn http_error() -> reqwest::Error {
    reqwest::Client::builder().user_agent("\n").build().unwrap_err()
}

#[test]
fn names_are_quoted() {
    assert_eq!(
        Error::UnknownCompressionLevel("ma\"x".to_string()).message(),
        r#"unknown compression level: "ma\"x""#
    );
    assert_eq!(
        Error::ToolNotFound("a\\b\n".to_string()).message(),
        r#"tool not found: "a\\b\n""#
    );
}

#[test]
fn reasons_follow_their_prefix() {
    assert_eq!(Error::Parse("p".to_string()).message(), "parse error: p");
    assert_eq!(Error::Validation("v".to_string()).message(), "validation error: v");
    assert_eq!(Error::Auth("a".to_string()).message(), "auth error: a");
    assert_eq!(Error::Config("c".to_string()).message(), "config error: c");
    assert_eq!(Error::LlmAssist("l".to_string()).message(), "LLM assist error: l");
}

#[test]
fn carried_errors_show_their_text() {
    let expected = format!("JSON error: {}", json_error());
    assert_eq!(Error::from(json_error()).message(), expected);
    assert_eq!(expected, "JSON error: EOF while parsing a value at line 1 column 3");

    let source = std::io::Error::new(std::io::ErrorKind::NotFound, "gone");
    assert_eq!(Error::from(source).message(), "IO error: gone");

    let expected = format!("HTTP error: {}", http_error());
    assert_eq!(Error::from(http_error()).message(), expected);
    assert!(expected.len() > "HTTP error: ".len());
}

struct BrokenStream;

impl std::io::Read for BrokenStream {
    fn read(&mut self, _buffer: &mut [u8]) -> std::io::Result<usize> {
        Err(std::io::Error::new(std::io::ErrorKind::Other, "broken stream"))
    }
}

#[test]
fn texts_of_stream_errors_rest_on_the_machine() {
    let stream = serde_json::from_reader::<_, serde_json::Value>(BrokenStream).unwrap_err();
    let error = Error::from(stream);
    assert!(error.depends_on_machine());
    assert!(error.message().starts_with("JSON error: broken stream"));
    let gone = std::io::Error::new(std::io::ErrorKind::NotFound, "gone");
    assert!(Error::Io(gone).depends_on_machine());
    assert!(!Error::from(json_error()).depends_on_machine());
    assert!(!Error::from(http_error()).depends_on_machine());
    assert!(!Error::Config("c".to_string()).depends_on_machine());
}

#[test]
fn conversions_keep_the_kind() {
    assert!(matches!(Error::from(json_error()), Error::Json(_)));
    assert!(matches!(Error::from(http_error()), Error::Http(_)));
    let source = std::io::Error::new(std::io::ErrorKind::NotFound, "gone");
    assert!(matches!(
        Error::from(source),
        Error::Io(error) if error.kind() == std::io::ErrorKind::NotFound
    ));
}

#[test]
fn message_can_be_given_the_text_of_the_source() {
    assert_eq!(Error::Json(json_error()).message_with("x"), "JSON error: x");
    assert_eq!(Error::Config("c".to_string()).message_with("x"), "config error: c");
}

#[test]
fn timeouts_name_backend_operation_and_span() {
    let error = Error::BackendTimeout {
        backend: "slow".to_string(),
        operation: "list tools".to_string(),
        timeout: Timeout::from_millis(500),
    };
    assert_eq!(
        error.message(),
        r#"backend "slow" timed out during list tools after 500ms"#
    );
}

#[test]
fn spans_are_written_as_durations_are() {
    for (secs, nanos) in [
        (0, 0),
        (0, 1),
        (0, 500_000_000),
        (1, 500_000_000),
        (90, 0),
        (u64::MAX, 999_999_999),
    ] {
        let duration = std::time::Duration::new(secs, nanos);
        assert_eq!(Timeout::new(secs, nanos).to_text(), format!("{duration:?}"));
    }
    assert_eq!(Timeout::from_millis(1500).to_text(), "1.5s");
}

#[test]
fn spans_keep_their_parts() {
    let timeout = Timeout::new(2, 3_000_000_004);
    assert_eq!(timeout.as_secs(), 5);
    assert_eq!(timeout.subsec_nanos(), 4);
    assert_eq!(Timeout::from_millis(1_234).as_secs(), 1);
    assert_eq!(Timeout::from_millis(1_234).subsec_nanos(), 234_000_000);
    assert!(Timeout::new(0, 0).is_zero());
    assert!(!Timeout::new(0, 1).is_zero());
}

#[test]
fn sums_saturate() {
    let sum = Timeout::new(1, 999_999_999).saturating_add(Timeout::new(2, 1));
    assert_eq!(sum, Timeout::new(4, 0));
    let longest = Timeout::new(u64::MAX, 999_999_999);
    assert_eq!(longest.saturating_add(Timeout::new(0, 1)), longest);
    assert_eq!(
        Timeout::new(u64::MAX, 0).saturating_add(Timeout::new(1, 0)),
        longest
    );
}
