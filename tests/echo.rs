use echo_service::client::{error_line, report, response_line, response_line_from_quoted};
use echo_service::endpoint::{bind_address, endpoint_uri, DEFAULT_HOST, DEFAULT_PORT};
use echo_service::{Echo, EchoRequest, EchoResponse};

fn echo_text(m: &str) -> String {
    let echo = Echo::default();
    echo.echo(EchoRequest::new(m.to_string())).message
}

#[test]
fn echo_returns_the_payload() {
    assert_eq!(echo_text("hello"), "hello");
}

#[test]
fn echo_of_empty_payload_is_empty() {
    assert_eq!(echo_text(""), "");
}

#[test]
fn echo_keeps_multibyte_characters() {
    let m = "héllo, 世界 🦀";
    let r = echo_text(m);
    assert_eq!(r, m);
    assert_eq!(r.len(), m.len());
    assert_eq!(r.as_bytes(), m.as_bytes());
}

#[test]
fn echo_keeps_length_of_long_payload() {
    let m = "ab\u{e9}".repeat(10_000);
    let r = echo_text(&m);
    assert_eq!(r.len(), m.len());
    assert_eq!(r.chars().count(), m.chars().count());
}

#[test]
fn distinct_requests_get_their_own_responses() {
    let echo = Echo::default();
    let payloads = ["alpha", "beta", "gamma", ""];
    let responses: Vec<EchoResponse> = payloads
        .iter()
        .map(|p| echo.echo(EchoRequest::new(p.to_string())))
        .collect();
    for (p, r) in payloads.iter().zip(responses.iter()) {
        assert_eq!(&r.message, p);
    }
}

#[test]
fn response_new_keeps_message() {
    assert_eq!(EchoResponse::new("x".to_string()).message, "x");
}

#[test]
fn defaults_are_loopback_and_fixed_port() {
    assert_eq!(DEFAULT_HOST, "127.0.0.1");
    assert_eq!(DEFAULT_PORT, 50052);
}

#[test]
fn endpoint_uri_of_defaults() {
    assert_eq!(endpoint_uri(DEFAULT_HOST, DEFAULT_PORT), "http://127.0.0.1:50052");
}

#[test]
fn endpoint_uri_edge_ports() {
    assert_eq!(endpoint_uri("localhost", 0), "http://localhost:0");
    assert_eq!(endpoint_uri("example.org", 9), "http://example.org:9");
    assert_eq!(endpoint_uri("example.org", 10), "http://example.org:10");
    assert_eq!(endpoint_uri("h", 65535), "http://h:65535");
}

#[test]
fn bind_address_of_defaults() {
    assert_eq!(bind_address(DEFAULT_HOST, DEFAULT_PORT), "127.0.0.1:50052");
    assert_eq!(bind_address("0.0.0.0", 8080), "0.0.0.0:8080");
}

#[test]
fn response_line_quotes_the_text() {
    assert_eq!(response_line("hello"), "RESPONSE=\"hello\"");
    assert_eq!(response_line("say \"hi\""), "RESPONSE=\"say \\\"hi\\\"\"");
    assert_eq!(response_line(""), "RESPONSE=\"\"");
}

#[test]
fn response_line_from_quoted_prefixes() {
    assert_eq!(response_line_from_quoted("\"x\""), "RESPONSE=\"x\"");
}

#[test]
fn error_line_prefixes() {
    assert_eq!(error_line("connection refused"), "Error: connection refused");
}

#[test]
fn client_prints_hello_and_exits_zero() {
    let server = Echo::default();
    let reply = server.echo(EchoRequest::new("hello".to_string()));
    let r = report(&Ok(reply.message));
    assert_eq!(r.stdout, Some("RESPONSE=\"hello\"".to_string()));
    assert_eq!(r.stderr, None);
    assert_eq!(r.exit_code, 0);
}

#[test]
fn client_without_server_fails_without_response_line() {
    let r = report(&Err("transport error: connection refused".to_string()));
    assert_eq!(r.stdout, None);
    assert_ne!(r.exit_code, 0);
    let err = r.stderr.expect("an error is reported");
    assert_eq!(err, "Error: transport error: connection refused");
    assert!(!err.contains("RESPONSE="));
}
