use gemini_client::error::GeminiError;
use gemini_client::request::{build_uri, split_request_line};

#[test]
fn build_adds_the_scheme() {
    let line = build_uri("example.org", "/foo").unwrap();
    assert_eq!(line, "gemini://example.org/foo\r\n".to_string());
}

#[test]
fn build_keeps_an_existing_scheme() {
    let line = build_uri("gemini://example.org", "/foo").unwrap();
    assert_eq!(line, "gemini://example.org/foo\r\n".to_string());
}

#[test]
fn build_with_empty_resource() {
    let line = build_uri("example.org", "").unwrap();
    assert_eq!(line, "gemini://example.org\r\n".to_string());
}

#[test]
fn build_ends_with_exactly_one_terminator() {
    let line = build_uri("example.org", "/a/b?q=1").unwrap();
    assert!(line.ends_with("\r\n"));
    let inner = &line[..line.len() - 2];
    assert!(!inner.contains('\r'));
    assert!(!inner.contains('\n'));
}

#[test]
fn build_rejects_line_breaks_in_host() {
    assert_eq!(
        build_uri("evil\r\nhost", "/foo"),
        Err(GeminiError::MalformedRequest)
    );
}

#[test]
fn build_rejects_line_breaks_in_resource() {
    assert_eq!(
        build_uri("example.org", "/foo\nbar"),
        Err(GeminiError::MalformedRequest)
    );
    assert_eq!(
        build_uri("example.org", "/foo\rbar"),
        Err(GeminiError::MalformedRequest)
    );
}

#[test]
fn round_trip_recovers_host_and_resource() {
    let line = build_uri("example.org", "/foo").unwrap();
    let (host, resource) = split_request_line(&line).unwrap();
    assert_eq!(host, "example.org".to_string());
    assert_eq!(resource, "/foo".to_string());
}

#[test]
fn round_trip_with_empty_resource() {
    let line = build_uri("example.org", "").unwrap();
    let (host, resource) = split_request_line(&line).unwrap();
    assert_eq!(host, "example.org".to_string());
    assert_eq!(resource, "".to_string());
}

#[test]
fn split_rejects_a_line_without_terminator() {
    assert!(split_request_line("gemini://example.org/foo").is_none());
}

#[test]
fn split_rejects_a_line_without_scheme() {
    assert!(split_request_line("http://example.org/\r\n").is_none());
}
