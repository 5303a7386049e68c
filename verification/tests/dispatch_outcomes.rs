use gemini_client::dispatch::{dispatch, is_text_media, DispatchOutcome};
use gemini_client::error::GeminiError;
use gemini_client::header::read_response_header;
use gemini_client::status::StatusCode;
use gemini_client::stream::ByteStream;

#[test]
fn a_text_success_yields_the_body() {
    let mut stream = ByteStream::new(b"20 text/gmi\r\nhello".to_vec());
    let header = read_response_header(&mut stream).unwrap();
    let outcome = dispatch(header, &mut stream).unwrap();
    assert_eq!(outcome, DispatchOutcome::Body("hello".to_string()));
}

#[test]
fn a_failure_status_never_reads_the_body() {
    let mut stream = ByteStream::new(b"51 not found\r\ntrailing bytes".to_vec());
    let header = read_response_header(&mut stream).unwrap();
    let outcome = dispatch(header, &mut stream).unwrap();
    assert_eq!(
        outcome,
        DispatchOutcome::Failure(StatusCode::NotFound, "not found".to_string())
    );
    assert_eq!(stream.read_to_end(), b"trailing bytes".to_vec());
}

#[test]
fn a_non_text_media_type_is_unsupported_and_unread() {
    let mut stream = ByteStream::new(b"20 application/octet-stream\r\n\x01\x02\x03".to_vec());
    let header = read_response_header(&mut stream).unwrap();
    let outcome = dispatch(header, &mut stream).unwrap();
    assert_eq!(
        outcome,
        DispatchOutcome::UnsupportedMediaType("application/octet-stream".to_string())
    );
    assert_eq!(stream.read_to_end(), b"\x01\x02\x03".to_vec());
}

#[test]
fn a_redirect_carries_the_target() {
    let mut stream = ByteStream::new(b"31 gemini://elsewhere.org/\r\n".to_vec());
    let header = read_response_header(&mut stream).unwrap();
    let outcome = dispatch(header, &mut stream).unwrap();
    assert_eq!(
        outcome,
        DispatchOutcome::Redirect("gemini://elsewhere.org/".to_string())
    );
}

#[test]
fn an_input_status_carries_the_prompt() {
    let mut stream = ByteStream::new(b"10 Search terms?\r\n".to_vec());
    let header = read_response_header(&mut stream).unwrap();
    let outcome = dispatch(header, &mut stream).unwrap();
    assert_eq!(
        outcome,
        DispatchOutcome::InputRequested("Search terms?".to_string())
    );
}

#[test]
fn a_temporary_failure_carries_the_detail() {
    let mut stream = ByteStream::new(b"44 slow down\r\n".to_vec());
    let header = read_response_header(&mut stream).unwrap();
    let outcome = dispatch(header, &mut stream).unwrap();
    assert_eq!(
        outcome,
        DispatchOutcome::Failure(StatusCode::SlowDown, "slow down".to_string())
    );
}

#[test]
fn a_cert_error_carries_the_detail() {
    let mut stream = ByteStream::new(b"60 need a certificate\r\n".to_vec());
    let header = read_response_header(&mut stream).unwrap();
    let outcome = dispatch(header, &mut stream).unwrap();
    assert_eq!(
        outcome,
        DispatchOutcome::Failure(
            StatusCode::ClientCertificateRequired,
            "need a certificate".to_string()
        )
    );
}

#[test]
fn a_non_utf8_body_is_an_invalid_encoding() {
    let mut stream = ByteStream::new(b"20 text/gmi\r\n\xff\xfe".to_vec());
    let header = read_response_header(&mut stream).unwrap();
    assert_eq!(
        dispatch(header, &mut stream),
        Err(GeminiError::InvalidEncoding)
    );
}

#[test]
fn an_empty_text_body_is_an_empty_string() {
    let mut stream = ByteStream::new(b"20 text/plain\r\n".to_vec());
    let header = read_response_header(&mut stream).unwrap();
    let outcome = dispatch(header, &mut stream).unwrap();
    assert_eq!(outcome, DispatchOutcome::Body("".to_string()));
}

#[test]
fn a_multibyte_text_body_is_decoded() {
    let mut stream = ByteStream::new("20 text/gmi\r\nπ café".as_bytes().to_vec());
    let header = read_response_header(&mut stream).unwrap();
    let outcome = dispatch(header, &mut stream).unwrap();
    assert_eq!(outcome, DispatchOutcome::Body("π café".to_string()));
}

#[test]
fn text_media_types_are_recognised_by_prefix() {
    assert!(is_text_media("text/gmi"));
    assert!(is_text_media("text/plain; charset=utf-8"));
    assert!(is_text_media("text/"));
    assert!(!is_text_media("text"));
    assert!(!is_text_media("application/octet-stream"));
    assert!(!is_text_media(""));
    assert!(!is_text_media("TEXT/gmi"));
}
