use gemini_client::error::GeminiError;
use gemini_client::header::read_response_header;
use gemini_client::status::StatusCode;
use gemini_client::stream::ByteStream;

#[test]
fn reads_a_success_header_and_stops_at_the_body() {
    let mut stream = ByteStream::new(b"20 text/gmi\r\nhello".to_vec());
    let header = read_response_header(&mut stream).unwrap();
    assert_eq!(header.status, StatusCode::Success);
    assert_eq!(header.meta, "text/gmi".to_string());
    assert_eq!(stream.read_to_end(), b"hello".to_vec());
}

#[test]
fn reads_a_header_with_a_bare_line_feed() {
    let mut stream = ByteStream::new(b"20 text/gmi\nbody".to_vec());
    let header = read_response_header(&mut stream).unwrap();
    assert_eq!(header.status, StatusCode::Success);
    assert_eq!(header.meta, "text/gmi".to_string());
    assert_eq!(stream.read_to_end(), b"body".to_vec());
}

#[test]
fn reads_a_header_with_an_empty_meta() {
    let mut stream = ByteStream::new(b"51 \r\n".to_vec());
    let header = read_response_header(&mut stream).unwrap();
    assert_eq!(header.status, StatusCode::NotFound);
    assert_eq!(header.meta, "".to_string());
}

#[test]
fn reads_a_non_ascii_meta() {
    let mut stream = ByteStream::new("20 text/gmi; charset=café\r\n".as_bytes().to_vec());
    let header = read_response_header(&mut stream).unwrap();
    assert_eq!(header.meta, "text/gmi; charset=café".to_string());
}

#[test]
fn one_byte_is_a_truncated_header() {
    let mut stream = ByteStream::new(b"2".to_vec());
    assert_eq!(
        read_response_header(&mut stream),
        Err(GeminiError::TruncatedHeader)
    );
    assert_eq!(stream.read_to_end(), b"2".to_vec());
}

#[test]
fn an_empty_stream_is_a_truncated_header() {
    let mut stream = ByteStream::new(Vec::new());
    assert_eq!(
        read_response_header(&mut stream),
        Err(GeminiError::TruncatedHeader)
    );
}

#[test]
fn non_digit_status_bytes_are_malformed_status() {
    let mut stream = ByteStream::new(b"ab text/gmi\r\n".to_vec());
    assert_eq!(
        read_response_header(&mut stream),
        Err(GeminiError::MalformedStatus)
    );
}

#[test]
fn one_digit_one_letter_is_malformed_status() {
    let mut stream = ByteStream::new(b"2x \r\n".to_vec());
    assert_eq!(
        read_response_header(&mut stream),
        Err(GeminiError::MalformedStatus)
    );
}

#[test]
fn an_undefined_two_digit_code_is_unknown_status() {
    let mut stream = ByteStream::new(b"99 nope\r\n".to_vec());
    assert_eq!(
        read_response_header(&mut stream),
        Err(GeminiError::UnknownStatus)
    );
}

#[test]
fn a_missing_space_is_a_malformed_header() {
    let mut stream = ByteStream::new(b"20text/gmi\r\n".to_vec());
    assert_eq!(
        read_response_header(&mut stream),
        Err(GeminiError::MalformedHeader)
    );
}

#[test]
fn a_header_without_a_newline_is_truncated() {
    let mut stream = ByteStream::new(b"20 text/gmi".to_vec());
    assert_eq!(
        read_response_header(&mut stream),
        Err(GeminiError::TruncatedHeader)
    );
}

#[test]
fn a_meta_over_the_cap_is_too_long() {
    let mut data = b"20 ".to_vec();
    data.extend(std::iter::repeat(b'a').take(1100));
    data.extend(b"\r\n");
    let mut stream = ByteStream::new(data);
    assert_eq!(
        read_response_header(&mut stream),
        Err(GeminiError::HeaderTooLong)
    );
}

#[test]
fn a_meta_at_the_cap_is_accepted() {
    let mut data = b"20 ".to_vec();
    data.extend(std::iter::repeat(b'a').take(1024));
    data.extend(b"\r\nrest");
    let mut stream = ByteStream::new(data);
    let header = read_response_header(&mut stream).unwrap();
    assert_eq!(header.meta.len(), 1024);
    assert_eq!(stream.read_to_end(), b"rest".to_vec());
}

#[test]
fn an_unterminated_flood_is_too_long() {
    let mut data = b"20 ".to_vec();
    data.extend(std::iter::repeat(b'a').take(2000));
    let mut stream = ByteStream::new(data);
    assert_eq!(
        read_response_header(&mut stream),
        Err(GeminiError::HeaderTooLong)
    );
}

#[test]
fn non_utf8_meta_is_an_invalid_encoding() {
    let mut stream = ByteStream::new(vec![b'2', b'0', b' ', 0xff, 0xfe, b'\n']);
    assert_eq!(
        read_response_header(&mut stream),
        Err(GeminiError::InvalidEncoding)
    );
}

#[test]
fn a_failed_read_leaves_the_stream_untouched() {
    let mut stream = ByteStream::new(b"2x something".to_vec());
    assert!(read_response_header(&mut stream).is_err());
    assert_eq!(stream.read_to_end(), b"2x something".to_vec());
}

#[test]
fn a_header_cut_after_the_status_is_truncated() {
    let mut stream = ByteStream::new(b"20".to_vec());
    assert_eq!(
        read_response_header(&mut stream),
        Err(GeminiError::TruncatedHeader)
    );
}
