use unsend::http::{
    answer, body_length, format_decimal, greeting_response, headers_complete,
    numbered_greeting_response, parse_decimal, response, RequestError,
};

#[test]
fn body_length_reads_content_length_in_any_case() {
    let req = b"POST / HTTP/1.1\r\nHost: x\r\ncontent-LENGTH: 5\r\n\r\n";
    assert_eq!(body_length(req), Ok(5));
}

#[test]
fn body_length_is_zero_without_the_header() {
    let req = b"GET / HTTP/1.1\r\nHost: x\r\n\r\n";
    assert_eq!(body_length(req), Ok(0));
}

#[test]
fn body_length_takes_the_first_header() {
    let req = b"POST / HTTP/1.1\r\nContent-Length: 3\r\nContent-Length: 9\r\n\r\n";
    assert_eq!(body_length(req), Ok(3));
}

#[test]
fn body_length_errors() {
    assert_eq!(body_length(b"\x01\x02 / HTTP/1.1\r\n\r\n"), Err(RequestError::Malformed));
    let bad = b"POST / HTTP/1.1\r\nContent-Length: x1\r\n\r\n";
    assert_eq!(body_length(bad), Err(RequestError::BadLength));
    let invalid = b"POST / HTTP/1.1\r\nContent-Length: \xff\r\n\r\n";
    assert_eq!(body_length(invalid), Err(RequestError::NotUtf8));
}

#[test]
fn parse_decimal_follows_from_str() {
    for s in ["0", "12", "+7", "", "+", "-1", "1 ", "18446744073709551615", "18446744073709551616"] {
        assert_eq!(parse_decimal(s.as_bytes()), s.parse::<usize>().ok(), "{}", s);
    }
}

#[test]
fn format_decimal_writes_digits() {
    assert_eq!(format_decimal(0), b"0".to_vec());
    assert_eq!(format_decimal(1234), b"1234".to_vec());
    assert_eq!(format_decimal(u64::MAX), u64::MAX.to_string().into_bytes());
    let n = 908070;
    assert_eq!(parse_decimal(&format_decimal(n)), Some(n as usize));
}

#[test]
fn headers_end_at_an_empty_line() {
    assert!(headers_complete(b"GET / HTTP/1.1\r\n\r\n"));
    assert!(!headers_complete(b"GET / HTTP/1.1\r\n"));
    assert!(!headers_complete(b"\r\n"));
}

#[test]
fn responses() {
    assert_eq!(
        greeting_response(),
        b"HTTP/1.1 200 OK\r\nContent-Length: 12\r\n\r\nHello world!".to_vec()
    );
    assert_eq!(
        response(b"abc"),
        b"HTTP/1.1 200 OK\r\nContent-Length: 3\r\n\r\nabc".to_vec()
    );
    assert_eq!(answer(0, b""), greeting_response());
    assert_eq!(answer(2, b"xy"), response(b"xy"));
    // A body that was announced but did not arrive is echoed back empty.
    assert_eq!(answer(5, b""), response(b""));
    assert_eq!(
        numbered_greeting_response(7),
        b"HTTP/1.1 200 OK\r\nContent-Length: 15\r\n\r\nHello, world! 7".to_vec()
    );
}
