use simple_web_server::request::{parse_request_line, scan_request_line, ParseError, RequestScan};

#[test]
fn parses_a_well_formed_start_line() {
    let req = parse_request_line(b"GET / HTTP/1.1\r\n").unwrap();
    assert_eq!(req.method, "GET");
    assert_eq!(req.request_uri, "/");
    assert_eq!(req.http_version, "HTTP/1.1");
}

#[test]
fn parses_arbitrary_token_contents() {
    let req = parse_request_line("POST /a/b?q=1 proto-x\r\ntrailing bytes".as_bytes()).unwrap();
    assert_eq!(req.method, "POST");
    assert_eq!(req.request_uri, "/a/b?q=1");
    assert_eq!(req.http_version, "proto-x");
}

#[test]
fn decodes_multibyte_tokens_as_text() {
    let req = parse_request_line(b"G\xc3\xa9T /caf\xc3\xa9 HTTP/1.1\r\n").unwrap();
    assert_eq!(req.method, "G\u{e9}T");
    assert_eq!(req.request_uri, "/caf\u{e9}");
    assert_eq!(req.http_version, "HTTP/1.1");
}

#[test]
fn rejects_wrong_token_counts() {
    assert_eq!(
        parse_request_line(b"GET\r\n").unwrap_err(),
        ParseError::MalformedTokenCount
    );
    assert_eq!(
        parse_request_line(b"GET /\r\n").unwrap_err(),
        ParseError::MalformedTokenCount
    );
    assert_eq!(
        parse_request_line(b"GET / HTTP/1.1 EXTRA\r\n").unwrap_err(),
        ParseError::MalformedTokenCount
    );
    assert_eq!(
        parse_request_line(b"\r\n").unwrap_err(),
        ParseError::MalformedTokenCount
    );
}

#[test]
fn rejects_an_empty_input() {
    assert_eq!(
        parse_request_line(b"").unwrap_err(),
        ParseError::IncompleteRequest
    );
}

#[test]
fn rejects_lines_without_a_proper_terminator() {
    // No CRLF at all.
    assert_eq!(
        parse_request_line(b"GET / HTTP/1.1").unwrap_err(),
        ParseError::IncompleteRequest
    );
    // A bare LF is an ordinary token byte, so the line is never closed.
    assert_eq!(
        parse_request_line(b"GET / HTTP/1.1\n").unwrap_err(),
        ParseError::IncompleteRequest
    );
    // CR followed by something other than LF.
    assert_eq!(
        parse_request_line(b"GET / HTTP/1.1\rX").unwrap_err(),
        ParseError::MissingTerminator
    );
    // CR at the very end of the input.
    assert_eq!(
        parse_request_line(b"GET / HTTP/1.1 EXTRA\r").unwrap_err(),
        ParseError::MissingTerminator
    );
    // LF before CR closes nothing: the CR then ends the input.
    assert_eq!(
        parse_request_line(b"GET / HTTP/1.1 EXTRA\n\r").unwrap_err(),
        ParseError::MissingTerminator
    );
}

#[test]
fn rejects_tokens_that_are_not_text() {
    assert_eq!(
        parse_request_line(b"\xff / HTTP/1.1\r\n").unwrap_err(),
        ParseError::InvalidEncoding
    );
    // The broken token is noticed the moment it closes, before the line's
    // other problems come into view.
    assert_eq!(
        parse_request_line(b"\xff only-two\r\n").unwrap_err(),
        ParseError::InvalidEncoding
    );
}

#[test]
fn reports_when_more_input_is_needed() {
    assert!(matches!(
        scan_request_line(b"GET / HT"),
        RequestScan::AwaitingInput(ParseError::IncompleteRequest)
    ));
    assert!(matches!(
        scan_request_line(b"GET / HTTP/1.1\r"),
        RequestScan::AwaitingInput(ParseError::MissingTerminator)
    ));
    assert!(matches!(
        scan_request_line(b"GET / HTTP/1.1\r\n"),
        RequestScan::Parsed(_)
    ));
    assert!(matches!(
        scan_request_line(b"GET / HTTP/1.1\rX"),
        RequestScan::Refused(ParseError::MissingTerminator)
    ));
}
