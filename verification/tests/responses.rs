use simple_web_server::response::{write_http_response, HttpStatus};

#[test]
fn builds_a_success_response_byte_for_byte() {
    let body = b"<html>Hello</html>".to_vec();
    let response = write_http_response(HttpStatus::Success, &body);
    let expected = b"HTTP/1.1 200 OK\r\n\
        Content-Length: 18\r\n\
        Content-Type: text/html\r\n\
        Connection: Closed\r\n\r\n\
        <html>Hello</html>"
        .to_vec();
    assert_eq!(response, expected);
}

#[test]
fn builds_a_not_found_response() {
    let body = b"missing".to_vec();
    let response = write_http_response(HttpStatus::NotFound, &body);
    let expected = b"HTTP/1.1 404 NOT FOUND\r\n\
        Content-Length: 7\r\n\
        Content-Type: text/html\r\n\
        Connection: Closed\r\n\r\n\
        missing"
        .to_vec();
    assert_eq!(response, expected);
}

#[test]
fn builds_a_server_error_response() {
    let body = b"oops".to_vec();
    let response = write_http_response(HttpStatus::ServerError, &body);
    let expected = b"HTTP/1.1 500 INTERNAL SERVER ERROR\r\n\
        Content-Length: 4\r\n\
        Content-Type: text/html\r\n\
        Connection: Closed\r\n\r\n\
        oops"
        .to_vec();
    assert_eq!(response, expected);
}

#[test]
fn counts_an_empty_body_as_zero() {
    let body = Vec::new();
    let response = write_http_response(HttpStatus::Success, &body);
    let expected = b"HTTP/1.1 200 OK\r\n\
        Content-Length: 0\r\n\
        Content-Type: text/html\r\n\
        Connection: Closed\r\n\r\n"
        .to_vec();
    assert_eq!(response, expected);
}

#[test]
fn content_length_carries_every_digit() {
    let body = vec![b'x'; 105];
    let response = write_http_response(HttpStatus::Success, &body);
    let text = String::from_utf8(response).unwrap();
    assert!(text.contains("\r\nContent-Length: 105\r\n"));
    assert!(text.ends_with(&"x".repeat(105)));
}
