//! Building response bytes.
//!
//! Every response has the same shape: a status line, a `Content-Length`
//! header counting the body's bytes, two fixed headers, a blank line, and
//! the body itself. The whole wire image is specified byte for byte.

use vstd::prelude::*;
use vstd::string::StrSliceExecFns;
use vstd::utf8::encode_utf8;

verus! {

/// The status lines this server uses.
#[derive(Clone, Copy, Debug, PartialEq, Eq, Structural)]
pub enum HttpStatus {
    /// `200 OK`: the route was found and its content loaded.
    Success,
    /// `404 NOT FOUND`: the request parsed but no route matches its target.
    NotFound,
    /// `500 INTERNAL SERVER ERROR`: the request could not be parsed, or the
    /// routed content could not be loaded.
    ServerError,
}

/// The text of a status line, without the protocol prefix.
pub open spec fn status_text(status: HttpStatus) -> Seq<char> {
    match status {
        HttpStatus::Success => "200 OK"@,
        HttpStatus::NotFound => "404 NOT FOUND"@,
        HttpStatus::ServerError => "500 INTERNAL SERVER ERROR"@,
    }
}

/// The decimal digits of `n`, most significant first, as ASCII bytes.
pub open spec fn decimal_digits(n: nat) -> Seq<u8>
    decreases n,
{
    if n < 10 {
        seq![(48 + n) as u8]
    } else {
        decimal_digits(n / 10).push((48 + n % 10) as u8)
    }
}

/// Everything that precedes the body on the wire: the status line, a
/// `Content-Length` of `len`, the two fixed headers, and the blank line.
pub open spec fn header_bytes(status: HttpStatus, len: nat) -> Seq<u8> {
    encode_utf8("HTTP/1.1 "@) + encode_utf8(status_text(status)) + encode_utf8(
        "\r\nContent-Length: "@,
    ) + decimal_digits(len) + encode_utf8("\r\nContent-Type: text/html\r\nConnection: Closed\r\n\r\n"@)
}

/// The complete wire image of a response with the given status and body:
/// the headers, with `Content-Length` counting the body's bytes, followed by
/// the body.
pub open spec fn response_bytes(status: HttpStatus, body: Seq<u8>) -> Seq<u8> {
    header_bytes(status, body.len()) + body
}

/// The status line text for a status.
fn status_str(status: HttpStatus) -> (r: &'static str)
    ensures
        r@ == status_text(status),
{
    match status {
        HttpStatus::Success => "200 OK",
        HttpStatus::NotFound => "404 NOT FOUND",
        HttpStatus::ServerError => "500 INTERNAL SERVER ERROR",
    }
}

/// Appends the UTF-8 bytes of `s` to `out`.
fn push_str_bytes(out: &mut Vec<u8>, s: &str)
    ensures
        final(out)@ == old(out)@ + encode_utf8(s@),
{
    let bytes = s.as_bytes_vec();
    let mut k: usize = 0;
    while k < bytes.len()
        invariant
            k <= bytes@.len(),
            bytes@ == encode_utf8(s@),
            out@ == old(out)@ + bytes@.subrange(0, k as int),
        decreases bytes@.len() - k,
    {
        out.push(bytes[k]);
        assert(old(out)@ + bytes@.subrange(0, k as int) + seq![bytes@[k as int]] =~= old(out)@
            + bytes@.subrange(0, k as int + 1));
        k = k + 1;
    }
    assert(bytes@.subrange(0, bytes@.len() as int) =~= bytes@);
}

/// Appends the decimal digits of `n` to `out`.
fn push_decimal(out: &mut Vec<u8>, n: usize)
    ensures
        final(out)@ == old(out)@ + decimal_digits(n as nat),
    decreases n,
{
    if n >= 10 {
        assert(n / 10 < n) by (nonlinear_arith)
            requires
                n >= 10,
        ;
        push_decimal(out, n / 10);
    }
    let digit: u8 = 48 + (n % 10) as u8;
    out.push(digit);
    assert(old(out)@ + decimal_digits(n as nat) =~= out@);
}

/// Builds the complete response for a status and body, exactly as it goes
/// onto the wire.
pub fn write_http_response(status: HttpStatus, body: &Vec<u8>) -> (r: Vec<u8>)
    ensures
        r@ == response_bytes(status, body@),
{
    let mut out: Vec<u8> = Vec::new();
    push_str_bytes(&mut out, "HTTP/1.1 ");
    push_str_bytes(&mut out, status_str(status));
    push_str_bytes(&mut out, "\r\nContent-Length: ");
    push_decimal(&mut out, body.len());
    push_str_bytes(&mut out, "\r\nContent-Type: text/html\r\nConnection: Closed\r\n\r\n");
    assert(out@ =~= header_bytes(status, body@.len()) + body@.subrange(0, 0));
    let mut k: usize = 0;
    while k < body.len()
        invariant
            k <= body@.len(),
            out@ == header_bytes(status, body@.len()) + body@.subrange(0, k as int),
        decreases body@.len() - k,
    {
        out.push(body[k]);
        k = k + 1;
        assert(out@ =~= header_bytes(status, body@.len()) + body@.subrange(0, k as int));
    }
    assert(out@ =~= response_bytes(status, body@));
    out
}

} // verus!
