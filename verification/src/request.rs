//! Tokenizing a request start-line.
//!
//! A request is a single line of the form `METHOD SP TARGET SP VERSION CR LF`.
//! The scanner walks the bytes one at a time: a space closes the current
//! token, a carriage return closes the last token and must be followed
//! immediately by a line feed, and every other byte extends the current
//! token. Each token is decoded as UTF-8 the moment it is closed. Nothing
//! after the line feed is examined.

use vstd::prelude::*;
use vstd::utf8::{decode_utf8, valid_utf8};

verus! {

/// The byte that separates tokens.
pub const SPACE: u8 = 32;

/// The byte that closes the line, to be followed by `LINE_FEED`.
pub const CARRIAGE_RETURN: u8 = 13;

/// The byte that must follow `CARRIAGE_RETURN`.
pub const LINE_FEED: u8 = 10;

/// Ways reading a start-line can fail.
#[derive(Clone, Copy, Debug, PartialEq, Eq, Structural)]
pub enum ParseError {
    /// The input ended before the closing carriage return was seen.
    IncompleteRequest,
    /// A carriage return was not followed by a line feed, or the input ended
    /// right after one.
    MissingTerminator,
    /// A token's bytes are not valid UTF-8.
    InvalidEncoding,
    /// The line closed with a number of tokens other than three.
    MalformedTokenCount,
}

/// A successfully read start-line: exactly three tokens, decoded as text.
#[derive(Debug, PartialEq, Eq)]
pub struct HttpRequest {
    pub method: String,
    pub request_uri: String,
    pub http_version: String,
}

/// What scanning a byte sequence as a start-line yields: the three cases are
/// a complete line (with its raw token bytes), a malformed line, and a
/// sequence that ended before the line was closed. `Starved` carries the
/// error reported when no further bytes can come.
pub enum ScanResult {
    Accepted(Seq<Seq<u8>>),
    Rejected(ParseError),
    Starved(ParseError),
}

/// One token's worth of scanning, from position `i` with tokens already
/// closed in `tokens` and the bytes of the currently open token in `cur`.
pub open spec fn scan_from(input: Seq<u8>, i: int, tokens: Seq<Seq<u8>>, cur: Seq<u8>) -> ScanResult
    decreases input.len() - i,
{
    if i < 0 || i >= input.len() {
        ScanResult::Starved(ParseError::IncompleteRequest)
    } else if input[i] == SPACE {
        if !valid_utf8(cur) {
            ScanResult::Rejected(ParseError::InvalidEncoding)
        } else {
            scan_from(input, i + 1, tokens.push(cur), Seq::empty())
        }
    } else if input[i] == CARRIAGE_RETURN {
        if !valid_utf8(cur) {
            ScanResult::Rejected(ParseError::InvalidEncoding)
        } else if i + 1 >= input.len() {
            ScanResult::Starved(ParseError::MissingTerminator)
        } else if input[i + 1] == LINE_FEED {
            if tokens.len() + 1 == 3 {
                ScanResult::Accepted(tokens.push(cur))
            } else {
                ScanResult::Rejected(ParseError::MalformedTokenCount)
            }
        } else {
            ScanResult::Rejected(ParseError::MissingTerminator)
        }
    } else {
        scan_from(input, i + 1, tokens, cur.push(input[i]))
    }
}

/// Scanning a whole byte sequence as a start-line.
pub open spec fn scan(input: Seq<u8>) -> ScanResult {
    scan_from(input, 0, Seq::empty(), Seq::empty())
}

/// The request a token sequence denotes: exactly three tokens, each valid
/// UTF-8, decoded into the request's three fields.
pub open spec fn request_from_tokens(toks: Seq<Seq<u8>>, req: HttpRequest) -> bool {
    &&& toks.len() == 3
    &&& valid_utf8(toks[0]) && req.method@ == decode_utf8(toks[0])
    &&& valid_utf8(toks[1]) && req.request_uri@ == decode_utf8(toks[1])
    &&& valid_utf8(toks[2]) && req.http_version@ == decode_utf8(toks[2])
}

/// Bytes that the scanner reads as one whole token: no separator, no
/// carriage return, and decodable as text.
pub open spec fn plain_token(t: Seq<u8>) -> bool {
    &&& forall|j: int| 0 <= j < t.len() ==> t[j] != SPACE && t[j] != CARRIAGE_RETURN
    &&& valid_utf8(t)
}

/// Scanning moves straight across a stretch of ordinary bytes, growing the
/// open token by exactly those bytes.
proof fn lemma_scan_over_token(input: Seq<u8>, i: int, tokens: Seq<Seq<u8>>, cur: Seq<u8>, j: int)
    requires
        0 <= i <= j <= input.len(),
        forall|k: int| i <= k < j ==> input[k] != SPACE && input[k] != CARRIAGE_RETURN,
    ensures
        scan_from(input, i, tokens, cur) == scan_from(input, j, tokens, cur + input.subrange(i, j)),
    decreases j - i,
{
    if i == j {
        assert(cur + input.subrange(i, j) =~= cur);
    } else {
        lemma_scan_over_token(input, i + 1, tokens, cur.push(input[i]), j);
        assert(cur.push(input[i]) + input.subrange(i + 1, j) =~= cur + input.subrange(i, j));
    }
}

/// Every line of the form `M SP U SP V CR LF`, for any token contents free of
/// separators and carriage returns, scans to exactly those three tokens —
/// and hence parses to the request whose fields decode them.
pub proof fn lemma_well_formed_line_accepted(m: Seq<u8>, u: Seq<u8>, v: Seq<u8>)
    requires
        plain_token(m),
        plain_token(u),
        plain_token(v),
    ensures
        scan(m + seq![SPACE] + u + seq![SPACE] + v + seq![CARRIAGE_RETURN, LINE_FEED])
            == ScanResult::Accepted(seq![m, u, v]),
{
    let input = m + seq![SPACE] + u + seq![SPACE] + v + seq![CARRIAGE_RETURN, LINE_FEED];
    let a = m.len() as int;
    let b = a + 1 + u.len() as int;
    let c = b + 1 + v.len() as int;
    assert(input.len() == c + 2);

    lemma_scan_over_token(input, 0, Seq::empty(), Seq::empty(), a);
    assert(Seq::<u8>::empty() + input.subrange(0, a) =~= m);
    assert(input[a] == SPACE);
    let t1 = Seq::<Seq<u8>>::empty().push(m);

    lemma_scan_over_token(input, a + 1, t1, Seq::empty(), b);
    assert(Seq::<u8>::empty() + input.subrange(a + 1, b) =~= u);
    assert(input[b] == SPACE);
    let t2 = t1.push(u);

    lemma_scan_over_token(input, b + 1, t2, Seq::empty(), c);
    assert(Seq::<u8>::empty() + input.subrange(b + 1, c) =~= v);
    assert(input[c] == CARRIAGE_RETURN);
    assert(input[c + 1] == LINE_FEED);
    assert(t2.push(v) =~= seq![m, u, v]);
}

proof fn lemma_scan_from_ignores_suffix(
    input: Seq<u8>,
    ext: Seq<u8>,
    i: int,
    tokens: Seq<Seq<u8>>,
    cur: Seq<u8>,
)
    requires
        0 <= i <= input.len(),
        !(scan_from(input, i, tokens, cur) is Starved),
    ensures
        scan_from(input + ext, i, tokens, cur) == scan_from(input, i, tokens, cur),
    decreases input.len() - i,
{
    let whole = input + ext;
    assert(i < input.len());
    assert(whole[i] == input[i]);
    if input[i] == SPACE {
        if valid_utf8(cur) {
            lemma_scan_from_ignores_suffix(input, ext, i + 1, tokens.push(cur), Seq::empty());
        }
    } else if input[i] == CARRIAGE_RETURN {
        if valid_utf8(cur) {
            assert(i + 1 < input.len());
            assert(whole[i + 1] == input[i + 1]);
        }
    } else {
        lemma_scan_from_ignores_suffix(input, ext, i + 1, tokens, cur.push(input[i]));
    }
}

/// Once the scanner has settled — the line accepted or found malformed —
/// bytes arriving after it change nothing: whatever follows the terminator
/// (or the byte that doomed the line) is never read.
pub proof fn lemma_settled_scan_ignores_suffix(input: Seq<u8>, ext: Seq<u8>)
    requires
        !(scan(input) is Starved),
    ensures
        scan(input + ext) == scan(input),
{
    lemma_scan_from_ignores_suffix(input, ext, 0, Seq::empty(), Seq::empty());
}

/// The outcome of scanning the bytes received so far. `AwaitingInput` means
/// the line is not closed yet and carries the error to report if the stream
/// ends here.
#[derive(Debug)]
pub enum RequestScan {
    Parsed(HttpRequest),
    Refused(ParseError),
    AwaitingInput(ParseError),
}

/// How an executable scan outcome reflects the specification-level one.
pub open spec fn scan_matches(s: ScanResult, r: RequestScan) -> bool {
    match s {
        ScanResult::Accepted(toks) => r matches RequestScan::Parsed(req) && request_from_tokens(
            toks,
            req,
        ),
        ScanResult::Rejected(e) => r == RequestScan::Refused(e),
        ScanResult::Starved(e) => r == RequestScan::AwaitingInput(e),
    }
}

/// Relies on `String::from_utf8`: it succeeds exactly on bytes that are valid
/// UTF-8, and then returns the character sequence those bytes encode.
#[verifier::external_body]
fn token_to_string(bytes: &Vec<u8>) -> (r: Option<String>)
    ensures
        r is Some <==> valid_utf8(bytes@),
        r matches Some(s) ==> s@ == decode_utf8(bytes@),
{
    match String::from_utf8(bytes.clone()) {
        Ok(s) => Some(s),
        Err(_) => None,
    }
}

/// Scans the bytes received so far as a start-line.
pub fn scan_request_line(input: &[u8]) -> (r: RequestScan)
    ensures
        scan_matches(scan(input@), r),
{
    let ghost gtokens: Seq<Seq<u8>> = Seq::empty();
    let mut tokens: Vec<String> = Vec::new();
    let mut cur: Vec<u8> = Vec::new();
    let mut i: usize = 0;
    loop
        invariant
            i <= input@.len(),
            scan_from(input@, i as int, gtokens, cur@) == scan(input@),
            tokens@.len() == gtokens.len(),
            forall|j: int|
                0 <= j < gtokens.len() ==> valid_utf8(#[trigger] gtokens[j]) && tokens@[j]@
                    == decode_utf8(gtokens[j]),
        decreases input@.len() - i,
    {
        if i == input.len() {
            return RequestScan::AwaitingInput(ParseError::IncompleteRequest);
        }
        let b = input[i];
        if b == SPACE {
            match token_to_string(&cur) {
                None => {
                    return RequestScan::Refused(ParseError::InvalidEncoding);
                },
                Some(s) => {
                    tokens.push(s);
                    proof {
                        gtokens = gtokens.push(cur@);
                    }
                    cur.clear();
                    i = i + 1;
                },
            }
        } else if b == CARRIAGE_RETURN {
            match token_to_string(&cur) {
                None => {
                    return RequestScan::Refused(ParseError::InvalidEncoding);
                },
                Some(s) => {
                    if i + 1 == input.len() {
                        return RequestScan::AwaitingInput(ParseError::MissingTerminator);
                    }
                    if input[i + 1] == LINE_FEED {
                        if tokens.len() == 2 {
                            let http_version = s;
                            let request_uri = tokens.pop().unwrap();
                            let method = tokens.pop().unwrap();
                            return RequestScan::Parsed(
                                HttpRequest { method, request_uri, http_version },
                            );
                        } else {
                            return RequestScan::Refused(ParseError::MalformedTokenCount);
                        }
                    } else {
                        return RequestScan::Refused(ParseError::MissingTerminator);
                    }
                },
            }
        } else {
            cur.push(b);
            i = i + 1;
        }
    }
}

/// Reads a start-line out of a complete request prefix: the input stands for
/// everything the peer sent, so a line that is still open fails with the
/// error the scanner reports for an ended stream.
pub fn parse_request_line(input: &[u8]) -> (r: Result<HttpRequest, ParseError>)
    ensures
        match scan(input@) {
            ScanResult::Accepted(toks) => r matches Ok(req) && request_from_tokens(toks, req),
            ScanResult::Rejected(e) => r == Err::<HttpRequest, ParseError>(e),
            ScanResult::Starved(e) => r == Err::<HttpRequest, ParseError>(e),
        },
{
    match scan_request_line(input) {
        RequestScan::Parsed(req) => Ok(req),
        RequestScan::Refused(e) => Err(e),
        RequestScan::AwaitingInput(e) => Err(e),
    }
}

} // verus!
