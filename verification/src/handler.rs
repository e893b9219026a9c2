//! Handlers: what a connection-handling unit does with the bytes it reads.
//!
//! A handler is driven in steps. The embedding program reads bytes from the
//! connection while `needs_more` says so, asks `handle` for the first step,
//! and, whenever a step asks for content to be loaded, comes back with the
//! outcome through `after_load`. Every decision is made here; only the
//! reading, loading and writing happen outside.

use vstd::prelude::*;
use vstd::utf8::{decode_utf8, encode_utf8};
use vstd::string::StrSliceExecFns;

use crate::request::{scan, scan_request_line, RequestScan, ScanResult};
use crate::response::{response_bytes, write_http_response, HttpStatus};
use crate::routes::RouteTable;

verus! {

/// The locator of the body served with a `404 NOT FOUND` response.
pub const ERROR_PAGE_404: &'static str = "./src/html/404.html";

/// The locator of the body served with a `500 INTERNAL SERVER ERROR` response.
pub const ERROR_PAGE_500: &'static str = "./src/html/500.html";

/// One step of responding to a connection.
#[derive(Debug)]
pub enum ResponseAction {
    /// Write these bytes back and close the connection.
    Write(Vec<u8>),
    /// Load the content behind the locator, then report back through
    /// `after_load` with the given status.
    Load(HttpStatus, String),
    /// Give the connection up without writing anything.
    Abandon,
}

/// A handler for connections: decides, from the bytes received, what to do
/// next. Implementations decide; the embedding program performs.
pub trait Handler {
    /// Whether more bytes must be read before a decision can be made.
    fn needs_more(&self, received: &Vec<u8>) -> bool;

    /// The first step, once reading has stopped.
    fn handle(&self, received: &Vec<u8>) -> ResponseAction;

    /// The step after content for a `Load` was loaded (`Some`) or could not
    /// be (`None`).
    fn after_load(&self, status: HttpStatus, body: Option<Vec<u8>>) -> ResponseAction;
}

/// The step an HTTP responder takes for a request prefix: a well-formed
/// request whose target has a route loads that route's content for a `200`;
/// a well-formed request without one loads the not-found page for a `404`;
/// anything malformed loads the error page for a `500`.
pub open spec fn http_response_plan(
    routes: Map<Seq<char>, Seq<char>>,
    input: Seq<u8>,
    r: ResponseAction,
) -> bool {
    match scan(input) {
        ScanResult::Accepted(toks) => {
            let uri = decode_utf8(toks[1]);
            if routes.contains_key(uri) {
                r matches ResponseAction::Load(status, locator) && status is Success && locator@
                    == routes[uri]
            } else {
                r matches ResponseAction::Load(status, locator) && status is NotFound && locator@
                    == ERROR_PAGE_404@
            }
        },
        ScanResult::Rejected(_) => r matches ResponseAction::Load(status, locator)
            && status is ServerError && locator@ == ERROR_PAGE_500@,
        ScanResult::Starved(_) => r matches ResponseAction::Load(status, locator)
            && status is ServerError && locator@ == ERROR_PAGE_500@,
    }
}

/// The HTTP-shaped responder: routes a parsed request and answers with a
/// complete response whatever happens.
#[derive(Debug)]
pub struct HttpHandler {
    routes: RouteTable,
}

impl View for HttpHandler {
    type V = Map<Seq<char>, Seq<char>>;

    closed spec fn view(&self) -> Map<Seq<char>, Seq<char>> {
        self.routes@
    }
}

impl HttpHandler {
    /// A responder over a snapshot of the given routes.
    pub fn new(routes: RouteTable) -> (h: HttpHandler)
        ensures
            h@ == routes@,
    {
        HttpHandler { routes }
    }
}

impl Handler for HttpHandler {
    /// More bytes are needed exactly while the scanner still awaits the end
    /// of the start-line.
    fn needs_more(&self, received: &Vec<u8>) -> (r: bool)
        ensures
            r == (scan(received@) is Starved),
    {
        match scan_request_line(received.as_slice()) {
            RequestScan::AwaitingInput(_) => true,
            _ => false,
        }
    }

    /// Parses the start-line and plans the response as `http_response_plan`
    /// prescribes.
    fn handle(&self, received: &Vec<u8>) -> (r: ResponseAction)
        ensures
            http_response_plan(self@, received@, r),
    {
        match scan_request_line(received.as_slice()) {
            RequestScan::Parsed(req) => match self.routes.lookup(&req.request_uri) {
                Some(locator) => ResponseAction::Load(HttpStatus::Success, locator.clone()),
                None => ResponseAction::Load(HttpStatus::NotFound, ERROR_PAGE_404.to_owned()),
            },
            _ => ResponseAction::Load(HttpStatus::ServerError, ERROR_PAGE_500.to_owned()),
        }
    }

    /// Loaded content is written out under the status it was loaded for. A
    /// route whose content failed to load falls back to the error page for a
    /// `500`; if an error page itself cannot be loaded, the connection is
    /// abandoned.
    fn after_load(&self, status: HttpStatus, body: Option<Vec<u8>>) -> (r: ResponseAction)
        ensures
            body matches Some(b) ==> (r matches ResponseAction::Write(bytes) && bytes@
                == response_bytes(status, b@)),
            body is None && status is Success ==> (r matches ResponseAction::Load(s, locator)
                && s is ServerError && locator@ == ERROR_PAGE_500@),
            body is None && !(status is Success) ==> r is Abandon,
    {
        match body {
            Some(b) => ResponseAction::Write(write_http_response(status, &b)),
            None => match status {
                HttpStatus::Success => ResponseAction::Load(
                    HttpStatus::ServerError,
                    ERROR_PAGE_500.to_owned(),
                ),
                _ => ResponseAction::Abandon,
            },
        }
    }
}

/// A trivial handler for exercising a server without HTTP: it answers any
/// first byte with `DUMMY` and gives up a connection that sent nothing.
pub struct DummyHandler;

impl Handler for DummyHandler {
    /// One byte is all it takes.
    fn needs_more(&self, received: &Vec<u8>) -> (r: bool)
        ensures
            r == (received@.len() == 0),
    {
        received.len() == 0
    }

    /// Anything read earns the fixed reply; nothing read, no reply.
    fn handle(&self, received: &Vec<u8>) -> (r: ResponseAction)
        ensures
            received@.len() == 0 ==> r is Abandon,
            received@.len() > 0 ==> (r matches ResponseAction::Write(bytes) && bytes@
                == encode_utf8("DUMMY\n"@)),
    {
        if received.len() == 0 {
            ResponseAction::Abandon
        } else {
            ResponseAction::Write("DUMMY\n".as_bytes_vec())
        }
    }

    /// This handler never asks for content.
    fn after_load(&self, status: HttpStatus, body: Option<Vec<u8>>) -> (r: ResponseAction)
        ensures
            r is Abandon,
    {
        ResponseAction::Abandon
    }
}

} // verus!
