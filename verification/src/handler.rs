//! The request-line state machine: classify the first line of an inbound
//! stream and produce the complete response bytes, consulting the content
//! cache for a recognized request.
//!
//! The caller reads the request line from its transport and acquires (or
//! fails to acquire) the cache lock; this module decides, byte for byte,
//! what goes back on the wire in every case.

use vstd::prelude::*;
use vstd::string::*;

use crate::cache::ContentCache;
use crate::response::{build_response, response_bytes};
use crate::status::StatusLine;

verus! {

/// The port the server listens on when none is configured.
pub const DEFAULT_PORT: u128 = 7878;

/// The host the server always binds to.
pub const LOCALHOST: &'static str = "127.0.0.1";

/// The single request line the server recognizes.
pub const GET_REQ_LINE: &'static str = "GET / HTTP/1.1";

/// The bytes of the single recognized request line.
pub open spec fn recognized_request_line() -> Seq<u8> {
    "GET / HTTP/1.1".spec_bytes()
}

/// The fixed body of a response to an unrecognized request line.
pub open spec fn not_found_body() -> Seq<u8> {
    "Err 404: Not Found".spec_bytes()
}

/// The fixed body of a response sent when the cache is unavailable.
pub open spec fn server_error_body() -> Seq<u8> {
    "Err 500: Internal Server Error".spec_bytes()
}

/// Compares two byte slices for equality.
fn bytes_equal(a: &[u8], b: &[u8]) -> (r: bool)
    ensures
        r == (a@ == b@),
{
    if a.len() != b.len() {
        return false;
    }
    let mut i: usize = 0;
    while i < a.len()
        invariant
            i <= a.len(),
            a@.len() == b@.len(),
            forall|j: int| 0 <= j < i ==> a@[j] == b@[j],
        decreases a.len() - i,
    {
        if a[i] != b[i] {
            return false;
        }
        i += 1;
    }
    proof {
        assert(a@ =~= b@);
    }
    true
}

/// Decides whether `line` is, byte for byte, the one recognized request line.
pub fn request_line_matches(line: &[u8]) -> (r: bool)
    ensures
        r == (line@ == recognized_request_line()),
{
    bytes_equal(line, GET_REQ_LINE.as_bytes())
}

/// Produces the one response owed to a connection, given its request line
/// and the outcome of the caller's attempt to reach the content cache
/// (`None` when the cache lock could not be acquired).
///
/// A recognized request line with a reachable cache is answered 200 with the
/// cached contents verbatim; any other request line is answered 404 with its
/// fixed body, whatever the cache's state; a recognized line with an
/// unreachable cache is answered 500 with its fixed body.
pub fn respond(request_line: &[u8], cache: Option<&ContentCache>) -> (r: Vec<u8>)
    ensures
        request_line@ == recognized_request_line() && cache is Some ==> r@ == response_bytes(
            StatusLine::Success,
            cache->Some_0@,
        ),
        request_line@ != recognized_request_line() ==> r@ == response_bytes(
            StatusLine::NotFound,
            not_found_body(),
        ),
        request_line@ == recognized_request_line() && cache is None ==> r@ == response_bytes(
            StatusLine::InternalServerError,
            server_error_body(),
        ),
{
    if request_line_matches(request_line) {
        match cache {
            Some(c) => {
                let body = c.read();
                build_response(&StatusLine::Success, body.as_slice())
            },
            None => {
                let status = StatusLine::InternalServerError;
                let body = status.contents_as_str().unwrap();
                build_response(&status, body.as_bytes())
            },
        }
    } else {
        let status = StatusLine::NotFound;
        let body = status.contents_as_str().unwrap();
        build_response(&status, body.as_bytes())
    }
}

} // verus!
