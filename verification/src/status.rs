//! The closed set of response kinds the server can emit, with the fixed
//! status line and (for the error kinds) the fixed body belonging to each.

use vstd::prelude::*;

verus! {

/// The three response kinds: a successful cache hit, an unrecognized request
/// line, and an unavailable cache.
pub enum StatusLine {
    Success,
    NotFound,
    InternalServerError,
}

/// The status-line text belonging to each response kind.
pub open spec fn status_text(s: StatusLine) -> Seq<char> {
    match s {
        StatusLine::Success => "HTTP/1.1 200 OK"@,
        StatusLine::NotFound => "HTTP/1.1 404 NOT FOUND"@,
        StatusLine::InternalServerError => "HTTP/1.1 500 INTERNAL SERVER ERROR"@,
    }
}

/// The fixed body text belonging to each error kind; a successful response
/// carries the cached contents instead, so it has no fixed body.
pub open spec fn fixed_body_text(s: StatusLine) -> Option<Seq<char>> {
    match s {
        StatusLine::Success => None,
        StatusLine::NotFound => Some("Err 404: Not Found"@),
        StatusLine::InternalServerError => Some("Err 500: Internal Server Error"@),
    }
}

impl StatusLine {
    /// The status line for this response kind, exactly as it goes on the wire.
    pub fn as_str(&self) -> (r: &'static str)
        ensures
            r@ == status_text(*self),
    {
        match self {
            StatusLine::Success => "HTTP/1.1 200 OK",
            StatusLine::NotFound => "HTTP/1.1 404 NOT FOUND",
            StatusLine::InternalServerError => "HTTP/1.1 500 INTERNAL SERVER ERROR",
        }
    }

    /// The fixed body for this response kind, if it has one: the error kinds
    /// do, a successful response does not.
    pub fn contents_as_str(&self) -> (r: Option<&'static str>)
        ensures
            match r {
                Some(body) => fixed_body_text(*self) == Some(body@),
                None => fixed_body_text(*self) is None,
            },
    {
        match self {
            StatusLine::NotFound => Some("Err 404: Not Found"),
            StatusLine::InternalServerError => Some("Err 500: Internal Server Error"),
            StatusLine::Success => None,
        }
    }
}

} // verus!
