//! A small verified core for a single-file JSON-over-HTTP server.
//!
//! The library owns the parts of the server that decide what bytes go on the
//! wire and what value the shared content cache holds: the response status
//! enumeration, the content cache with its atomic read/replace semantics, the
//! byte-exact HTTP response assembly, and the request-line state machine.
//! Binding sockets, watching the file, and locking the cache across threads
//! are left to the surrounding program, which hands this library plain values.

mod cache;
mod handler;
mod response;
mod status;

pub use cache::ContentCache;
pub use handler::{respond, request_line_matches, DEFAULT_PORT, GET_REQ_LINE, LOCALHOST};
pub use response::build_response;
pub use status::StatusLine;
