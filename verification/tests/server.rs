use json_file_server::{ContentCache, StatusLine};
use json_file_server::{build_response, request_line_matches, respond};
use json_file_server::{DEFAULT_PORT, GET_REQ_LINE, LOCALHOST};

#[test]
fn status_lines_are_the_fixed_literals() {
    assert_eq!(StatusLine::Success.as_str(), "HTTP/1.1 200 OK");
    assert_eq!(StatusLine::NotFound.as_str(), "HTTP/1.1 404 NOT FOUND");
    assert_eq!(
        StatusLine::InternalServerError.as_str(),
        "HTTP/1.1 500 INTERNAL SERVER ERROR"
    );
}

#[test]
fn fixed_bodies_exist_for_error_kinds_only() {
    assert_eq!(StatusLine::Success.contents_as_str(), None);
    assert_eq!(
        StatusLine::NotFound.contents_as_str(),
        Some("Err 404: Not Found")
    );
    assert_eq!(
        StatusLine::InternalServerError.contents_as_str(),
        Some("Err 500: Internal Server Error")
    );
}

#[test]
fn configuration_constants() {
    assert_eq!(DEFAULT_PORT, 7878);
    assert_eq!(LOCALHOST, "127.0.0.1");
    assert_eq!(GET_REQ_LINE, "GET / HTTP/1.1");
}

#[test]
fn recognized_line_matches_exactly() {
    assert!(request_line_matches(b"GET / HTTP/1.1"));
}

#[test]
fn unrecognized_lines_do_not_match() {
    assert!(!request_line_matches(b"GET / HTTP/1.1 "));
    assert!(!request_line_matches(b" GET / HTTP/1.1"));
    assert!(!request_line_matches(b"POST / HTTP/1.1"));
    assert!(!request_line_matches(b"GET /index HTTP/1.1"));
    assert!(!request_line_matches(b"GET / HTTP/1.0"));
    assert!(!request_line_matches(b"get / http/1.1"));
    assert!(!request_line_matches(b"GET / HTTP/1."));
    assert!(!request_line_matches(b""));
}

#[test]
fn get_request_serves_cached_contents() {
    let cache = ContentCache::new(b"{\"a\":1}".to_vec());
    let response = respond(b"GET / HTTP/1.1", Some(&cache));
    assert_eq!(
        response,
        b"HTTP/1.1 200 OK\r\nContent-Type: application/json\r\nContent-Length: 7\r\n\r\n{\"a\":1}"
    );
}

#[test]
fn unrecognized_request_gets_not_found() {
    let cache = ContentCache::new(b"{\"a\":1}".to_vec());
    let response = respond(b"POST / HTTP/1.1", Some(&cache));
    assert_eq!(
        response,
        b"HTTP/1.1 404 NOT FOUND\r\nContent-Length: 18\r\n\r\nErr 404: Not Found"
    );
}

#[test]
fn reloaded_contents_are_served() {
    let mut cache = ContentCache::new(b"{\"a\":1}".to_vec());
    cache.apply_reload(Some(b"{\"b\":2}".to_vec()));
    let response = respond(b"GET / HTTP/1.1", Some(&cache));
    assert_eq!(
        response,
        b"HTTP/1.1 200 OK\r\nContent-Type: application/json\r\nContent-Length: 7\r\n\r\n{\"b\":2}"
    );
}

#[test]
fn unavailable_cache_gets_server_error() {
    let response = respond(b"GET / HTTP/1.1", None);
    assert_eq!(
        response,
        b"HTTP/1.1 500 INTERNAL SERVER ERROR\r\nContent-Length: 30\r\n\r\nErr 500: Internal Server Error"
    );
}

#[test]
fn unrecognized_request_gets_not_found_even_without_cache() {
    let response = respond(b"GET / HTTP/2", None);
    assert_eq!(
        response,
        b"HTTP/1.1 404 NOT FOUND\r\nContent-Length: 18\r\n\r\nErr 404: Not Found"
    );
}

#[test]
fn read_returns_current_contents() {
    let cache = ContentCache::new(b"hello".to_vec());
    assert_eq!(cache.read(), b"hello".to_vec());
    assert_eq!(cache.read(), b"hello".to_vec());
}

#[test]
fn replace_is_visible_to_later_reads() {
    let mut cache = ContentCache::new(b"old".to_vec());
    cache.replace(b"new".to_vec());
    assert_eq!(cache.read(), b"new".to_vec());
}

#[test]
fn failed_reload_keeps_previous_contents() {
    let mut cache = ContentCache::new(b"{\"a\":1}".to_vec());
    cache.apply_reload(None);
    assert_eq!(cache.read(), b"{\"a\":1}".to_vec());
    let response = respond(b"GET / HTTP/1.1", Some(&cache));
    assert_eq!(
        response,
        b"HTTP/1.1 200 OK\r\nContent-Type: application/json\r\nContent-Length: 7\r\n\r\n{\"a\":1}"
    );
}

#[test]
fn empty_body_has_content_length_zero() {
    let cache = ContentCache::new(Vec::new());
    let response = respond(b"GET / HTTP/1.1", Some(&cache));
    assert_eq!(
        response,
        b"HTTP/1.1 200 OK\r\nContent-Type: application/json\r\nContent-Length: 0\r\n\r\n"
    );
}

fn split_head_and_body(response: &[u8]) -> (Vec<u8>, Vec<u8>) {
    let sep: &[u8] = b"\r\n\r\n";
    let pos = response
        .windows(sep.len())
        .position(|w| w == sep)
        .expect("response has a blank line");
    (
        response[..pos].to_vec(),
        response[pos + sep.len()..].to_vec(),
    )
}

fn advertised_length(head: &[u8]) -> usize {
    let head = String::from_utf8(head.to_vec()).expect("header block is UTF-8");
    let field = head
        .split("\r\n")
        .find(|line| line.starts_with("Content-Length: "))
        .expect("response has a Content-Length header");
    field["Content-Length: ".len()..].parse().expect("length is decimal")
}

#[test]
fn content_length_equals_body_length_for_all_three_kinds() {
    let long_body = vec![b'x'; 1234];
    let cache = ContentCache::new(long_body.clone());
    let ok = respond(b"GET / HTTP/1.1", Some(&cache));
    let not_found = respond(b"HEAD / HTTP/1.1", Some(&cache));
    let server_error = respond(b"GET / HTTP/1.1", None);

    for response in [&ok, &not_found, &server_error] {
        let (head, body) = split_head_and_body(response);
        assert_eq!(advertised_length(&head), body.len());
    }
    let (_, ok_body) = split_head_and_body(&ok);
    assert_eq!(ok_body, long_body);
}

#[test]
fn build_response_assembles_each_kind() {
    let ok = build_response(&StatusLine::Success, b"abc");
    assert_eq!(
        ok,
        b"HTTP/1.1 200 OK\r\nContent-Type: application/json\r\nContent-Length: 3\r\n\r\nabc"
    );
    let not_found = build_response(&StatusLine::NotFound, b"gone");
    assert_eq!(not_found, b"HTTP/1.1 404 NOT FOUND\r\nContent-Length: 4\r\n\r\ngone");
    let server_error = build_response(&StatusLine::InternalServerError, b"");
    assert_eq!(
        server_error,
        b"HTTP/1.1 500 INTERNAL SERVER ERROR\r\nContent-Length: 0\r\n\r\n"
    );
}

#[test]
fn content_length_digits_cover_multi_digit_lengths() {
    let body = vec![b'y'; 105];
    let response = build_response(&StatusLine::NotFound, &body);
    let (head, parsed_body) = split_head_and_body(&response);
    assert_eq!(advertised_length(&head), 105);
    assert_eq!(parsed_body, body);
}
