use webserver::http::{is_end_of_request, resolve_file, response, Request};

fn lines(v: &[&str]) -> Vec<String> {
    v.iter().map(|s| s.to_string()).collect()
}

#[test]
fn root_resolves_to_index() {
    let r = Request::from_lines(&lines(&["GET / HTTP/1.1", "Host: x"]));
    assert_eq!(r.method().as_deref(), Some("GET"));
    assert_eq!(r.uri().as_deref(), Some("/"));
    assert_eq!(r.http_ver().as_deref(), Some("HTTP/1.1"));
    assert_eq!(r.file().as_deref(), Some("index.html"));
}

#[test]
fn path_loses_leading_slash() {
    let r = Request::from_lines(&lines(&["GET /foo.html HTTP/1.1"]));
    assert_eq!(r.uri().as_deref(), Some("/foo.html"));
    assert_eq!(r.file().as_deref(), Some("foo.html"));
}

#[test]
fn empty_request_has_no_parts() {
    let r = Request::from_lines(&lines(&[]));
    assert!(r.method().is_none());
    assert!(r.uri().is_none());
    assert!(r.http_ver().is_none());
    assert!(r.file().is_none());
    let r = Request::from_lines(&lines(&["", "GET / HTTP/1.1"]));
    assert!(r.file().is_none());
    assert!(r.method().is_none());
}

#[test]
fn missing_words_are_absent() {
    let r = Request::from_lines(&lines(&["GET"]));
    assert_eq!(r.method().as_deref(), Some("GET"));
    assert!(r.uri().is_none());
    assert!(r.http_ver().is_none());
    assert!(r.file().is_none());
    let r = Request::from_lines(&lines(&["  GET \t /a.html  "]));
    assert_eq!(r.method().as_deref(), Some("GET"));
    assert_eq!(r.file().as_deref(), Some("a.html"));
    assert!(r.http_ver().is_none());
}

#[test]
fn no_traversal_check_on_target() {
    assert_eq!(resolve_file("/../secret"), "../secret");
    assert_eq!(resolve_file("x"), "");
    assert_eq!(resolve_file("//"), "/");
    assert_eq!(resolve_file("/é.html"), "é.html");
}

#[test]
fn end_of_request_is_empty_line() {
    assert!(is_end_of_request(""));
    assert!(!is_end_of_request(" "));
    assert!(!is_end_of_request("Host: x"));
}

#[test]
fn response_for_two_bytes() {
    assert_eq!(
        response(b"hi"),
        b"HTTP/1.1 200 OK\r\nContent-Length: 2\r\n\r\nhi".to_vec()
    );
}

#[test]
fn response_length_counts_bytes() {
    let body = "é".repeat(60);
    let mut expected = b"HTTP/1.1 200 OK\r\nContent-Length: 120\r\n\r\n".to_vec();
    expected.extend_from_slice(body.as_bytes());
    assert_eq!(response(body.as_bytes()), expected);
    assert_eq!(response(b""), b"HTTP/1.1 200 OK\r\nContent-Length: 0\r\n\r\n".to_vec());
}
