use tag_relay::http::{handle_request, render_path_response};

#[test]
fn complete_request_echoes_path() {
    let resp = handle_request(b"GET /hello HTTP/1.1\r\nHost: device\r\n\r\n").unwrap();
    let body = "You accessed Some(\"/hello\")!";
    let expected = format!(
        "HTTP/1.1 200 OK\r\nContent-Type: text/plain; charset=utf-8\r\nContent-Length: {}\r\nConnection: close\r\n\r\n{}",
        body.len(),
        body
    );
    assert_eq!(resp, expected.into_bytes());
}

#[test]
fn partial_request_before_path_reports_none() {
    // Two bytes of a method: httparse accepts the prefix but has no path yet.
    let resp = handle_request(b"GE").unwrap();
    let text = String::from_utf8(resp).unwrap();
    assert!(text.ends_with("You accessed None!"));
    assert!(text.starts_with("HTTP/1.1 200 OK\r\n"));
}

#[test]
fn malformed_request_gets_no_response() {
    assert_eq!(handle_request(b"\x00\x01 not http"), None);
}

#[test]
fn content_length_counts_body_bytes() {
    let resp = render_path_response(Some("/a"));
    let text = String::from_utf8(resp).unwrap();
    let body = "You accessed Some(\"/a\")!";
    assert!(text.contains(&format!("Content-Length: {}\r\n", body.len())));
    assert!(text.ends_with(body));
}
