//! Unit tests of the handshake grammar, the header lookup and the
//! WebSocket-upgrade validation.
use ws_accept::request::{
    header_lookup, is_valid_key, is_ws_upgrade, parse_head_vec, parse_header_line_vec,
    parse_request_line_vec, Header, Request,
};
use ws_accept::scan::{scan_crlf, scan_term, trim_left_vec};

fn request_with(headers: Vec<(&str, &str)>) -> Request {
    Request {
        method: b"GET".to_vec(),
        path: b"/chat".to_vec(),
        http_version: b"HTTP/1.1".to_vec(),
        headers: headers
            .into_iter()
            .map(|(n, v)| Header { name: n.as_bytes().to_vec(), value: v.as_bytes().to_vec() })
            .collect(),
    }
}

fn ws_headers() -> Vec<(&'static str, &'static str)> {
    vec![
        ("Host", "example.com"),
        ("Upgrade", "websocket"),
        ("Connection", "Upgrade"),
        ("Sec-WebSocket-Key", "dGhlIHNhbXBsZSBub25jZQ=="),
        ("Sec-WebSocket-Version", "13"),
    ]
}

#[test]
fn request_line_splits_in_three() {
    let line = b"GET /chat HTTP/1.1".to_vec();
    let (m, p, v) = parse_request_line_vec(&line).expect("well-formed request line");
    assert_eq!(m, b"GET".to_vec());
    assert_eq!(p, b"/chat".to_vec());
    assert_eq!(v, b"HTTP/1.1".to_vec());
}

#[test]
fn request_line_needs_three_parts() {
    assert!(parse_request_line_vec(&b"GET /chat".to_vec()).is_none());
    assert!(parse_request_line_vec(&b"GET".to_vec()).is_none());
    assert!(parse_request_line_vec(&b" / HTTP/1.1".to_vec()).is_none());
    assert!(parse_request_line_vec(&b"GET  HTTP/1.1".to_vec()).is_none());
}

#[test]
fn header_line_trims_leading_whitespace() {
    let h = parse_header_line_vec(&b"Upgrade:   websocket".to_vec()).expect("header");
    assert_eq!(h.name, b"Upgrade".to_vec());
    assert_eq!(h.value, b"websocket".to_vec());
}

#[test]
fn header_line_keeps_later_colons() {
    let h = parse_header_line_vec(&b"Host: example.com:8080".to_vec()).expect("header");
    assert_eq!(h.name, b"Host".to_vec());
    assert_eq!(h.value, b"example.com:8080".to_vec());
}

#[test]
fn header_line_rejects_empty_name() {
    assert!(parse_header_line_vec(&b": nobody".to_vec()).is_none());
    assert!(parse_header_line_vec(&b"no colon here".to_vec()).is_none());
}

#[test]
fn head_parses_line_and_headers() {
    let head = b"GET / HTTP/1.1\r\nHost: h\r\nUpgrade: websocket\r\n".to_vec();
    let q = parse_head_vec(&head).expect("head");
    assert_eq!(q.method, b"GET".to_vec());
    assert_eq!(q.headers.len(), 2);
    assert_eq!(q.headers[1].name, b"Upgrade".to_vec());
    assert_eq!(q.headers[1].value, b"websocket".to_vec());
}

#[test]
fn header_lookup_is_case_insensitive_and_first_wins() {
    let req = request_with(vec![("UPGRADE", "WebSocket"), ("upgrade", "other")]);
    let v = header_lookup(&req, &b"upgrade".to_vec()).expect("found");
    assert_eq!(v, b"WebSocket".to_vec());
    assert!(header_lookup(&req, &b"sec-websocket-key".to_vec()).is_none());
}

#[test]
fn key_must_be_base64_of_sixteen_bytes() {
    assert!(is_valid_key(&b"dGhlIHNhbXBsZSBub25jZQ==".to_vec()));
    assert!(is_valid_key(&b"AQIDBAUGBwgJCgsMDQ4PEA==".to_vec()));
    // wrong length
    assert!(!is_valid_key(&b"c2hvcnQ=".to_vec()));
    // missing padding
    assert!(!is_valid_key(&b"dGhlIHNhbXBsZSBub25jZQ=x".to_vec()));
    // a byte outside the alphabet
    assert!(!is_valid_key(&b"dGhlIHNhbXBsZSBub25jZ!==".to_vec()));
}

#[test]
fn validation_accepts_a_genuine_upgrade() {
    let req = request_with(ws_headers());
    assert!(is_ws_upgrade(&req));
}

#[test]
fn validation_is_case_insensitive_where_http_is() {
    let req = request_with(vec![
        ("UPGRADE", "WebSocket"),
        ("SEC-WEBSOCKET-KEY", "dGhlIHNhbXBsZSBub25jZQ=="),
        ("Sec-WebSocket-Version", "13"),
    ]);
    assert!(is_ws_upgrade(&req));
}

#[test]
fn validation_rejects_wrong_method() {
    let mut req = request_with(ws_headers());
    req.method = b"POST".to_vec();
    assert!(!is_ws_upgrade(&req));
}

#[test]
fn validation_rejects_missing_upgrade_header() {
    let hs: Vec<(&str, &str)> = ws_headers().into_iter().filter(|(n, _)| *n != "Upgrade").collect();
    assert!(!is_ws_upgrade(&request_with(hs)));
}

#[test]
fn validation_rejects_wrong_upgrade_token() {
    let hs: Vec<(&str, &str)> = ws_headers()
        .into_iter()
        .map(|(n, v)| if n == "Upgrade" { (n, "h2c") } else { (n, v) })
        .collect();
    assert!(!is_ws_upgrade(&request_with(hs)));
}

#[test]
fn validation_rejects_bad_key() {
    let hs: Vec<(&str, &str)> = ws_headers()
        .into_iter()
        .map(|(n, v)| if n == "Sec-WebSocket-Key" { (n, "not base64!") } else { (n, v) })
        .collect();
    assert!(!is_ws_upgrade(&request_with(hs)));
}

#[test]
fn validation_rejects_unsupported_version() {
    let hs: Vec<(&str, &str)> = ws_headers()
        .into_iter()
        .map(|(n, v)| if n == "Sec-WebSocket-Version" { (n, "12") } else { (n, v) })
        .collect();
    assert!(!is_ws_upgrade(&request_with(hs)));
}

#[test]
fn scanning_finds_first_occurrences() {
    assert_eq!(scan_crlf(&b"ab\r\ncd\r\n".to_vec()), Some(2));
    assert_eq!(scan_crlf(&b"abcd".to_vec()), None);
    assert_eq!(scan_term(&b"ab\r\n\r\ncd\r\n\r\n".to_vec()), Some(2));
    assert_eq!(scan_term(&b"ab\r\ncd".to_vec()), None);
}

#[test]
fn trimming_removes_only_leading_whitespace() {
    assert_eq!(trim_left_vec(&b" \t value ".to_vec()), b"value ".to_vec());
    assert_eq!(trim_left_vec(&b"value".to_vec()), b"value".to_vec());
    assert_eq!(trim_left_vec(&b"   ".to_vec()), Vec::<u8>::new());
}
