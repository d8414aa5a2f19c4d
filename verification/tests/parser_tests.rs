use rustyweb::{
    parse, parse_method, parse_request_line, split_header, to_headers, HeaderMap, Method,
    ParseError,
};

#[test]
fn test_split_header_basic() {
    let r = split_header(&"Host: localhost:8080".to_string()).unwrap();
    assert_eq!(r.0, "host");
    assert_eq!(r.1, "localhost:8080")
}

#[test]
fn test_split_header_no_colon() {
    assert!(split_header(&"not a header line".to_string()).is_none())
}

#[test]
fn test_to_headers() {
    let mut generated = HeaderMap::new();
    generated.insert("host".to_string(), "localhost:8080".to_string());
    generated.insert("connection".to_string(), "KEEP-alive".to_string());
    generated.insert("cache-control".to_string(), "max-age=0".to_string());
    generated.insert(
        "accept".to_string(),
        "text/html,application/xhtml+xml,application/xml;".to_string(),
    );
    generated.insert("accept-encoding".to_string(), "gzip, deflate, br".to_string());

    let headers = vec![
        "Host: localhost:8080",
        "Connection: KEEP-alive",
        "Cache-Control: max-age=0",
        "Accept: text/html,application/xhtml+xml,application/xml;",
        "Accept-Encoding: gzip, deflate, br",
    ];
    let parsed = to_headers(headers.iter().map(|x| x.to_string()).collect());

    assert_eq!(parsed, generated)
}

#[test]
fn test_to_headers_drops_lines_without_colon() {
    let parsed = to_headers(vec!["no colon here".to_string()]);
    assert_eq!(parsed, HeaderMap::new())
}

#[test]
fn test_to_headers_later_value_wins() {
    let parsed = to_headers(vec![
        "X-Thing: first".to_string(),
        "X-Thing: second".to_string(),
    ]);
    assert_eq!(parsed.get("x-thing"), Some(&"second".to_string()))
}

#[test]
fn test_parse_method_get() {
    assert!(matches!(parse_method("GET"), Some(Method::GET)))
}

#[test]
fn test_parse_method_other() {
    assert!(parse_method("POST").is_none())
}

#[test]
fn test_parse_request_line_ok() {
    let parsed = parse_request_line("GET /ws HTTP/1.1".to_string()).unwrap();
    let (method, uri) = parsed.get_method_and_uri();
    assert!(matches!(*method, Method::GET));
    assert_eq!(uri, "/ws")
}

#[test]
fn test_parse_request_line_bad_method() {
    let r = parse_request_line("POST /ws HTTP/1.1".to_string());
    assert!(matches!(r, Err(ParseError::InvalidMethod)))
}

#[test]
fn test_parse_request_line_wrong_token_count() {
    let r = parse_request_line("GET /ws".to_string());
    assert!(matches!(r, Err(ParseError::InvalidRequestLine)))
}

#[test]
fn test_parse_full_request() {
    let lines = vec![
        "GET /ws HTTP/1.1".to_string(),
        "Host: localhost:8080".to_string(),
        "Connection: Upgrade".to_string(),
        "Upgrade: websocket".to_string(),
        "".to_string(),
        "ignored after blank".to_string(),
    ];
    let request = parse(&lines).unwrap();
    let (method, uri) = request.get_method_and_uri();
    assert!(matches!(*method, Method::GET));
    assert_eq!(uri, "/ws");
    assert!(request.is_websocket_upgrade());
    assert_eq!(
        request.headers().get("host"),
        Some(&"localhost:8080".to_string())
    );
    assert_eq!(request.headers().get("ignored after blank"), None)
}

#[test]
fn test_parse_empty_request() {
    let lines: Vec<String> = vec![];
    assert!(matches!(parse(&lines), Err(ParseError::EmptyRequest)))
}

#[test]
fn test_header_value_is_trimmed() {
    let parsed = to_headers(vec!["Name:   padded value  ".to_string()]);
    assert_eq!(parsed.get("name"), Some(&"padded value".to_string()))
}
