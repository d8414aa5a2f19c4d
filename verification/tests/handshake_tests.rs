use rustyweb::{HeaderMap, Method, Request, RequestLine};

fn request_with_headers(headers: HeaderMap) -> Request {
    Request::new(
        RequestLine::new(Method::GET, "/".to_string(), "".to_string()),
        headers,
        None,
    )
}

#[test]
fn test_generate_websocket_accept_value_ok() {
    let mut headers = HeaderMap::new();
    headers.insert(
        "sec-websocket-key".to_string(),
        "dGhlIHNhbXBsZSBub25jZQ==".to_string(),
    );

    let request = request_with_headers(headers);

    assert_eq!(
        request.generate_websocket_accept_value().unwrap(),
        "s3pPLMBiTxaQ9kYGzzhZRbK+xOo="
    )
}

#[test]
fn test_generate_websocket_accept_value_ok2() {
    let mut headers = HeaderMap::new();
    headers.insert(
        "sec-websocket-key".to_string(),
        "JZSMZ2B02uL4y5/Bgg1tnw==".to_string(),
    );

    let request = request_with_headers(headers);

    assert_eq!(
        request.generate_websocket_accept_value().unwrap(),
        "0/NFjjkhrm2G5Yqyl/BWoNY/+AQ="
    )
}

#[test]
fn test_generate_websocket_accept_value_ok3() {
    let mut headers = HeaderMap::new();
    headers.insert(
        "sec-websocket-key".to_string(),
        "dGhlIHNhbXBsZSBub25jZQ==".to_string(),
    );

    let request = request_with_headers(headers);

    assert_eq!(
        request.generate_websocket_accept_value().unwrap(),
        "s3pPLMBiTxaQ9kYGzzhZRbK+xOo="
    )
}

#[test]
fn test_generate_websocket_accept_value_bad() {
    let headers = HeaderMap::new();

    let request = request_with_headers(headers);

    assert_eq!(request.generate_websocket_accept_value().is_none(), true)
}

#[test]
fn test_is_websocket_upgrade_mixed_case() {
    let mut headers = HeaderMap::new();
    headers.insert("connection".to_string(), "UpGrAdE".to_string());
    headers.insert("upgrade".to_string(), "WebSocket".to_string());

    let request = request_with_headers(headers);

    assert!(request.is_websocket_upgrade())
}

#[test]
fn test_is_websocket_upgrade_missing_headers() {
    let headers = HeaderMap::new();

    let request = request_with_headers(headers);

    assert!(!request.is_websocket_upgrade())
}

#[test]
fn test_is_websocket_upgrade_wrong_value() {
    let mut headers = HeaderMap::new();
    headers.insert("connection".to_string(), "keep-alive".to_string());
    headers.insert("upgrade".to_string(), "websocket".to_string());

    let request = request_with_headers(headers);

    assert!(!request.is_websocket_upgrade())
}

#[test]
fn test_get_websocket_protocol_split() {
    let mut headers = HeaderMap::new();
    headers.insert(
        "sec-websocket-protocol".to_string(),
        "json,xml".to_string(),
    );

    let request = request_with_headers(headers);

    let protos = request.get_websocket_protocol().unwrap();
    assert_eq!(protos, vec!["json".to_string(), "xml".to_string()])
}

#[test]
fn test_get_websocket_protocol_absent() {
    let headers = HeaderMap::new();

    let request = request_with_headers(headers);

    assert!(request.get_websocket_protocol().is_none())
}
