use rustyweb::{
    negotiate, Connection, HandshakeError, HeaderMap, LoopAction, LoopEvent, Method, Request,
    RequestLine,
};

fn upgrade_request(key: Option<&str>, protocols: Option<&str>) -> Request {
    let mut headers = HeaderMap::new();
    headers.insert("connection".to_string(), "Upgrade".to_string());
    headers.insert("upgrade".to_string(), "websocket".to_string());
    if let Some(k) = key {
        headers.insert("sec-websocket-key".to_string(), k.to_string());
    }
    if let Some(p) = protocols {
        headers.insert("sec-websocket-protocol".to_string(), p.to_string());
    }
    Request::new(
        RequestLine::new(Method::GET, "/ws".to_string(), "HTTP/1.1".to_string()),
        headers,
        None,
    )
}

#[test]
fn test_negotiate_missing_key_fails() {
    let request = upgrade_request(None, Some("json"));
    assert!(matches!(
        negotiate(&request, "json"),
        Err(HandshakeError::ConnectionAborted)
    ))
}

#[test]
fn test_negotiate_protocol_mismatch_fails() {
    let request = upgrade_request(Some("dGhlIHNhbXBsZSBub25jZQ=="), Some("xml,msgpack"));
    assert!(matches!(
        negotiate(&request, "json"),
        Err(HandshakeError::ConnectionAborted)
    ))
}

#[test]
fn test_negotiate_without_protocol_header_succeeds() {
    let request = upgrade_request(Some("dGhlIHNhbXBsZSBub25jZQ=="), None);
    assert!(negotiate(&request, "json").is_ok())
}

#[test]
fn test_negotiate_matching_protocol_succeeds() {
    let request = upgrade_request(Some("dGhlIHNhbXBsZSBub25jZQ=="), Some("xml,json"));
    assert!(negotiate(&request, "json").is_ok())
}

#[test]
fn test_negotiate_response_bytes() {
    let request = upgrade_request(Some("dGhlIHNhbXBsZSBub25jZQ=="), Some("json"));
    let response = negotiate(&request, "json").unwrap();
    let expected = "HTTP/1.1 101 Web Socket Protocol Handshake\r\n\
                    Connection: Upgrade\r\n\
                    Content-Length: 0\r\n\
                    Sec-WebSocket-Accept: s3pPLMBiTxaQ9kYGzzhZRbK+xOo=\r\n\
                    Sec-WebSocket-Protocol: json\r\n\
                    Upgrade: websocket\r\n\r\n";
    assert_eq!(response.to_bytes(), expected.as_bytes().to_vec())
}

#[test]
fn test_handshake_failure_closes_connection() {
    let mut connection = Connection::new();
    let request = upgrade_request(None, None);
    assert!(connection.handshake(&request, "json").is_err());
    // A second negotiation attempt is out of the question: the state
    // machine only steps while open, which the library's contracts pin.
}

#[test]
fn test_message_is_echoed_and_connection_stays_open() {
    let mut connection = Connection::new();
    let request = upgrade_request(Some("dGhlIHNhbXBsZSBub25jZQ=="), None);
    connection.handshake(&request, "json").unwrap();
    let action = connection.step(LoopEvent::Message(vec![1, 2, 3]));
    match action {
        LoopAction::Reply(p) => assert_eq!(p, vec![1, 2, 3]),
        _ => panic!("expected an echo reply"),
    }
    // Still open: another message is still echoed.
    let action = connection.step(LoopEvent::Message(vec![4]));
    assert!(matches!(action, LoopAction::Reply(_)))
}

#[test]
fn test_close_terminates_loop_cleanly() {
    let mut connection = Connection::new();
    let request = upgrade_request(Some("dGhlIHNhbXBsZSBub25jZQ=="), None);
    connection.handshake(&request, "json").unwrap();
    let action = connection.step(LoopEvent::Message(vec![42]));
    assert!(matches!(action, LoopAction::Reply(_)));
    let action = connection.step(LoopEvent::PeerClosed);
    assert!(matches!(action, LoopAction::FinishOk))
}

#[test]
fn test_failure_terminates_loop_with_error() {
    let mut connection = Connection::new();
    let request = upgrade_request(Some("dGhlIHNhbXBsZSBub25jZQ=="), None);
    connection.handshake(&request, "json").unwrap();
    let action = connection.step(LoopEvent::Failed);
    assert!(matches!(action, LoopAction::FinishErr))
}
