use rustyweb::{ok, websocket};

#[test]
fn test_ok_response_bytes() {
    let response = ok(
        "hello",
        vec!["Content-Type: text/html; charset=utf-8".to_string()],
    );
    let expected = "HTTP/1.1 200 OK\r\n\
                    Content-Type: text/html; charset=utf-8\r\n\
                    Content-Length: 5\r\n\r\n\
                    hello";
    assert_eq!(response.to_bytes(), expected.as_bytes().to_vec())
}

#[test]
fn test_ok_response_empty_body() {
    let response = ok("", vec![]);
    let expected = "HTTP/1.1 200 OK\r\nContent-Length: 0\r\n\r\n";
    assert_eq!(response.to_bytes(), expected.as_bytes().to_vec())
}

#[test]
fn test_websocket_response_bytes() {
    let response = websocket("abc123".to_string(), "json".to_string());
    let expected = "HTTP/1.1 101 Web Socket Protocol Handshake\r\n\
                    Connection: Upgrade\r\n\
                    Content-Length: 0\r\n\
                    Sec-WebSocket-Accept: abc123\r\n\
                    Sec-WebSocket-Protocol: json\r\n\
                    Upgrade: websocket\r\n\r\n";
    assert_eq!(response.to_bytes(), expected.as_bytes().to_vec())
}
