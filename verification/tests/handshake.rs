use rustyproxy::handshake::{
    greeting_response, handshake_frames, is_http_upgrade, upgrade_response, wants_websocket,
};

const BANNER: &[u8] = b"@ProxyManager";

#[test]
fn greeting_is_exact() {
    assert_eq!(
        greeting_response(BANNER),
        b"HTTP/1.1 101 @ProxyManager\r\n\r\n".to_vec()
    );
}

#[test]
fn upgrade_reply_is_exact() {
    assert_eq!(
        upgrade_response(BANNER),
        b"HTTP/1.1 200 @ProxyManager\r\n\r\n".to_vec()
    );
}

#[test]
fn responses_work_with_any_banner() {
    assert_eq!(greeting_response(b"ok"), b"HTTP/1.1 101 ok\r\n\r\n".to_vec());
    assert_eq!(upgrade_response(b""), b"HTTP/1.1 200 \r\n\r\n".to_vec());
}

#[test]
fn http_upgrade_detection() {
    assert!(is_http_upgrade(b"GET /chat HTTP/1.1\r\n"));
    assert!(!is_http_upgrade(b"SSH-2.0-OpenSSH_9.6\r\n"));
    assert!(!is_http_upgrade(b"http lowercase is not the signature"));
    assert!(!is_http_upgrade(b""));
}

#[test]
fn websocket_detection_is_case_insensitive() {
    assert!(wants_websocket(b"Upgrade: websocket\r\n"));
    assert!(wants_websocket(b"Upgrade: WebSocket\r\n"));
    assert!(wants_websocket(b"UPGRADE: WEBSOCKET\r\n"));
    assert!(!wants_websocket(b"Upgrade: h2c\r\n"));
    assert!(!wants_websocket(b""));
}

#[test]
fn websocket_upgrade_gets_two_frames_in_order() {
    let payload = b"GET /chat HTTP/1.1\r\nUpgrade: WebSocket\r\n\r\n";
    let peeked = payload.to_vec();
    let frames = handshake_frames(BANNER, Some(&peeked), payload);
    assert_eq!(frames.len(), 2);
    assert_eq!(frames[0], b"HTTP/1.1 101 @ProxyManager\r\n\r\n".to_vec());
    assert_eq!(frames[1], b"HTTP/1.1 200 @ProxyManager\r\n\r\n".to_vec());
    assert!(frames[0].ends_with(b"\r\n\r\n"));
    assert!(frames[1].ends_with(b"\r\n\r\n"));
}

#[test]
fn http_without_websocket_gets_one_frame() {
    let payload = b"GET / HTTP/1.1\r\nHost: x\r\n\r\n";
    let peeked = payload.to_vec();
    let frames = handshake_frames(BANNER, Some(&peeked), payload);
    assert_eq!(frames.len(), 1);
    assert_eq!(frames[0], b"HTTP/1.1 101 @ProxyManager\r\n\r\n".to_vec());
}

#[test]
fn non_http_client_gets_only_the_greeting() {
    let peeked = b"SSH-2.0-OpenSSH_9.6\r\n".to_vec();
    let frames = handshake_frames(BANNER, Some(&peeked), b"");
    assert_eq!(frames.len(), 1);
    assert_eq!(frames[0], b"HTTP/1.1 101 @ProxyManager\r\n\r\n".to_vec());
}

#[test]
fn framing_is_independent_of_transport_chunking() {
    let chunks_a: [&[u8]; 2] = [b"GET /chat HTTP/1.1\r\nUpgrade: We", b"bSocket\r\n\r\n"];
    let chunks_b: [&[u8]; 4] = [b"GET /chat ", b"HTTP/1.1\r\n", b"Upgrade: WebSocket", b"\r\n\r\n"];
    let payload_a: Vec<u8> = chunks_a.concat();
    let payload_b: Vec<u8> = chunks_b.concat();
    assert_eq!(payload_a, payload_b);
    let frames_a = handshake_frames(BANNER, Some(&payload_a), &payload_a);
    let frames_b = handshake_frames(BANNER, Some(&payload_b), &payload_b);
    assert_eq!(frames_a, frames_b);
    assert_eq!(frames_a.len(), 2);
}

#[test]
fn silent_client_gets_only_the_greeting() {
    let frames = handshake_frames(BANNER, None, b"irrelevant websocket text");
    assert_eq!(frames.len(), 1);
    assert_eq!(frames[0], b"HTTP/1.1 101 @ProxyManager\r\n\r\n".to_vec());
}
