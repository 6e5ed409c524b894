use stockbit_order::handshake::{accept_from_digest, generate_accept_key, handshake_for, handshake_response, is_upgrade};
use stockbit_order::http::Request;

#[test]
fn rfc_6455_sample_accept_key() {
    assert_eq!(generate_accept_key("dGhlIHNhbXBsZSBub25jZQ=="), "s3pPLMBiTxaQ9kYGzzhZRbK+xOo=");
}

#[test]
fn accept_key_differs_from_key() {
    let k = "x3JJHMbDL1EzLkh9GBhXDw==";
    let a = generate_accept_key(k);
    assert_ne!(a, k);
    assert_eq!(a, "HSmrc0sMlYUkAGmm5OPpG2HaGWk=");
}

#[test]
fn base64_of_digest_bytes() {
    assert_eq!(accept_from_digest(&[]), "");
    assert_eq!(accept_from_digest(b"M"), "TQ==");
    assert_eq!(accept_from_digest(b"Ma"), "TWE=");
    assert_eq!(accept_from_digest(b"Man"), "TWFu");
    assert_eq!(accept_from_digest(&[0xfb, 0xff]), "+/8=");
}

#[test]
fn switching_protocols_response() {
    let r = handshake_response("dGhlIHNhbXBsZSBub25jZQ==");
    assert_eq!(
        r,
        "HTTP/1.1 101 Switching Protocols\r\nUpgrade: websocket\r\nConnection: Upgrade\r\nSec-WebSocket-Accept: s3pPLMBiTxaQ9kYGzzhZRbK+xOo=\r\n\r\n"
    );
}

#[test]
fn handshake_from_parsed_request() {
    let raw = "GET /order/ws?token=abc HTTP/1.1\r\nHost: x\r\nUpgrade: WebSocket\r\nSec-WebSocket-Key: dGhlIHNhbXBsZSBub25jZQ==\r\n\r\n";
    let req = Request::new(raw.as_bytes()).ok().unwrap();
    assert!(is_upgrade(&req));
    assert!(handshake_for(&req).contains("Sec-WebSocket-Accept: s3pPLMBiTxaQ9kYGzzhZRbK+xOo=\r\n"));
}

#[test]
fn handshake_without_key_uses_empty_key() {
    let req = Request::new(b"GET /order/ws HTTP/1.1\r\nHost: x\r\n\r\n").ok().unwrap();
    assert!(!is_upgrade(&req));
    assert_eq!(handshake_for(&req), handshake_response(""));
}
