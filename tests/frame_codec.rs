use stockbit_order::frame::{create_websocket_frame, parse_websocket_framev2};

fn masked_frame(payload: &[u8], key: [u8; 4]) -> Vec<u8> {
    let mut f = vec![0x81u8];
    let n = payload.len();
    if n <= 125 {
        f.push(0x80 | n as u8);
    } else if n <= 65535 {
        f.push(0x80 | 126);
        f.push((n >> 8) as u8);
        f.push(n as u8);
    } else {
        f.push(0x80 | 127);
        f.extend_from_slice(&(n as u64).to_be_bytes());
    }
    f.extend_from_slice(&key);
    for (i, b) in payload.iter().enumerate() {
        f.push(b ^ key[i % 4]);
    }
    f
}

#[test]
fn short_text_frame_layout() {
    let f = create_websocket_frame("hello");
    assert_eq!(f, vec![0x81, 5, b'h', b'e', b'l', b'l', b'o']);
}

#[test]
fn medium_text_frame_uses_16_bit_length() {
    let msg = "x".repeat(200);
    let f = create_websocket_frame(&msg);
    assert_eq!(&f[..4], &[0x81, 126, 0, 200]);
    assert_eq!(f.len(), 204);
}

#[test]
fn large_text_frame_uses_64_bit_length() {
    let msg = "y".repeat(70000);
    let f = create_websocket_frame(&msg);
    assert_eq!(f[1], 127);
    assert_eq!(&f[2..10], &70000u64.to_be_bytes());
    assert_eq!(f.len(), 10 + 70000);
}

#[test]
fn round_trip_unmasked() {
    for msg in ["", "hello", "héllo wörld ✓", &"a".repeat(125), &"b".repeat(126), &"c".repeat(65535)] {
        let f = create_websocket_frame(msg);
        assert_eq!(parse_websocket_framev2(&f), Some(msg.to_string()));
    }
}

#[test]
fn round_trip_at_two_to_the_sixteen() {
    let msg = "z".repeat(65536);
    let f = create_websocket_frame(&msg);
    assert_eq!(f[1], 127);
    assert_eq!(parse_websocket_framev2(&f), Some(msg));
}

#[test]
fn round_trip_masked_with_any_key() {
    let msg = "{\"symbol\":\"BBCA\",\"side\":\"B\",\"price\":9000,\"lot\":1,\"expiry\":\"GTC\"}";
    for key in [[0u8, 0, 0, 0], [1, 2, 3, 4], [0xff, 0x80, 0x7f, 0x01], [0x37, 0xfa, 0x21, 0x3d]] {
        let f = masked_frame(msg.as_bytes(), key);
        assert_eq!(parse_websocket_framev2(&f), Some(msg.to_string()));
    }
    let long = "ü".repeat(300);
    let f = masked_frame(long.as_bytes(), [9, 8, 7, 6]);
    assert_eq!(parse_websocket_framev2(&f), Some(long));
}

#[test]
fn invalid_utf8_text_frame() {
    let f = vec![0x81, 2, 0xff, 0xfe];
    assert_eq!(parse_websocket_framev2(&f), Some("Invalid UTF-8".to_string()));
}

#[test]
fn binary_frame_gives_marker() {
    let f = vec![0x82, 3, 1, 2, 3];
    assert_eq!(parse_websocket_framev2(&f), Some("<Binary Frame>".to_string()));
}

#[test]
fn control_frames_give_none() {
    assert_eq!(parse_websocket_framev2(&[0x88, 0x80, 1, 2, 3, 4]), None);
    assert_eq!(parse_websocket_framev2(&[0x89, 0]), None);
    assert_eq!(parse_websocket_framev2(&[0x8a, 0]), None);
    assert_eq!(parse_websocket_framev2(&[0x83, 0]), None);
}

#[test]
fn incomplete_frames_give_none() {
    assert_eq!(parse_websocket_framev2(&[]), None);
    assert_eq!(parse_websocket_framev2(&[0x81]), None);
    assert_eq!(parse_websocket_framev2(&[0x81, 5, b'h']), None);
    assert_eq!(parse_websocket_framev2(&[0x81, 126, 0]), None);
    assert_eq!(parse_websocket_framev2(&[0x81, 127, 0, 0, 0]), None);
    assert_eq!(parse_websocket_framev2(&[0x81, 0x85, 1, 2]), None);
    let mut huge = vec![0x81, 127];
    huge.extend_from_slice(&u64::MAX.to_be_bytes());
    assert_eq!(parse_websocket_framev2(&huge), None);
}

#[test]
fn fragment_is_decoded_as_if_final() {
    let f = vec![0x01, 2, b'o', b'k'];
    assert_eq!(parse_websocket_framev2(&f), Some("ok".to_string()));
}
