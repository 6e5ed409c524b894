//! WebSocket frame codec: decoding of received frames and encoding of
//! outbound text frames.
use vstd::prelude::*;
use vstd::string::*;
use vstd::utf8::*;

verus! {

broadcast use {encode_utf8_valid_utf8, encode_utf8_decode_utf8};

/// The first byte of every outbound frame: FIN set, text opcode.
pub const TEXT_FRAME_HEAD: u8 = 0x81;

/// Big-endian value of the eight bytes of `b` starting at `at`.
pub open spec fn be64_at(b: Seq<u8>, at: int) -> u64 {
    (b[at] as u64) << 56u64 | (b[at + 1] as u64) << 48u64 | (b[at + 2] as u64) << 40u64 | (
    b[at + 3] as u64) << 32u64 | (b[at + 4] as u64) << 24u64 | (b[at + 5] as u64) << 16u64 | (
    b[at + 6] as u64) << 8u64 | (b[at + 7] as u64)
}

/// The eight big-endian bytes of `n`.
pub open spec fn be64_bytes(n: u64) -> Seq<u8> {
    seq![
        (n >> 56u64) as u8,
        (n >> 48u64) as u8,
        (n >> 40u64) as u8,
        (n >> 32u64) as u8,
        (n >> 24u64) as u8,
        (n >> 16u64) as u8,
        (n >> 8u64) as u8,
        n as u8,
    ]
}

/// Number of header bytes before the optional masking key, as announced by
/// the second byte of a frame.
pub open spec fn header_len(b1: u8) -> nat {
    if b1 % 128 == 126 {
        4
    } else if b1 % 128 == 127 {
        10
    } else {
        2
    }
}

pub open spec fn is_masked(buf: Seq<u8>) -> bool {
    buf[1] >= 128
}

/// Payload length announced by a frame whose header is present.
pub open spec fn declared_len(buf: Seq<u8>) -> nat {
    if buf[1] % 128 == 126 {
        buf[2] as nat * 256 + buf[3] as nat
    } else if buf[1] % 128 == 127 {
        be64_at(buf, 2) as nat
    } else {
        (buf[1] % 128) as nat
    }
}

/// Offset of the first payload byte.
pub open spec fn payload_start(buf: Seq<u8>) -> nat {
    header_len(buf[1]) + if is_masked(buf) {
        4nat
    } else {
        0nat
    }
}

/// The buffer holds a header, the masking key if any, and the whole payload.
pub open spec fn frame_complete(buf: Seq<u8>) -> bool {
    &&& buf.len() >= 2
    &&& buf.len() >= header_len(buf[1])
    &&& buf.len() >= payload_start(buf) + declared_len(buf)
}

/// The payload of a complete frame, with the masking key removed.
pub open spec fn unmasked_payload(buf: Seq<u8>) -> Seq<u8> {
    Seq::new(
        declared_len(buf),
        |i: int|
            if is_masked(buf) {
                buf[payload_start(buf) + i] ^ buf[header_len(buf[1]) + i % 4]
            } else {
                buf[payload_start(buf) + i]
            },
    )
}

/// Text carried by the bytes of a text frame.
pub open spec fn text_of(bytes: Seq<u8>) -> Seq<char> {
    if valid_utf8(bytes) {
        decode_utf8(bytes)
    } else {
        "Invalid UTF-8"@
    }
}

/// What decoding one received frame yields: a text message, a marker for a
/// binary frame, or nothing (incomplete data, close, ping, pong, other).
pub open spec fn decode_frame(buf: Seq<u8>) -> Option<Seq<char>> {
    if !frame_complete(buf) {
        None
    } else if buf[0] % 16 == 1 {
        Some(text_of(unmasked_payload(buf)))
    } else if buf[0] % 16 == 2 {
        Some("<Binary Frame>"@)
    } else {
        None
    }
}

/// Length field of a frame header for a payload of `n` bytes; `mask` is the
/// high bit of its first byte.
pub open spec fn length_field(n: nat, mask: u8) -> Seq<u8> {
    if n <= 125 {
        seq![(mask + n) as u8]
    } else if n <= 65535 {
        seq![(mask + 126) as u8, (n / 256) as u8, (n % 256) as u8]
    } else {
        seq![(mask + 127) as u8] + be64_bytes(n as u64)
    }
}

/// The single unfragmented, unmasked text frame that carries `payload`.
pub open spec fn text_frame(payload: Seq<u8>) -> Seq<u8> {
    seq![TEXT_FRAME_HEAD] + length_field(payload.len(), 0) + payload
}

/// `payload` masked with a four-byte key, as a client sends it.
pub open spec fn mask_payload(payload: Seq<u8>, key: Seq<u8>) -> Seq<u8> {
    Seq::new(payload.len(), |i: int| payload[i] ^ key[i % 4])
}

/// A text frame as a client sends it: masked with `key`.
pub open spec fn masked_text_frame(payload: Seq<u8>, key: Seq<u8>) -> Seq<u8> {
    seq![TEXT_FRAME_HEAD] + length_field(payload.len(), 128) + key + mask_payload(payload, key)
}

/// Decodes one received frame. A text payload is returned as text ("Invalid
/// UTF-8" when its bytes are not UTF-8); a binary frame as a marker; close,
/// ping, pong, other opcodes and incomplete frames give `None`.
pub fn parse_websocket_framev2(buffer: &[u8]) -> (r: Option<String>)
    ensures
        r is None <==> decode_frame(buffer@) is None,
        r matches Some(m) ==> decode_frame(buffer@) == Some(m@),
{
    let n = buffer.len();
    if n < 2 {
        return None;
    }
    let b0 = buffer[0];
    let b1 = buffer[1];
    let opcode: u8 = b0 & 0x0f;
    let masked: bool = (b1 & 0x80) != 0;
    let len7: u8 = b1 & 0x7f;
    assert(b0 & 0x0f == b0 % 16) by (bit_vector);
    assert(((b1 & 0x80) != 0) == (b1 >= 128)) by (bit_vector);
    assert(b1 & 0x7f == b1 % 128) by (bit_vector);

    let mut index: usize = 2;
    let mut payload_len: u64 = len7 as u64;
    if len7 == 126 {
        if n < 4 {
            return None;
        }
        payload_len = buffer[2] as u64 * 256 + buffer[3] as u64;
        index = 4;
    } else if len7 == 127 {
        if n < 10 {
            return None;
        }
        payload_len = (buffer[2] as u64) << 56u64 | (buffer[3] as u64) << 48u64 | (
        buffer[4] as u64) << 40u64 | (buffer[5] as u64) << 32u64 | (buffer[6] as u64) << 24u64
            | (buffer[7] as u64) << 16u64 | (buffer[8] as u64) << 8u64 | (buffer[9] as u64);
        index = 10;
    }
    assert(index == header_len(b1));
    assert(payload_len == declared_len(buffer@));
    let key_len: usize = if masked {
        4
    } else {
        0
    };
    if n - index < key_len || ((n - index - key_len) as u64) < payload_len {
        return None;
    }
    let key_at = index;
    let start = index + key_len;
    let plen = payload_len as usize;
    assert(start == payload_start(buffer@));
    assert(frame_complete(buffer@));

    let mut decoded: Vec<u8> = Vec::new();
    let mut i: usize = 0;
    while i < plen
        invariant
            i <= plen,
            plen == declared_len(buffer@),
            start == payload_start(buffer@),
            key_at == header_len(buffer@[1]),
            masked == is_masked(buffer@),
            start + plen <= buffer@.len(),
            n == buffer@.len(),
            masked ==> key_at + 4 <= buffer@.len(),
            decoded@ =~= unmasked_payload(buffer@).subrange(0, i as int),
        decreases plen - i,
    {
        let byte = buffer[start + i];
        if masked {
            decoded.push(byte ^ buffer[key_at + i % 4]);
        } else {
            decoded.push(byte);
        }
        i = i + 1;
    }
    assert(decoded@ =~= unmasked_payload(buffer@));

    if opcode == 1 {
        match utf8_string(decoded) {
            Some(text) => Some(text),
            None => Some(String::from_str("Invalid UTF-8")),
        }
    } else if opcode == 2 {
        Some(String::from_str("<Binary Frame>"))
    } else {
        None
    }
}

/// Relies on String::from_utf8: it succeeds exactly when the bytes are valid
/// UTF-8, and the string then holds those bytes.
#[verifier::external_body]
fn utf8_string(bytes: Vec<u8>) -> (r: Option<String>)
    ensures
        r is Some <==> valid_utf8(bytes@),
        r matches Some(s) ==> encode_utf8(s@) == bytes@,
{
    String::from_utf8(bytes).ok()
}

/// Encodes `message` as one unfragmented, unmasked text frame.
pub fn create_websocket_frame(message: &str) -> (r: Vec<u8>)
    ensures
        r@ == text_frame(message.spec_bytes()),
{
    let payload = message.as_bytes();
    let len = payload.len();
    let mut frame: Vec<u8> = vec![TEXT_FRAME_HEAD];
    if len <= 125 {
        frame.push(len as u8);
    } else if len <= 65535 {
        frame.push(126);
        frame.push((len / 256) as u8);
        frame.push((len % 256) as u8);
    } else {
        let n = len as u64;
        frame.push(127);
        frame.push((n >> 56u64) as u8);
        frame.push((n >> 48u64) as u8);
        frame.push((n >> 40u64) as u8);
        frame.push((n >> 32u64) as u8);
        frame.push((n >> 24u64) as u8);
        frame.push((n >> 16u64) as u8);
        frame.push((n >> 8u64) as u8);
        frame.push(n as u8);
    }
    let ghost head = frame@;
    assert(head =~= seq![TEXT_FRAME_HEAD] + length_field(len as nat, 0));
    let mut i: usize = 0;
    while i < len
        invariant
            i <= len,
            len == payload@.len(),
            frame@ =~= head + payload@.subrange(0, i as int),
        decreases len - i,
    {
        frame.push(payload[i]);
        i = i + 1;
    }
    assert(payload@.subrange(0, len as int) =~= payload@);
    frame
}

proof fn lemma_be64_round_trip(n: u64)
    ensures
        be64_at(be64_bytes(n), 0) == n,
{
    let b = be64_bytes(n);
    let (b0, b1, b2, b3, b4, b5, b6, b7) = (b[0], b[1], b[2], b[3], b[4], b[5], b[6], b[7]);
    assert(b0 == (n >> 56u64) as u8 && b1 == (n >> 48u64) as u8 && b2 == (n >> 40u64) as u8 && b3
        == (n >> 32u64) as u8 && b4 == (n >> 24u64) as u8 && b5 == (n >> 16u64) as u8 && b6 == (n
        >> 8u64) as u8 && b7 == n as u8);
    assert(b0 == (n >> 56u64) as u8 && b1 == (n >> 48u64) as u8 && b2 == (n >> 40u64) as u8 && b3
        == (n >> 32u64) as u8 && b4 == (n >> 24u64) as u8 && b5 == (n >> 16u64) as u8 && b6 == (n
        >> 8u64) as u8 && b7 == n as u8 ==> ((b0 as u64) << 56u64 | (b1 as u64) << 48u64 | (
    b2 as u64) << 40u64 | (b3 as u64) << 32u64 | (b4 as u64) << 24u64 | (b5 as u64) << 16u64 | (
    b6 as u64) << 8u64 | (b7 as u64)) == n) by (bit_vector);
}

proof fn lemma_unmask(b: u8, k: u8)
    ensures
        (b ^ k) ^ k == b,
{
    assert((b ^ k) ^ k == b) by (bit_vector);
}

/// The first byte and the length field for a payload of `n` bytes read back
/// as written: the mask bit is `mask`'s, the header is as long as its second
/// byte announces, and the announced length is `n`.
proof fn lemma_length_field(n: nat, mask: u8)
    requires
        n < 0x1_0000_0000_0000_0000,
        mask == 0 || mask == 128,
    ensures
        ({
            let f = seq![TEXT_FRAME_HEAD] + length_field(n, mask);
            &&& f[1] >= 128 <==> mask == 128
            &&& f.len() == header_len(f[1])
            &&& f.len() >= 2
            &&& (f[1] % 128 == 126 ==> f[2] as nat * 256 + f[3] as nat == n)
            &&& (f[1] % 128 == 127 ==> be64_at(f, 2) as nat == n)
            &&& (f[1] % 128 != 126 && f[1] % 128 != 127 ==> (f[1] % 128) as nat == n)
        }),
{
    let f = seq![TEXT_FRAME_HEAD] + length_field(n, mask);
    if n > 65535 {
        let b = be64_bytes(n as u64);
        lemma_be64_round_trip(n as u64);
        assert(f.subrange(2, 10) =~= b);
        assert(be64_at(f, 2) == be64_at(b, 0));
    }
}

/// Decoding an encoded text frame gives back the text, whether the frame is
/// sent as encoded or masked by a client with any four-byte key.
pub proof fn lemma_frame_round_trip(s: Seq<char>, key: Seq<u8>)
    requires
        encode_utf8(s).len() <= 0x10000,
        key.len() == 4,
    ensures
        decode_frame(text_frame(encode_utf8(s))) == Some(s),
        decode_frame(masked_text_frame(encode_utf8(s), key)) == Some(s),
{
    let p = encode_utf8(s);
    let n = p.len();
    assert(text_of(p) == s);

    let f = text_frame(p);
    let h = seq![TEXT_FRAME_HEAD] + length_field(n, 0);
    lemma_length_field(n, 0);
    assert(f =~= h + p);
    assert(f[0] == TEXT_FRAME_HEAD);
    assert(f[1] == h[1]);
    assert(declared_len(f) == n) by {
        if f[1] % 128 == 126 {
            assert(f[2] == h[2] && f[3] == h[3]);
        } else if f[1] % 128 == 127 {
            assert(f.subrange(0, 10) =~= h);
            assert(be64_at(f, 2) == be64_at(h, 2));
        }
    }
    assert(payload_start(f) == h.len());
    assert(unmasked_payload(f) =~= p);
    assert(TEXT_FRAME_HEAD % 16 == 1);

    let g = masked_text_frame(p, key);
    let hm = seq![TEXT_FRAME_HEAD] + length_field(n, 128);
    lemma_length_field(n, 128);
    assert(g =~= hm + key + mask_payload(p, key));
    assert(g[1] == hm[1]);
    assert(declared_len(g) == n) by {
        if g[1] % 128 == 126 {
            assert(g[2] == hm[2] && g[3] == hm[3]);
        } else if g[1] % 128 == 127 {
            assert(g.subrange(0, 10) =~= hm);
            assert(be64_at(g, 2) == be64_at(hm, 2));
        }
    }
    assert(payload_start(g) == hm.len() + 4);
    assert forall|i: int| 0 <= i < n implies #[trigger] unmasked_payload(g)[i] == p[i] by {
        assert(g[hm.len() + 4 + i] == p[i] ^ key[i % 4]);
        assert(g[hm.len() + i % 4] == key[i % 4]);
        lemma_unmask(p[i], key[i % 4]);
    }
    assert(unmasked_payload(g) =~= p);
}

} // verus!
