//! The WebSocket opening handshake: the `Sec-WebSocket-Accept` value and the
//! `101 Switching Protocols` response.
use crate::http::Request;
use crate::text::{lower_of, lowercase};
use vstd::prelude::*;
use vstd::string::*;

verus! {

/// The GUID that RFC 6455 appends to the client's key.
pub open spec fn magic() -> Seq<char> {
    "258EAFA5-E914-47DA-95CA-C5AB0DC85B11"@
}

/// The base64 alphabet of RFC 4648.
pub open spec fn b64_alphabet() -> Seq<char> {
    "ABCDEFGHIJKLMNOPQRSTUVWXYZabcdefghijklmnopqrstuvwxyz0123456789+/"@
}

/// Standard base64 with `=` padding (RFC 4648, section 4).
pub open spec fn base64_std(b: Seq<u8>) -> Seq<char>
    decreases b.len(),
{
    let a = b64_alphabet();
    if b.len() == 0 {
        Seq::empty()
    } else {
        let x = b[0] as int;
        let y = if b.len() > 1 {
            b[1] as int
        } else {
            0
        };
        let z = if b.len() > 2 {
            b[2] as int
        } else {
            0
        };
        let c0 = a[x / 4];
        let c1 = a[(x % 4) * 16 + y / 16];
        let c2 = a[(y % 16) * 4 + z / 64];
        let c3 = a[z % 64];
        if b.len() == 1 {
            seq![c0, c1, '=', '=']
        } else if b.len() == 2 {
            seq![c0, c1, c2, '=']
        } else {
            seq![c0, c1, c2, c3] + base64_std(b.subrange(3, b.len() as int))
        }
    }
}

/// The SHA-1 digest of `data`.
pub uninterp spec fn sha1_of(data: Seq<u8>) -> Seq<u8>;

/// The `Sec-WebSocket-Accept` value for a client key.
pub open spec fn accept_key(key: Seq<char>) -> Seq<char> {
    base64_std(sha1_of(vstd::utf8::encode_utf8(key + magic())))
}

pub open spec fn response_head() -> Seq<char> {
    "HTTP/1.1 101 Switching Protocols\r\nUpgrade: websocket\r\nConnection: Upgrade\r\nSec-WebSocket-Accept: "@
}

/// The whole `101` response for a client key.
pub open spec fn handshake_text(key: Seq<char>) -> Seq<char> {
    response_head() + accept_key(key) + "\r\n\r\n"@
}

/// Relies on sha1::Sha1 through digest::Digest::digest: the SHA-1 digest of
/// the data, 20 bytes long.
#[verifier::external_body]
fn sha1_digest(data: &[u8]) -> (r: Vec<u8>)
    ensures
        r@ == sha1_of(data@),
        r@.len() == 20,
{
    <sha1::Sha1 as sha1::Digest>::digest(data).to_vec()
}

/// Relies on base64::Engine::encode with the STANDARD engine: RFC 4648
/// alphabet, padded with `=`.
#[verifier::external_body]
fn base64_encode(data: &[u8]) -> (r: String)
    ensures
        r@ == base64_std(data@),
{
    base64::Engine::encode(&base64::engine::general_purpose::STANDARD, data)
}

/// Base64 text has four chars for each three bytes or part of three, and
/// ends in `=` when the bytes are not a multiple of three.
pub proof fn lemma_base64_len(b: Seq<u8>)
    ensures
        base64_std(b).len() == 4 * ((b.len() + 2) / 3),
        b.len() % 3 != 0 ==> base64_std(b).last() == '=',
    decreases b.len(),
{
    if b.len() >= 3 {
        let rest = b.subrange(3, b.len() as int);
        lemma_base64_len(rest);
        assert(rest.len() == b.len() - 3);
        assert((b.len() + 2) / 3 == (rest.len() + 2) / 3 + 1);
        assert(rest.len() % 3 == b.len() % 3);
        if rest.len() > 0 {
            assert(base64_std(b).last() == base64_std(rest).last());
        }
    }
}

/// The accept value for a given SHA-1 digest: its base64 text.
pub fn accept_from_digest(digest: &[u8]) -> (r: String)
    ensures
        r@ == base64_std(digest@),
{
    base64_encode(digest)
}

/// Computes `Sec-WebSocket-Accept`: base64 of the SHA-1 of the key followed
/// by the RFC 6455 GUID.
pub fn generate_accept_key(key: &str) -> (r: String)
    ensures
        r@ == accept_key(key@),
        r@.len() == 28,
        r@.last() == '=',
{
    let combined = String::from_str(key).concat("258EAFA5-E914-47DA-95CA-C5AB0DC85B11");
    let digest = sha1_digest(combined.as_str().as_bytes());
    proof {
        lemma_base64_len(digest@);
    }
    accept_from_digest(digest.as_slice())
}

/// The `101 Switching Protocols` response for a client key.
pub fn handshake_response(key: &str) -> (r: String)
    ensures
        r@ == handshake_text(key@),
{
    let accept = generate_accept_key(key);
    let head = String::from_str(
        "HTTP/1.1 101 Switching Protocols\r\nUpgrade: websocket\r\nConnection: Upgrade\r\nSec-WebSocket-Accept: ",
    );
    let with_accept = head.concat(accept.as_str());
    with_accept.concat("\r\n\r\n")
}

/// The client's `sec-websocket-key` header, or the empty text when it is
/// missing.
pub open spec fn client_key(req: &Request) -> Seq<char> {
    if req.headers@.contains_key("sec-websocket-key"@) {
        req.headers@["sec-websocket-key"@]
    } else {
        Seq::empty()
    }
}

/// The handshake response for a parsed upgrade request.
pub fn handshake_for(req: &Request) -> (r: String)
    ensures
        r@ == handshake_text(client_key(req)),
{
    match req.headers.get("sec-websocket-key") {
        Some(key) => handshake_response(key.as_str()),
        None => {
            proof {
                reveal_strlit("");
            }
            handshake_response("")
        },
    }
}

/// The request asks for an upgrade: its `upgrade` header is `websocket` in
/// any case.
pub open spec fn wants_upgrade(req: &Request) -> bool {
    req.headers@.contains_key("upgrade"@) && lower_of(req.headers@["upgrade"@]) == "websocket"@
}

pub fn is_upgrade(req: &Request) -> (r: bool)
    ensures
        r == wants_upgrade(req),
{
    match req.headers.get("upgrade") {
        Some(v) => {
            let low = lowercase(v.as_str());
            low == String::from_str("websocket")
        },
        None => false,
    }
}

} // verus!
