//! The host-transport frame format.
//!
//! One frame is an unsigned 32-bit big-endian length followed by exactly
//! that many bytes of UTF-8 JSON text.  Encoding a backend message builds
//! the whole frame; decoding takes the payload bytes that the reading side
//! has already pulled off the stream (the length prefix tells it how many)
//! and yields the host message they carry, or nothing for a malformed
//! payload, which is dropped while the read loop continues.

use vstd::prelude::*;
use vstd::utf8::{valid_utf8, decode_utf8, encode_utf8};
use crate::messages::{
    BackendMessage, HostMessage, HostMessageView, encode_backend_msg, parse_host_msg,
    spec_encode_backend_msg, spec_parse_host_msg,
};

verus! {

/// The four big-endian bytes of a 32-bit length.
pub open spec fn spec_be32(n: u32) -> Seq<u8> {
    seq![
        (n / 0x1000000) as u8,
        ((n / 0x10000) % 0x100) as u8,
        ((n / 0x100) % 0x100) as u8,
        (n % 0x100) as u8,
    ]
}

/// A whole host frame: the payload's length, big-endian, then the payload.
pub open spec fn spec_host_frame(payload: Seq<u8>) -> Seq<u8>
    recommends
        payload.len() <= u32::MAX,
{
    spec_be32(payload.len() as u32) + payload
}

/// The frame bytes that carry one backend message to the host.
pub open spec fn spec_encode_host_frame(m: crate::messages::BackendMessageView) -> Seq<u8> {
    spec_host_frame(encode_utf8(spec_encode_backend_msg(m)))
}

/// Relies on `String::from_utf8`: accepts exactly the byte vectors holding
/// UTF-8 text and returns the string those bytes encode.
#[verifier::external_body]
fn string_from_utf8(bytes: Vec<u8>) -> (r: Option<String>)
    ensures
        r is Some <==> valid_utf8(bytes@),
        r matches Some(s) ==> encode_utf8(s@) == bytes@,
{
    String::from_utf8(bytes).ok()
}

/// Encodes one backend message as a host frame.  Yields nothing only when
/// the encoded text is too long for the 32-bit length prefix.
pub fn encode_host_frame(msg: BackendMessage) -> (r: Option<Vec<u8>>)
    ensures
        ({
            let payload = encode_utf8(spec_encode_backend_msg(msg@));
            &&& r is Some <==> payload.len() <= u32::MAX
            &&& r matches Some(f) ==> f@ == spec_encode_host_frame(msg@)
        }),
{
    let ghost payload = encode_utf8(spec_encode_backend_msg(msg@));
    let text = encode_backend_msg(msg);
    let mut bytes: Vec<u8> = text.as_str().as_bytes_vec();
    assert(bytes@ == payload);
    if bytes.len() as u64 > u32::MAX as u64 {
        return None;
    }
    let n = bytes.len() as u32;
    let mut frame: Vec<u8> = Vec::new();
    frame.push((n / 0x1000000) as u8);
    frame.push(((n / 0x10000) % 0x100) as u8);
    frame.push(((n / 0x100) % 0x100) as u8);
    frame.push((n % 0x100) as u8);
    assert(frame@ =~= spec_be32(n));
    frame.append(&mut bytes);
    assert(frame@ =~= spec_host_frame(payload));
    Some(frame)
}

/// What decoding a host frame payload yields: the host message carried by
/// the UTF-8 JSON text, or nothing when the bytes are not UTF-8 or the text
/// does not parse to a known variant.
pub open spec fn spec_decode_host_payload(bytes: Seq<u8>) -> Option<HostMessageView> {
    if valid_utf8(bytes) {
        spec_parse_host_msg(decode_utf8(bytes))
    } else {
        None
    }
}

/// Decodes the payload of one host frame.
pub fn decode_host_payload(bytes: Vec<u8>) -> (r: Option<HostMessage>)
    ensures
        r.deep_view() == spec_decode_host_payload(bytes@),
{
    let ghost gbytes = bytes@;
    match string_from_utf8(bytes) {
        None => None,
        Some(text) => {
            proof {
                vstd::utf8::encode_utf8_decode_utf8(text@);
            }
            assert(decode_utf8(gbytes) == text@);
            parse_host_msg(text.as_str())
        },
    }
}

} // verus!
