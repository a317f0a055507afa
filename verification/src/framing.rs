//! The framed channel's wire arithmetic: a message travels as a four-byte
//! little-endian byte length followed by that many bytes of UTF-8 text.

use vstd::prelude::*;
use vstd::string::*;

verus! {

/// The four-byte little-endian prefix that announces a frame of `n` bytes.
pub open spec fn spec_le_len(n: u32) -> Seq<u8> {
    seq![
        (n & 0xff) as u8,
        ((n >> 8) & 0xff) as u8,
        ((n >> 16) & 0xff) as u8,
        ((n >> 24) & 0xff) as u8,
    ]
}

/// The frame length that a four-byte little-endian prefix denotes.
pub open spec fn spec_frame_len(b: Seq<u8>) -> u32
    recommends
        b.len() == 4,
{
    (b[0] as u32) | ((b[1] as u32) << 8) | ((b[2] as u32) << 16) | ((b[3] as u32) << 24)
}

/// Reading back an encoded length prefix yields the encoded length.
pub proof fn lemma_frame_len_round_trip(n: u32)
    ensures
        spec_frame_len(spec_le_len(n)) == n,
{
    assert((((n & 0xff) as u8 as u32) | (((n >> 8) & 0xff) as u8 as u32) << 8 | (((n >> 16)
        & 0xff) as u8 as u32) << 16 | (((n >> 24) & 0xff) as u8 as u32) << 24) == n)
        by (bit_vector);
}

/// Turn the length prefix read from the stream into the byte count of the
/// frame body that follows it.
pub fn decode_frame_len(b: &[u8]) -> (n: u32)
    requires
        b@.len() == 4,
    ensures
        n == spec_frame_len(b@),
{
    (b[0] as u32) | ((b[1] as u32) << 8) | ((b[2] as u32) << 16) | ((b[3] as u32) << 24)
}

/// The little-endian length prefix for a frame of `n` bytes.
pub fn encode_frame_len(n: u32) -> (b: Vec<u8>)
    ensures
        b@ == spec_le_len(n),
{
    assert(n & 0xff < 256 && (n >> 8) & 0xff < 256 && (n >> 16) & 0xff < 256 && (n >> 24) & 0xff
        < 256) by (bit_vector);
    let mut v: Vec<u8> = Vec::new();
    v.push((n & 0xff) as u8);
    v.push(((n >> 8) & 0xff) as u8);
    v.push(((n >> 16) & 0xff) as u8);
    v.push(((n >> 24) & 0xff) as u8);
    assert(v@ =~= spec_le_len(n));
    v
}

/// A complete outgoing frame: the length prefix followed by the message's
/// UTF-8 bytes, ready to be written to the stream in one piece.
pub fn encode_frame(msg: &str) -> (out: Vec<u8>)
    requires
        msg.spec_bytes().len() <= u32::MAX,
    ensures
        out@ == spec_le_len(msg.spec_bytes().len() as u32) + msg.spec_bytes(),
{
    let bytes = msg.as_bytes();
    let n = bytes.len() as u32;
    let mut out = encode_frame_len(n);
    let mut body = msg.as_bytes_vec();
    out.append(&mut body);
    out
}

} // verus!
