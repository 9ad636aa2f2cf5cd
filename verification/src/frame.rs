//! Frames: a four-byte little-endian length, then that many payload bytes.

use vstd::prelude::*;
use crate::error::ProtocolError;

verus! {

/// The number of bytes in a frame's length prefix.
pub const PREFIX_LEN: usize = 4;

/// The longest payload that a frame may carry: 2^24 - 1 bytes.
pub const MAX_PAYLOAD_LEN: usize = 0xFF_FFFF;

/// The four bytes that stand for `n`, least significant first.
pub open spec fn le_bytes(n: nat) -> Seq<u8> {
    seq![
        (n % 256) as u8,
        ((n / 256) % 256) as u8,
        ((n / 65536) % 256) as u8,
        ((n / 16777216) % 256) as u8,
    ]
}

/// The number that the first four bytes of `bytes` stand for, least
/// significant first.
pub open spec fn le_value(bytes: Seq<u8>) -> nat {
    (bytes[0] as nat) + 256 * (bytes[1] as nat) + 65536 * (bytes[2] as nat) + 16777216 * (
    bytes[3] as nat)
}

/// The frame that carries `payload`.
pub open spec fn frame_of(payload: Seq<u8>) -> Seq<u8> {
    le_bytes(payload.len()) + payload
}

/// Reading four bytes as a number undoes writing a number below 2^32 as four bytes.
pub proof fn le_value_of_le_bytes(n: nat)
    requires
        n < 0x1_0000_0000,
    ensures
        le_bytes(n).len() == 4,
        le_value(le_bytes(n)) == n,
{
}

/// Writing the number that four bytes stand for gives the four bytes back.
pub proof fn le_bytes_of_le_value(bytes: Seq<u8>)
    requires
        bytes.len() == 4,
    ensures
        le_value(bytes) < 0x1_0000_0000,
        le_bytes(le_value(bytes)) == bytes,
{
    let b0 = bytes[0] as nat;
    let b1 = bytes[1] as nat;
    let b2 = bytes[2] as nat;
    let b3 = bytes[3] as nat;
    let v = le_value(bytes);
    let v1 = b1 + 256 * b2 + 65536 * b3;
    let v2 = b2 + 256 * b3;
    assert(v == b0 + 256 * v1);
    assert(v1 == b1 + 256 * v2);
    assert(v2 == b2 + 256 * b3);
    assert(v % 256 == b0 && v / 256 == v1);
    assert(v1 % 256 == b1 && v1 / 256 == v2);
    assert(v2 % 256 == b2 && v2 / 256 == b3);
    assert(v / 65536 == v2) by {
        assert(v / 65536 == (v / 256) / 256);
    }
    assert(v / 16777216 == b3) by {
        assert(v / 16777216 == (v / 65536) / 256);
    }
    assert(le_bytes(v) =~= bytes);
}

/// The length prefix of a payload of `len` bytes.
pub fn length_prefix(len: u32) -> (prefix: Vec<u8>)
    ensures
        prefix@ == le_bytes(len as nat),
{
    let mut prefix: Vec<u8> = Vec::with_capacity(4);
    prefix.push((len % 256) as u8);
    prefix.push(((len / 256) % 256) as u8);
    prefix.push(((len / 65536) % 256) as u8);
    prefix.push(((len / 16777216) % 256) as u8);
    assert(prefix@ =~= le_bytes(len as nat));
    prefix
}

/// The payload length that a length prefix announces.
pub fn payload_len(prefix: &[u8]) -> (len: u32)
    requires
        prefix@.len() == PREFIX_LEN,
    ensures
        len == le_value(prefix@),
{
    let b0: u32 = prefix[0] as u32;
    let b1: u32 = prefix[1] as u32;
    let b2: u32 = prefix[2] as u32;
    let b3: u32 = prefix[3] as u32;
    b0 + 256 * b1 + 65536 * b2 + 16777216 * b3
}

/// Puts `payload` into a frame.
///
/// A payload of more than `MAX_PAYLOAD_LEN` bytes is refused with
/// `PayloadTooLarge`; every other payload gives its frame.
pub fn encode_frame(payload: &[u8]) -> (framed: Result<Vec<u8>, ProtocolError>)
    ensures
        payload@.len() > MAX_PAYLOAD_LEN ==> framed == Err::<Vec<u8>, ProtocolError>(
            ProtocolError::PayloadTooLarge,
        ),
        payload@.len() <= MAX_PAYLOAD_LEN ==> framed is Ok && framed->Ok_0@ == frame_of(payload@),
{
    if payload.len() > MAX_PAYLOAD_LEN {
        return Err(ProtocolError::PayloadTooLarge);
    }
    let mut bytes: Vec<u8> = length_prefix(payload.len() as u32);
    bytes.extend_from_slice(payload);
    Ok(bytes)
}

} // verus!
