//! The 32-bit little-endian wire format, and the calls into `byteorder` that
//! produce and consume it.

use byteorder::{ByteOrder, LittleEndian};
use vstd::prelude::*;

verus! {

/// The four bytes that store `n` modulo 2^32, least significant byte first.
pub open spec fn le_bytes(n: nat) -> Seq<u8> {
    seq![
        (n % 256) as u8,
        (n / 256 % 256) as u8,
        (n / 65536 % 256) as u8,
        (n / 16777216 % 256) as u8,
    ]
}

/// The number whose little-endian digits, base 256, are the first four bytes
/// of `bytes`.
pub open spec fn le_value(bytes: Seq<u8>) -> nat
    recommends
        bytes.len() == 4,
{
    (bytes[0] + 256 * bytes[1] + 65536 * bytes[2] + 16777216 * bytes[3]) as nat
}

/// The unsigned number that shares its 32-bit two's-complement pattern with `v`.
pub open spec fn unsigned_of(v: i32) -> nat {
    if v < 0 {
        (v + 0x1_0000_0000) as nat
    } else {
        v as nat
    }
}

/// The signed number that shares its 32-bit two's-complement pattern with `n`.
pub open spec fn signed_of(n: nat) -> i32
    recommends
        n < 0x1_0000_0000,
{
    if n >= 0x8000_0000 {
        (n - 0x1_0000_0000) as i32
    } else {
        n as i32
    }
}

/// The wire form of an unsigned 32-bit integer.
pub open spec fn u32_le_bytes(v: u32) -> Seq<u8> {
    le_bytes(v as nat)
}

/// The unsigned 32-bit integer stored in four bytes.
pub open spec fn u32_from_le(bytes: Seq<u8>) -> u32
    recommends
        bytes.len() == 4,
{
    le_value(bytes) as u32
}

/// The wire form of a signed 32-bit integer: two's complement, little-endian.
pub open spec fn i32_le_bytes(v: i32) -> Seq<u8> {
    le_bytes(unsigned_of(v))
}

/// The signed 32-bit integer stored in four bytes.
pub open spec fn i32_from_le(bytes: Seq<u8>) -> i32
    recommends
        bytes.len() == 4,
{
    signed_of(le_value(bytes))
}

/// The byte that stores a truth value: 1 for `true`, 0 for `false`.
pub open spec fn bool_byte(value: bool) -> u8 {
    if value {
        1
    } else {
        0
    }
}

/// The wire form of three 32-bit values: the first, then the second, then
/// the third, each as [`u32_le_bytes`].
pub open spec fn triple_le_bytes(triple: (u32, u32, u32)) -> Seq<u8> {
    u32_le_bytes(triple.0) + u32_le_bytes(triple.1) + u32_le_bytes(triple.2)
}

/// The three 32-bit values stored in twelve bytes.
pub open spec fn triple_from_le(bytes: Seq<u8>) -> (u32, u32, u32)
    recommends
        bytes.len() == 12,
{
    (
        u32_from_le(bytes.subrange(0, 4)),
        u32_from_le(bytes.subrange(4, 8)),
        u32_from_le(bytes.subrange(8, 12)),
    )
}

/// Decoding the encoding of a 32-bit number gives the number back.
pub proof fn lemma_le_round_trip(n: nat)
    requires
        n < 0x1_0000_0000,
    ensures
        le_bytes(n).len() == 4,
        le_value(le_bytes(n)) == n,
{
}

/// An unsigned integer survives encoding and decoding.
pub proof fn lemma_u32_round_trip(v: u32)
    ensures
        u32_le_bytes(v).len() == 4,
        u32_from_le(u32_le_bytes(v)) == v,
{
    lemma_le_round_trip(v as nat);
}

/// A signed integer survives encoding and decoding.
pub proof fn lemma_i32_round_trip(v: i32)
    ensures
        i32_le_bytes(v).len() == 4,
        i32_from_le(i32_le_bytes(v)) == v,
{
    lemma_le_round_trip(unsigned_of(v));
}

/// `byteorder`'s `LittleEndian::write_u32`, run on a fresh four-byte array.
///
/// Trusted: the array that comes back holds `value` least significant byte
/// first, as `u32::to_le_bytes` lays it out.
#[verifier::external_body]
pub(crate) fn encode_u32(value: u32) -> (out: [u8; 4])
    ensures
        out@ == u32_le_bytes(value),
{
    let mut out: [u8; 4] = [0u8; 4];
    LittleEndian::write_u32(&mut out, value);
    out
}

/// `byteorder`'s `LittleEndian::write_i32`, run on a fresh four-byte array.
///
/// Trusted: the array that comes back holds the two's-complement pattern of
/// `value`, least significant byte first.
#[verifier::external_body]
pub(crate) fn encode_i32(value: i32) -> (out: [u8; 4])
    ensures
        out@ == i32_le_bytes(value),
{
    let mut out: [u8; 4] = [0u8; 4];
    LittleEndian::write_i32(&mut out, value);
    out
}

/// `byteorder`'s `LittleEndian::read_u32`.
///
/// Trusted: the result is the number whose little-endian bytes are `src`.
/// The outside function panics on fewer than four bytes, which `requires`
/// rules out.
#[verifier::external_body]
pub(crate) fn decode_u32(src: &[u8]) -> (value: u32)
    requires
        src@.len() == 4,
    ensures
        value == u32_from_le(src@),
{
    LittleEndian::read_u32(src)
}

/// `byteorder`'s `LittleEndian::read_i32`.
///
/// Trusted: the result is the signed number whose two's-complement
/// little-endian bytes are `src`. The outside function panics on fewer than
/// four bytes, which `requires` rules out.
#[verifier::external_body]
pub(crate) fn decode_i32(src: &[u8]) -> (value: i32)
    requires
        src@.len() == 4,
    ensures
        value == i32_from_le(src@),
{
    LittleEndian::read_i32(src)
}

} // verus!
