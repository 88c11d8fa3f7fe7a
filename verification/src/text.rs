//! The wire form of a string: a signed 32-bit length, then the UTF-8 bytes.

use crate::endian::{le_bytes, unsigned_of};
use vstd::prelude::*;
use vstd::utf8::{encode_utf8, valid_utf8};

verus! {

/// The wire form of `chars`: the number of bytes of its UTF-8 encoding,
/// reduced modulo 2^32 and stored as [`le_bytes`] does, then the encoding
/// itself.
pub open spec fn string_le_bytes(chars: Seq<char>) -> Seq<u8> {
    le_bytes(encode_utf8(chars).len() % 0x1_0000_0000) + encode_utf8(chars)
}

/// The signed integer that shares its 32-bit pattern with `count` modulo
/// 2^32: `count` itself as long as it is below 2^31.
pub fn length_prefix(count: usize) -> (prefix: i32)
    ensures
        unsigned_of(prefix) == (count as nat) % 0x1_0000_0000,
{
    let low: u64 = (count as u64) % 0x1_0000_0000u64;
    if low >= 0x8000_0000u64 {
        (low as i64 - 0x1_0000_0000i64) as i32
    } else {
        low as i32
    }
}

/// The error of `core::str::from_utf8`, which the library only tells apart
/// from success.
#[verifier::external_type_specification]
#[verifier::external_body]
pub struct ExUtf8Error(core::str::Utf8Error);

/// `core::str::from_utf8` succeeds exactly on valid UTF-8, and the string
/// slice it then gives is made of the very bytes it was given.
pub assume_specification[ core::str::from_utf8 ](bytes: &[u8]) -> (outcome: Result<
    &str,
    core::str::Utf8Error,
>)
    ensures
        outcome is Ok <==> valid_utf8(bytes@),
        outcome matches Ok(text) ==> encode_utf8(text@) == bytes@,
;

} // verus!
