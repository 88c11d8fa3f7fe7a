//! What holds of every buffer: writes land where the cursor stands, a read
//! from the same offset gives the written value back, and successive writes
//! lie side by side.

use crate::endian::{
    bool_byte, i32_from_le, i32_le_bytes, le_bytes, lemma_i32_round_trip, lemma_le_round_trip,
    lemma_u32_round_trip, triple_from_le, triple_le_bytes, u32_from_le, u32_le_bytes,
};
use crate::model::BufferView;
use crate::text::string_le_bytes;
use vstd::prelude::*;
use vstd::utf8::{
    decode_utf8, encode_utf8, encode_utf8_decode_utf8, encode_utf8_valid_utf8, valid_utf8,
};

verus! {

/// A write keeps the cursor within the stored bytes, never shortens the
/// storage, and leaves every byte outside the written range as it was.
pub proof fn lemma_write_frame(s: BufferView, data: Seq<u8>)
    requires
        s.wf(),
    ensures
        s.write(data).wf(),
        s.write(data).cursor == s.cursor + data.len(),
        s.cursor + data.len() > s.bytes.len() ==> s.write(data).bytes.len() == s.cursor
            + data.len(),
        s.cursor + data.len() <= s.bytes.len() ==> s.write(data).bytes.len() == s.bytes.len(),
        forall|i: int|
            0 <= i < s.bytes.len() && !(s.cursor <= i < s.cursor + data.len())
                ==> s.write(data).bytes[i] == s.bytes[i],
{
}

/// After a write, the bytes that start at the write's offset are the data
/// that was written.
pub proof fn lemma_write_then_read(s: BufferView, data: Seq<u8>)
    requires
        s.wf(),
    ensures
        s.write(data).seek(s.cursor).can_read(data.len()),
        s.write(data).seek(s.cursor).window(data.len()) == data,
{
}

/// Two writes in a row are one write of the two pieces joined: the second
/// starts where the first ended, with no gap and no overlap.
pub proof fn lemma_chained_writes(s: BufferView, first: Seq<u8>, second: Seq<u8>)
    requires
        s.wf(),
    ensures
        s.write(first).write(second) == s.write(first + second),
{
    assert(s.write(first).write(second).bytes =~= s.write(first + second).bytes);
}

/// A write with the cursor at the end appends: the old bytes stay and the
/// data follows them.
pub proof fn lemma_write_at_end_appends(s: BufferView, data: Seq<u8>)
    requires
        s.cursor == s.bytes.len(),
    ensures
        s.write(data).bytes == s.bytes + data,
        s.write(data).cursor == s.write(data).bytes.len(),
{
}

/// A signed integer that was written is read back unchanged from the offset
/// at which it was written.
pub proof fn lemma_int32_round_trip(s: BufferView, value: i32)
    requires
        s.wf(),
    ensures
        s.write(i32_le_bytes(value)).seek(s.cursor).can_read(4),
        i32_from_le(s.write(i32_le_bytes(value)).seek(s.cursor).window(4)) == value,
{
    lemma_i32_round_trip(value);
    lemma_write_then_read(s, i32_le_bytes(value));
}

/// An unsigned integer that was written is read back unchanged from the
/// offset at which it was written.
pub proof fn lemma_uint32_round_trip(s: BufferView, value: u32)
    requires
        s.wf(),
    ensures
        s.write(u32_le_bytes(value)).seek(s.cursor).can_read(4),
        u32_from_le(s.write(u32_le_bytes(value)).seek(s.cursor).window(4)) == value,
{
    lemma_u32_round_trip(value);
    lemma_write_then_read(s, u32_le_bytes(value));
}

/// A single-precision number that was written is read back bit for bit from
/// the offset at which it was written: every pattern, those of negative zero
/// and of each NaN among them.
pub proof fn lemma_float_round_trip(s: BufferView, bits: u32)
    requires
        s.wf(),
    ensures
        s.write(u32_le_bytes(bits)).seek(s.cursor).can_read(4),
        u32_from_le(s.write(u32_le_bytes(bits)).seek(s.cursor).window(4)) == bits,
{
    lemma_uint32_round_trip(s, bits);
}

/// A byte that was written is read back unchanged from the offset at which
/// it was written.
pub proof fn lemma_byte_round_trip(s: BufferView, value: u8)
    requires
        s.wf(),
    ensures
        s.write(seq![value]).seek(s.cursor).can_read(1),
        s.write(seq![value]).seek(s.cursor).window(1)[0] == value,
{
    lemma_write_then_read(s, seq![value]);
}

/// A truth value that was written is read back unchanged from the offset at
/// which it was written.
pub proof fn lemma_bool_round_trip(s: BufferView, value: bool)
    requires
        s.wf(),
    ensures
        s.write(seq![bool_byte(value)]).seek(s.cursor).can_read(1),
        (s.write(seq![bool_byte(value)]).seek(s.cursor).window(1)[0] != 0) == value,
{
    lemma_write_then_read(s, seq![bool_byte(value)]);
}

/// Three single-precision numbers that were written as a vector or a rotator
/// are read back bit for bit, and in their order, from the offset at which
/// they were written.
pub proof fn lemma_triple_round_trip(s: BufferView, triple: (u32, u32, u32))
    requires
        s.wf(),
    ensures
        s.write(triple_le_bytes(triple)).seek(s.cursor).can_read(12),
        triple_from_le(s.write(triple_le_bytes(triple)).seek(s.cursor).window(12)) == triple,
{
    let data = triple_le_bytes(triple);
    lemma_u32_round_trip(triple.0);
    lemma_u32_round_trip(triple.1);
    lemma_u32_round_trip(triple.2);
    lemma_write_then_read(s, data);
}

/// Bytes that were written behind their own length are found again as the
/// string stored at the offset at which they were written.
pub proof fn lemma_frame_round_trip(s: BufferView, body: Seq<u8>)
    requires
        s.wf(),
        body.len() <= 0x7fff_ffff,
    ensures
        s.write(le_bytes(body.len()) + body).seek(s.cursor).string_frame() == Some(body),
{
    let prefix = le_bytes(body.len());
    let back = s.write(prefix + body).seek(s.cursor);
    lemma_le_round_trip(body.len());
    lemma_write_then_read(s, prefix + body);
    assert(back.window(4) =~= prefix);
    assert(i32_from_le(back.window(4)) == body.len());
    assert(back.advance(4).window(body.len()) =~= body);
}

/// Where the string stored at the cursor is made of valid UTF-8, reading it
/// gives the characters that its bytes decode to.
pub proof fn lemma_string_of_frame(v: BufferView, body: Seq<u8>)
    requires
        v.string_frame() == Some(body),
        valid_utf8(body),
    ensures
        v.string_at_cursor() matches Ok(chars) && chars == decode_utf8(body),
{
}

/// A string that was written is read back unchanged from the offset at which
/// it was written: the stored length announces exactly the string's bytes,
/// those bytes are valid UTF-8, and they decode to the string. This holds of
/// every string, the empty one too, whose encoding is at most 2^31 - 1 bytes
/// long; the length of a longer one does not fit the signed prefix.
pub proof fn lemma_string_round_trip(s: BufferView, chars: Seq<char>)
    requires
        s.wf(),
        encode_utf8(chars).len() <= 0x7fff_ffff,
    ensures
        s.write(string_le_bytes(chars)).seek(s.cursor).string_at_cursor() matches Ok(read)
            && read == chars,
{
    let body = encode_utf8(chars);
    assert(body.len() % 0x1_0000_0000 == body.len());
    lemma_frame_round_trip(s, body);
    encode_utf8_valid_utf8(chars);
    encode_utf8_decode_utf8(chars);
    lemma_string_of_frame(s.write(string_le_bytes(chars)).seek(s.cursor), body);
}

} // verus!
