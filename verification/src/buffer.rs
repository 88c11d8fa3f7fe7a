//! The buffer itself: storage, cursor, and the typed reads and writes.

use crate::endian::{
    bool_byte, decode_i32, decode_u32, encode_i32, encode_u32, i32_from_le, i32_le_bytes,
    le_bytes, triple_from_le, triple_le_bytes, u32_from_le, u32_le_bytes,
};
use crate::error::BufferError;
use crate::hex::{encode, hex_text};
use crate::laws::lemma_chained_writes;
use crate::model::BufferView;
use crate::text::{length_prefix, string_le_bytes};
use vstd::prelude::*;
use vstd::slice::slice_subrange;
use vstd::utf8::{encode_utf8, encode_utf8_decode_utf8};

verus! {

/// An in-memory byte sequence with one cursor, shared by reads and writes.
///
/// Writes grow the storage as needed and never fail. Reads fail, and leave
/// the buffer untouched, when too few bytes remain behind the cursor. A
/// failed read reports its [`BufferError`] by that error's message.
///
/// Each write hands back the buffer it wrote to, so that writes can be
/// chained: in its contract `chain` is that buffer right after the write, and
/// the buffer ends as whatever is done through `chain` leaves it.
pub struct ByteBuffer {
    buffer: Vec<u8>,
    position: usize,
}

impl View for ByteBuffer {
    type V = BufferView;

    closed spec fn view(&self) -> BufferView {
        BufferView { bytes: self.buffer@, cursor: self.position as nat }
    }
}

impl Clone for ByteBuffer {
    /// A second buffer with the same bytes and the same cursor.
    fn clone(&self) -> (copy: Self)
        ensures
            copy@ == self@,
    {
        let buffer = self.buffer.clone();
        ByteBuffer { buffer, position: self.position }
    }
}

impl ByteBuffer {
    /// A buffer over `data`, or an empty one, with the cursor at 0.
    pub fn new(data: Option<Vec<u8>>) -> (buffer: Self)
        ensures
            buffer@.cursor == 0,
            data matches Some(bytes) ==> buffer@.bytes == bytes@,
            data is None ==> buffer@.bytes == Seq::<u8>::empty(),
            buffer@.wf(),
    {
        match data {
            Some(bytes) => ByteBuffer { buffer: bytes, position: 0 },
            None => ByteBuffer { buffer: Vec::new(), position: 0 },
        }
    }

    /// Makes room for `required_bytes` bytes at the cursor: storage shorter
    /// than `cursor + required_bytes` grows to exactly that length, the new
    /// tail filled with zeros. Storage never shrinks.
    pub fn ensure_capacity(&mut self, required_bytes: usize)
        requires
            old(self)@.wf(),
            old(self)@.cursor + required_bytes <= usize::MAX,
        ensures
            final(self)@ == old(self)@.reserve(required_bytes as nat),
            final(self)@.wf(),
    {
        let required_capacity = self.position + required_bytes;
        if required_capacity > self.buffer.len() {
            self.buffer.resize(required_capacity, 0);
            assert(self.buffer@ =~= old(self)@.reserve(required_bytes as nat).bytes);
        }
    }

    /// Stores `data` at the cursor and moves the cursor behind it.
    fn write_bytes(&mut self, data: &[u8])
        requires
            old(self)@.wf(),
            old(self)@.cursor + data@.len() <= usize::MAX,
        ensures
            final(self)@ == old(self)@.write(data@),
            final(self)@.wf(),
    {
        let count = data.len();
        self.ensure_capacity(count);
        let start = self.position;
        let ghost room = self.buffer@;
        let mut done: usize = 0;
        while done < count
            invariant
                done <= count,
                count == data@.len(),
                start == self.position,
                start + count <= room.len(),
                self.buffer.len() == room.len(),
                self.buffer@ == room.subrange(0, start as int) + data@.subrange(0, done as int)
                    + room.subrange(start + done, room.len() as int),
            decreases count - done,
        {
            self.buffer[start + done] = data[done];
            done = done + 1;
        }
        self.position = start + count;
        assert(data@.subrange(0, count as int) =~= data@);
    }

    /// Fails with the underflow message unless `width` bytes remain behind
    /// the cursor.
    fn expect_remaining(&self, width: usize) -> (outcome: Result<(), String>)
        requires
            self@.wf(),
        ensures
            outcome is Ok <==> self@.can_read(width as nat),
            outcome is Ok ==> self.position + width <= self.buffer.len() <= usize::MAX,
            outcome matches Err(text) ==> text@ == BufferError::BufferUnderflow.text(),
    {
        if self.buffer.len() - self.position < width {
            Err(BufferError::BufferUnderflow.message())
        } else {
            Ok(())
        }
    }

    /// Writes `value` as four little-endian bytes, two's complement, at the
    /// cursor, and moves the cursor behind them.
    pub fn put_int32(&mut self, value: i32) -> (chain: &mut Self)
        requires
            old(self)@.wf(),
            old(self)@.cursor + 4 <= usize::MAX,
        ensures
            chain@ == old(self)@.write(i32_le_bytes(value)),
            chain@.wf(),
            *final(self) == *final(chain),
    {
        let bytes = encode_i32(value);
        self.write_bytes(bytes.as_slice());
        self
    }

    /// Reads four little-endian bytes at the cursor as a signed integer and
    /// moves the cursor behind them. With fewer than four bytes left the read
    /// fails as a [`BufferError::BufferUnderflow`] and changes nothing.
    pub fn get_int32(&mut self) -> (outcome: Result<i32, String>)
        requires
            old(self)@.wf(),
        ensures
            final(self)@.wf(),
            outcome is Ok <==> old(self)@.can_read(4),
            outcome matches Ok(value) ==> value == i32_from_le(old(self)@.window(4)),
            outcome is Ok ==> final(self)@ == old(self)@.advance(4),
            outcome matches Err(text) ==> text@ == BufferError::BufferUnderflow.text(),
            outcome is Err ==> final(self)@ == old(self)@,
    {
        match self.expect_remaining(4) {
            Err(text) => Err(text),
            Ok(()) => {
                let value = decode_i32(
                    slice_subrange(self.buffer.as_slice(), self.position, self.position + 4),
                );
                self.position += 4;
                Ok(value)
            },
        }
    }

    /// Writes `value` as four little-endian bytes at the cursor and moves the
    /// cursor behind them.
    pub fn put_uint32(&mut self, value: u32) -> (chain: &mut Self)
        requires
            old(self)@.wf(),
            old(self)@.cursor + 4 <= usize::MAX,
        ensures
            chain@ == old(self)@.write(u32_le_bytes(value)),
            chain@.wf(),
            *final(self) == *final(chain),
    {
        let bytes = encode_u32(value);
        self.write_bytes(bytes.as_slice());
        self
    }

    /// Reads four little-endian bytes at the cursor as an unsigned integer
    /// and moves the cursor behind them. With fewer than four bytes left the
    /// read fails as a [`BufferError::BufferUnderflow`] and changes nothing.
    pub fn get_uint32(&mut self) -> (outcome: Result<u32, String>)
        requires
            old(self)@.wf(),
        ensures
            final(self)@.wf(),
            outcome is Ok <==> old(self)@.can_read(4),
            outcome matches Ok(value) ==> value == u32_from_le(old(self)@.window(4)),
            outcome is Ok ==> final(self)@ == old(self)@.advance(4),
            outcome matches Err(text) ==> text@ == BufferError::BufferUnderflow.text(),
            outcome is Err ==> final(self)@ == old(self)@,
    {
        match self.expect_remaining(4) {
            Err(text) => Err(text),
            Ok(()) => {
                let value = decode_u32(
                    slice_subrange(self.buffer.as_slice(), self.position, self.position + 4),
                );
                self.position += 4;
                Ok(value)
            },
        }
    }

    /// Writes one byte at the cursor and moves the cursor behind it.
    pub fn put_byte(&mut self, value: u8) -> (chain: &mut Self)
        requires
            old(self)@.wf(),
            old(self)@.cursor + 1 <= usize::MAX,
        ensures
            chain@ == old(self)@.write(seq![value]),
            chain@.wf(),
            *final(self) == *final(chain),
    {
        self.ensure_capacity(1);
        self.buffer[self.position] = value;
        self.position += 1;
        assert(self@.bytes =~= old(self)@.write(seq![value]).bytes);
        self
    }

    /// Reads the byte at the cursor and moves the cursor behind it. With no
    /// byte left the read fails as a [`BufferError::BufferUnderflow`] and
    /// changes nothing.
    pub fn get_byte(&mut self) -> (outcome: Result<u8, String>)
        requires
            old(self)@.wf(),
        ensures
            final(self)@.wf(),
            outcome is Ok <==> old(self)@.can_read(1),
            outcome matches Ok(value) ==> value == old(self)@.window(1)[0],
            outcome is Ok ==> final(self)@ == old(self)@.advance(1),
            outcome matches Err(text) ==> text@ == BufferError::BufferUnderflow.text(),
            outcome is Err ==> final(self)@ == old(self)@,
    {
        match self.expect_remaining(1) {
            Err(text) => Err(text),
            Ok(()) => {
                let value = self.buffer[self.position];
                self.position += 1;
                Ok(value)
            },
        }
    }

    /// Writes `value` as one byte, 1 for `true` and 0 for `false`, at the
    /// cursor, and moves the cursor behind it.
    pub fn put_bool(&mut self, value: bool) -> (chain: &mut Self)
        requires
            old(self)@.wf(),
            old(self)@.cursor + 1 <= usize::MAX,
        ensures
            chain@ == old(self)@.write(seq![bool_byte(value)]),
            chain@.wf(),
            *final(self) == *final(chain),
    {
        let byte: u8 = if value {
            1
        } else {
            0
        };
        self.put_byte(byte)
    }

    /// Reads one byte at the cursor as a truth value, any byte but 0 being
    /// `true`, and moves the cursor behind it. With no byte left the read
    /// fails as a [`BufferError::BufferUnderflow`] and changes nothing.
    pub fn get_bool(&mut self) -> (outcome: Result<bool, String>)
        requires
            old(self)@.wf(),
        ensures
            final(self)@.wf(),
            outcome is Ok <==> old(self)@.can_read(1),
            outcome matches Ok(value) ==> value == (old(self)@.window(1)[0] != 0),
            outcome is Ok ==> final(self)@ == old(self)@.advance(1),
            outcome matches Err(text) ==> text@ == BufferError::BufferUnderflow.text(),
            outcome is Err ==> final(self)@ == old(self)@,
    {
        match self.get_byte() {
            Ok(byte) => Ok(byte != 0),
            Err(text) => Err(text),
        }
    }

    /// Writes a string: the number of bytes of its UTF-8 encoding as a signed
    /// four-byte little-endian integer, then those bytes, and moves the
    /// cursor behind them. A count of 2^31 or more does not fit the signed
    /// integer and is stored modulo 2^32.
    pub fn put_string(&mut self, value: &str) -> (chain: &mut Self)
        requires
            old(self)@.wf(),
            old(self)@.cursor + 4 + encode_utf8(value@).len() <= usize::MAX,
        ensures
            chain@ == old(self)@.write(string_le_bytes(value@)),
            chain@.wf(),
            *final(self) == *final(chain),
    {
        let bytes = value.as_bytes();
        self.put_int32(length_prefix(bytes.len()));
        self.write_bytes(bytes);
        proof {
            lemma_chained_writes(
                old(self)@,
                le_bytes((bytes@.len() % 0x1_0000_0000) as nat),
                bytes@,
            );
        }
        self
    }

    /// Reads a string: a signed four-byte length, then that many bytes of
    /// UTF-8, and moves the cursor behind them.
    ///
    /// The read fails as a [`BufferError::BufferUnderflow`] where the length
    /// or the bytes it announces do not fit in what remains, or the length is
    /// negative, and as a [`BufferError::InvalidEncoding`] where the bytes
    /// are not valid UTF-8. A failed read changes nothing.
    pub fn get_string(&mut self) -> (outcome: Result<String, String>)
        requires
            old(self)@.wf(),
        ensures
            final(self)@.wf(),
            outcome is Ok <==> old(self)@.string_at_cursor() is Ok,
            outcome matches Ok(value) ==> (old(self)@.string_at_cursor() matches Ok(chars)
                && value@ == chars),
            outcome is Ok ==> (old(self)@.string_frame() matches Some(body)
                && final(self)@ == old(self)@.advance(4 + body.len())),
            outcome matches Err(text) ==> (old(self)@.string_at_cursor() matches Err(error)
                && text@ == error.text()),
            outcome is Err ==> final(self)@ == old(self)@,
    {
        let start = self.position;
        let announced = match self.get_int32() {
            Ok(length) => length,
            Err(text) => {
                return Err(text);
            },
        };
        if announced < 0 {
            self.position = start;
            return Err(BufferError::BufferUnderflow.message());
        }
        let length = announced as usize;
        if self.buffer.len() - self.position < length {
            self.position = start;
            return Err(BufferError::BufferUnderflow.message());
        }
        let body = slice_subrange(self.buffer.as_slice(), self.position, self.position + length);
        match core::str::from_utf8(body) {
            Ok(text) => {
                let value = text.to_owned();
                proof {
                    encode_utf8_decode_utf8(text@);
                }
                self.position += length;
                Ok(value)
            },
            Err(_) => {
                self.position = start;
                Err(BufferError::InvalidEncoding.message())
            },
        }
    }

    /// Writes a single-precision number, given by its IEEE-754 bit pattern,
    /// as four little-endian bytes at the cursor, and moves the cursor behind
    /// them.
    pub fn put_float(&mut self, bits: u32) -> (chain: &mut Self)
        requires
            old(self)@.wf(),
            old(self)@.cursor + 4 <= usize::MAX,
        ensures
            chain@ == old(self)@.write(u32_le_bytes(bits)),
            chain@.wf(),
            *final(self) == *final(chain),
    {
        let bytes = encode_u32(bits);
        self.write_bytes(bytes.as_slice());
        self
    }

    /// Reads four little-endian bytes at the cursor as the IEEE-754 bit
    /// pattern of a single-precision number and moves the cursor behind them.
    /// With fewer than four bytes left the read fails as a
    /// [`BufferError::BufferUnderflow`] and changes nothing.
    pub fn get_float(&mut self) -> (outcome: Result<u32, String>)
        requires
            old(self)@.wf(),
        ensures
            final(self)@.wf(),
            outcome is Ok <==> old(self)@.can_read(4),
            outcome matches Ok(bits) ==> bits == u32_from_le(old(self)@.window(4)),
            outcome is Ok ==> final(self)@ == old(self)@.advance(4),
            outcome matches Err(text) ==> text@ == BufferError::BufferUnderflow.text(),
            outcome is Err ==> final(self)@ == old(self)@,
    {
        match self.expect_remaining(4) {
            Err(text) => Err(text),
            Ok(()) => {
                let bits = decode_u32(
                    slice_subrange(self.buffer.as_slice(), self.position, self.position + 4),
                );
                self.position += 4;
                Ok(bits)
            },
        }
    }

    /// Writes three single-precision numbers one behind the other.
    fn put_triple(&mut self, triple: (u32, u32, u32))
        requires
            old(self)@.wf(),
            old(self)@.cursor + 12 <= usize::MAX,
        ensures
            final(self)@ == old(self)@.write(triple_le_bytes(triple)),
            final(self)@.wf(),
    {
        let ghost start = self@;
        self.put_float(triple.0);
        self.put_float(triple.1);
        self.put_float(triple.2);
        proof {
            let first = u32_le_bytes(triple.0);
            let second = u32_le_bytes(triple.1);
            let third = u32_le_bytes(triple.2);
            lemma_chained_writes(start, first, second);
            lemma_chained_writes(start, first + second, third);
        }
    }

    /// Reads three single-precision numbers one behind the other. Where one
    /// of them is not there to read, the cursor goes back to where it stood.
    fn get_triple(&mut self) -> (outcome: Result<(u32, u32, u32), String>)
        requires
            old(self)@.wf(),
        ensures
            final(self)@.wf(),
            outcome is Ok <==> old(self)@.can_read(12),
            outcome matches Ok(triple) ==> triple == triple_from_le(old(self)@.window(12)),
            outcome is Ok ==> final(self)@ == old(self)@.advance(12),
            outcome matches Err(text) ==> text@ == BufferError::BufferUnderflow.text(),
            outcome is Err ==> final(self)@ == old(self)@,
    {
        let start = self.position;
        let first = match self.get_float() {
            Ok(bits) => bits,
            Err(text) => {
                return Err(text);
            },
        };
        let second = match self.get_float() {
            Ok(bits) => bits,
            Err(text) => {
                self.position = start;
                return Err(text);
            },
        };
        let third = match self.get_float() {
            Ok(bits) => bits,
            Err(text) => {
                self.position = start;
                return Err(text);
            },
        };
        Ok((first, second, third))
    }

    /// Writes a spatial vector: its `x`, `y` and `z` in that order, each a
    /// single-precision number given by its IEEE-754 bit pattern, as twelve
    /// bytes at the cursor.
    pub fn put_vector(&mut self, vector: (u32, u32, u32)) -> (chain: &mut Self)
        requires
            old(self)@.wf(),
            old(self)@.cursor + 12 <= usize::MAX,
        ensures
            chain@ == old(self)@.write(triple_le_bytes(vector)),
            chain@.wf(),
            *final(self) == *final(chain),
    {
        self.put_triple(vector);
        self
    }

    /// Reads a spatial vector: the bit patterns of its `x`, `y` and `z`, from
    /// twelve bytes at the cursor. With fewer than twelve bytes left the read
    /// fails as a [`BufferError::BufferUnderflow`] and changes nothing.
    pub fn get_vector(&mut self) -> (outcome: Result<(u32, u32, u32), String>)
        requires
            old(self)@.wf(),
        ensures
            final(self)@.wf(),
            outcome is Ok <==> old(self)@.can_read(12),
            outcome matches Ok(vector) ==> vector == triple_from_le(old(self)@.window(12)),
            outcome is Ok ==> final(self)@ == old(self)@.advance(12),
            outcome matches Err(text) ==> text@ == BufferError::BufferUnderflow.text(),
            outcome is Err ==> final(self)@ == old(self)@,
    {
        self.get_triple()
    }

    /// Writes a rotator: its three angles in the order given, each a
    /// single-precision number given by its IEEE-754 bit pattern, as twelve
    /// bytes at the cursor. The layout is that of a vector.
    pub fn put_rotator(&mut self, rotator: (u32, u32, u32)) -> (chain: &mut Self)
        requires
            old(self)@.wf(),
            old(self)@.cursor + 12 <= usize::MAX,
        ensures
            chain@ == old(self)@.write(triple_le_bytes(rotator)),
            chain@.wf(),
            *final(self) == *final(chain),
    {
        self.put_triple(rotator);
        self
    }

    /// Reads a rotator: the bit patterns of its three angles, from twelve
    /// bytes at the cursor. With fewer than twelve bytes left the read fails
    /// as a [`BufferError::BufferUnderflow`] and changes nothing.
    pub fn get_rotator(&mut self) -> (outcome: Result<(u32, u32, u32), String>)
        requires
            old(self)@.wf(),
        ensures
            final(self)@.wf(),
            outcome is Ok <==> old(self)@.can_read(12),
            outcome matches Ok(rotator) ==> rotator == triple_from_le(old(self)@.window(12)),
            outcome is Ok ==> final(self)@ == old(self)@.advance(12),
            outcome matches Err(text) ==> text@ == BufferError::BufferUnderflow.text(),
            outcome is Err ==> final(self)@ == old(self)@,
    {
        self.get_triple()
    }

    /// All stored bytes, from offset 0, wherever the cursor stands.
    pub fn get_buffer(&self) -> (bytes: &[u8])
        ensures
            bytes@ == self@.bytes,
    {
        self.buffer.as_slice()
    }

    /// All stored bytes as lowercase hexadecimal text: two digits for each
    /// byte, with no separator and no prefix.
    pub fn to_hex(&self) -> (text: String)
        ensures
            text@ == hex_text(self@.bytes),
    {
        encode(self.buffer.as_slice())
    }

    /// The offset at which the next read or write takes place.
    pub fn position(&self) -> (offset: usize)
        ensures
            offset == self@.cursor,
    {
        self.position
    }

    /// Moves the cursor to `offset`, which may be any offset up to the number
    /// of stored bytes. A larger one is refused: the result is `false` and
    /// the cursor stays.
    pub fn seek(&mut self, offset: usize) -> (moved: bool)
        requires
            old(self)@.wf(),
        ensures
            moved <==> offset <= old(self)@.bytes.len(),
            moved ==> final(self)@ == old(self)@.seek(offset as nat),
            !moved ==> final(self)@ == old(self)@,
            final(self)@.wf(),
    {
        if offset <= self.buffer.len() {
            self.position = offset;
            true
        } else {
            false
        }
    }

    /// Moves the cursor back to offset 0.
    pub fn rewind(&mut self)
        ensures
            final(self)@ == old(self)@.seek(0),
            final(self)@.wf(),
    {
        self.position = 0;
    }
}

} // verus!
