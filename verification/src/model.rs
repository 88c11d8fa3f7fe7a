//! The mathematical model of a buffer: its bytes and its cursor.

use crate::endian::i32_from_le;
use crate::error::BufferError;
use vstd::prelude::*;
use vstd::utf8::{decode_utf8, valid_utf8};

verus! {

/// What a buffer is, to its contracts: the stored bytes, from offset 0, and
/// the offset at which the next read or write takes place.
pub struct BufferView {
    pub bytes: Seq<u8>,
    pub cursor: nat,
}

impl BufferView {
    /// The cursor lies within the stored bytes, or just behind the last one.
    pub open spec fn wf(self) -> bool {
        self.cursor <= self.bytes.len()
    }

    /// At least `n` bytes remain between the cursor and the end.
    pub open spec fn can_read(self, n: nat) -> bool {
        self.cursor + n <= self.bytes.len()
    }

    /// The `n` bytes that start at the cursor.
    pub open spec fn window(self, n: nat) -> Seq<u8>
        recommends
            self.can_read(n),
    {
        self.bytes.subrange(self.cursor as int, (self.cursor + n) as int)
    }

    /// The same bytes, with the cursor moved forward by `n`.
    pub open spec fn advance(self, n: nat) -> BufferView {
        BufferView { bytes: self.bytes, cursor: self.cursor + n }
    }

    /// The same bytes, with the cursor at `at`.
    pub open spec fn seek(self, at: nat) -> BufferView {
        BufferView { bytes: self.bytes, cursor: at }
    }

    /// The buffer once there is room for `n` bytes at the cursor: where fewer
    /// than `cursor + n` bytes are stored, zero bytes are added until exactly
    /// that many are; otherwise nothing changes.
    pub open spec fn reserve(self, n: nat) -> BufferView {
        if self.cursor + n > self.bytes.len() {
            BufferView {
                bytes: self.bytes + Seq::new(
                    (self.cursor + n - self.bytes.len()) as nat,
                    |i: int| 0u8,
                ),
                cursor: self.cursor,
            }
        } else {
            self
        }
    }

    /// The buffer after `data` was written at the cursor: room is reserved,
    /// `data` takes the place of the bytes at `[cursor, cursor + data.len())`,
    /// every other byte stays, and the cursor moves behind `data`.
    pub open spec fn write(self, data: Seq<u8>) -> BufferView {
        let room = self.reserve(data.len()).bytes;
        BufferView {
            bytes: room.subrange(0, self.cursor as int) + data + room.subrange(
                (self.cursor + data.len()) as int,
                room.len() as int,
            ),
            cursor: self.cursor + data.len(),
        }
    }

    /// The bytes of the string that is stored at the cursor: the four bytes
    /// at the cursor give a signed length, and the string's bytes are the
    /// `length` bytes behind them. There is no such string where fewer than
    /// four bytes remain, where the length is negative, or where fewer than
    /// `length` bytes follow.
    pub open spec fn string_frame(self) -> Option<Seq<u8>> {
        if !self.can_read(4) {
            None
        } else {
            let length = i32_from_le(self.window(4));
            if length < 0 || !self.advance(4).can_read(length as nat) {
                None
            } else {
                Some(self.advance(4).window(length as nat))
            }
        }
    }

    /// What reading a string at the cursor comes to: the characters that the
    /// stored bytes decode to, or the way the read fails. With no string
    /// stored at the cursor that is an underflow; with one whose bytes are
    /// not valid UTF-8, an invalid encoding.
    pub open spec fn string_at_cursor(self) -> Result<Seq<char>, BufferError> {
        match self.string_frame() {
            None => Err(BufferError::BufferUnderflow),
            Some(body) => if valid_utf8(body) {
                Ok(decode_utf8(body))
            } else {
                Err(BufferError::InvalidEncoding)
            },
        }
    }
}

} // verus!
