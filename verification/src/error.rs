//! The two ways in which a read can fail.

use vstd::prelude::*;

verus! {

/// Why a read failed. A failed read hands back the error's
/// [`message`](BufferError::message) and leaves the buffer as it was.
#[derive(Clone, Copy, Debug, PartialEq, Eq)]
pub enum BufferError {
    /// The read needs more bytes than remain behind the cursor.
    BufferUnderflow,
    /// The bytes of a string are not valid UTF-8.
    InvalidEncoding,
}

impl BufferError {
    /// The text that reports this failure.
    pub open spec fn text(self) -> Seq<char> {
        match self {
            BufferError::BufferUnderflow => "Buffer underflow"@,
            BufferError::InvalidEncoding => "Invalid UTF-8 string"@,
        }
    }

    /// The text that reports this failure, as an owned string.
    pub fn message(&self) -> (text: String)
        ensures
            text@ == self.text(),
    {
        match self {
            BufferError::BufferUnderflow => "Buffer underflow".to_owned(),
            BufferError::InvalidEncoding => "Invalid UTF-8 string".to_owned(),
        }
    }
}

/// The two failures report different texts, so the text tells them apart.
pub proof fn lemma_texts_differ()
    ensures
        BufferError::BufferUnderflow.text() != BufferError::InvalidEncoding.text(),
{
    reveal_strlit("Buffer underflow");
    reveal_strlit("Invalid UTF-8 string");
    assert(BufferError::InvalidEncoding.text().len() == 20);
}

} // verus!
