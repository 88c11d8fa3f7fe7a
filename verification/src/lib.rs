//! A growable byte buffer with a single read/write cursor.
//!
//! Values are stored little-endian; strings are stored as a signed 32-bit
//! length followed by their UTF-8 bytes. Every operation is specified over
//! [`BufferView`], the byte sequence and cursor that a [`ByteBuffer`] stands
//! for.

pub mod buffer;
pub mod endian;
pub mod error;
pub mod hex;
pub mod laws;
pub mod model;
pub mod text;

pub use buffer::ByteBuffer;
pub use error::BufferError;
pub use model::BufferView;
