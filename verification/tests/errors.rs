use bytebuffer::{BufferError, ByteBuffer};

fn underflow<T>() -> Result<T, String> {
    Err("Buffer underflow".to_string())
}

#[test]
fn messages_of_the_two_errors() {
    assert_eq!(BufferError::BufferUnderflow.message(), "Buffer underflow");
    assert_eq!(BufferError::InvalidEncoding.message(), "Invalid UTF-8 string");
    assert_ne!(BufferError::BufferUnderflow, BufferError::InvalidEncoding);
}

#[test]
fn every_read_underflows_on_an_empty_buffer() {
    let mut buffer = ByteBuffer::new(None);
    assert_eq!(buffer.get_int32(), underflow());
    assert_eq!(buffer.get_uint32(), underflow());
    assert_eq!(buffer.get_float(), underflow());
    assert_eq!(buffer.get_byte(), underflow());
    assert_eq!(buffer.get_bool(), underflow());
    assert_eq!(buffer.get_string(), underflow());
    assert_eq!(buffer.get_vector(), underflow());
    assert_eq!(buffer.get_rotator(), underflow());
    assert_eq!(buffer.position(), 0);
    assert_eq!(buffer.get_buffer(), &[] as &[u8]);
}

#[test]
fn four_byte_reads_underflow_on_three_bytes() {
    let mut buffer = ByteBuffer::new(Some(vec![1, 2, 3, 4, 5, 6, 7]));
    assert_eq!(buffer.get_int32(), Ok(0x0403_0201));
    assert_eq!(buffer.position(), 4);
    assert_eq!(buffer.get_int32(), underflow());
    assert_eq!(buffer.position(), 4);
    assert_eq!(buffer.get_uint32(), underflow());
    assert_eq!(buffer.position(), 4);
    assert_eq!(buffer.get_float(), underflow());
    assert_eq!(buffer.position(), 4);
    assert_eq!(buffer.get_buffer(), &[1, 2, 3, 4, 5, 6, 7]);
    assert_eq!(buffer.get_byte(), Ok(5));
}

#[test]
fn one_byte_reads_underflow_at_the_end() {
    let mut buffer = ByteBuffer::new(Some(vec![1]));
    assert_eq!(buffer.get_byte(), Ok(1));
    assert_eq!(buffer.get_byte(), underflow());
    assert_eq!(buffer.get_bool(), underflow());
    assert_eq!(buffer.position(), 1);
}

#[test]
fn read_of_exactly_the_remaining_bytes_succeeds() {
    let mut buffer = ByteBuffer::new(Some(vec![0, 1, 0, 0, 0]));
    assert!(buffer.seek(1));
    assert_eq!(buffer.get_uint32(), Ok(1));
    assert_eq!(buffer.position(), 5);
}

#[test]
fn vector_underflow_leaves_the_cursor() {
    let mut bytes = Vec::new();
    for _ in 0..11 {
        bytes.push(0x3f);
    }
    let mut buffer = ByteBuffer::new(Some(bytes));
    assert_eq!(buffer.get_vector(), underflow());
    assert_eq!(buffer.position(), 0);
    assert_eq!(buffer.get_rotator(), underflow());
    assert_eq!(buffer.position(), 0);
    assert!(buffer.seek(3));
    assert_eq!(buffer.get_vector(), underflow());
    assert_eq!(buffer.position(), 3);
    assert_eq!(buffer.get_float(), Ok(0x3f3f_3f3f));
}

#[test]
fn string_underflows_on_a_short_length() {
    let mut buffer = ByteBuffer::new(Some(vec![5, 0, 0]));
    assert_eq!(buffer.get_string(), underflow());
    assert_eq!(buffer.position(), 0);
}

#[test]
fn string_underflows_on_a_short_body() {
    let mut buffer = ByteBuffer::new(Some(vec![5, 0, 0, 0, b'a', b'b', b'c', b'd']));
    assert_eq!(buffer.get_string(), underflow());
    assert_eq!(buffer.position(), 0);
    assert_eq!(buffer.get_int32(), Ok(5));
}

#[test]
fn string_underflows_on_a_negative_length() {
    let mut buffer = ByteBuffer::new(Some(vec![0xff, 0xff, 0xff, 0xff, b'a', b'b']));
    assert_eq!(buffer.get_string(), underflow());
    assert_eq!(buffer.position(), 0);

    let mut buffer = ByteBuffer::new(Some(vec![0x00, 0x00, 0x00, 0x80, b'a', b'b']));
    assert_eq!(buffer.get_string(), underflow());
    assert_eq!(buffer.position(), 0);
}

#[test]
fn string_with_invalid_utf8_is_an_invalid_encoding() {
    let mut buffer = ByteBuffer::new(Some(vec![2, 0, 0, 0, 0xc3, 0x28]));
    assert_eq!(buffer.get_string(), Err("Invalid UTF-8 string".to_string()));
    assert_eq!(buffer.position(), 0);
    assert_eq!(buffer.get_buffer(), &[2, 0, 0, 0, 0xc3, 0x28]);
}

#[test]
fn string_rejects_malformed_utf8_of_every_sort() {
    let bodies: [&[u8]; 6] = [
        &[0x80],
        &[0xff],
        &[0xc0, 0x80],
        &[0xe2, 0x82],
        &[0xed, 0xa0, 0x80],
        &[0xf4, 0x90, 0x80, 0x80],
    ];
    for body in bodies {
        let mut bytes = vec![body.len() as u8, 0, 0, 0];
        bytes.extend_from_slice(body);
        let mut buffer = ByteBuffer::new(Some(bytes));
        assert_eq!(buffer.get_string(), Err(BufferError::InvalidEncoding.message()));
        assert_eq!(buffer.position(), 0);
    }
}

#[test]
fn buffer_stays_usable_after_a_failed_read() {
    let mut buffer = ByteBuffer::new(Some(vec![1, 2]));
    assert_eq!(buffer.get_int32(), underflow());
    assert_eq!(buffer.get_byte(), Ok(1));
    buffer.put_int32(3);
    assert_eq!(buffer.get_buffer(), &[1, 3, 0, 0, 0]);
    assert!(buffer.seek(1));
    assert_eq!(buffer.get_int32(), Ok(3));
}

#[test]
fn empty_string_needs_only_its_length() {
    let mut buffer = ByteBuffer::new(Some(vec![0, 0, 0, 0]));
    assert_eq!(buffer.get_string(), Ok(String::new()));
    assert_eq!(buffer.position(), 4);
}
