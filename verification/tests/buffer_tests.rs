use rodbus::buffer::ReadBuffer;
use rodbus::error::InternalError;

#[test]
fn errors_when_reading_to_many_bytes() {
    let mut buffer = ReadBuffer::new(10);
    assert_eq!(
        buffer.read_u8(),
        Err(InternalError::InsufficientBytesForRead(1, 0))
    );
    assert_eq!(
        buffer.read(1),
        Err(InternalError::InsufficientBytesForRead(1, 0))
    );
}

#[test]
fn shifts_contents_when_buffer_at_capacity() {
    let mut buffer = ReadBuffer::new(3);

    assert_eq!(buffer.append(&[0x01, 0x02, 0x03]), 3);
    assert_eq!(buffer.read(2).unwrap(), &[0x01, 0x02]);

    // the tail is full but two slots are free at the head: the unread byte
    // moves to the front
    assert_eq!(buffer.append(&[0x04, 0x05]), 2);
    assert_eq!(buffer.read(3).unwrap(), &[0x03, 0x04, 0x05]);
}

#[test]
fn reads_typed_values_big_endian() {
    let mut buffer = ReadBuffer::new(8);
    buffer.append(&[0x12, 0x34, 0x56]);
    assert_eq!(buffer.len(), 3);
    assert!(!buffer.is_empty());
    assert_eq!(buffer.read_u16_be(), Ok(0x1234));
    assert_eq!(buffer.read_u8(), Ok(0x56));
    assert!(buffer.is_empty());
}
