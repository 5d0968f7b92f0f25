use rodbus::cursor::WriteCursor;
use rodbus::types::AddressRange;

#[test]
fn serializes_address_range() {
    let range = AddressRange::new(3, 512);
    let mut cursor = WriteCursor::new(4);
    range.serialize(&mut cursor).unwrap();
    assert_eq!(cursor.written(4), vec![0x00, 0x03, 0x02, 0x00]);
}

#[test]
fn serialize_fails_rather_than_truncating() {
    let range = AddressRange::new(3, 512);
    let mut cursor = WriteCursor::new(3);
    assert!(range.serialize(&mut cursor).is_err());
}

#[test]
fn cursor_rejects_bad_seeks() {
    let mut cursor = WriteCursor::new(4);
    assert!(cursor.seek_from_start(5).is_err());
    assert!(cursor.seek_from_start(4).is_ok());
    assert!(cursor.seek_from_current(1).is_err());
    assert_eq!(cursor.position(), 4);
    assert_eq!(cursor.remaining(), 0);
}

#[test]
fn cursor_backfills_after_seek() {
    let mut cursor = WriteCursor::new(4);
    cursor.write_u16_be(0).unwrap();
    cursor.write_u16_be(0xBEEF).unwrap();
    cursor.seek_from_start(0).unwrap();
    cursor.write_u16_be(0xDEAD).unwrap();
    assert_eq!(cursor.written(4), vec![0xDE, 0xAD, 0xBE, 0xEF]);
}

#[test]
fn cursor_writes_slices() {
    let mut cursor = WriteCursor::new(4);
    cursor.write_u8(0x01).unwrap();
    cursor.write_slice(&[0x02, 0x03]).unwrap();
    assert!(cursor.write_slice(&[0x04, 0x05]).is_err());
    cursor.write_slice(&[0x04]).unwrap();
    assert_eq!(cursor.written(4), vec![0x01, 0x02, 0x03, 0x04]);
}
