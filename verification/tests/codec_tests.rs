use spl_tool::codec::{deserialize, serialize};
use spl_tool::header::{HeaderError, UBootSPLHeader, HEADER_SIZE};

fn sample_header() -> UBootSPLHeader {
    let mut h = UBootSPLHeader::create(0xAABBCCDD, 0x11223344);
    h.file_size = 0x01020304;
    h.crc32 = 0xDEADBEEF;
    h.reserved_a[0] = 0x55;
    h.reserved_a[635] = 0x66;
    h.reserved_c[0] = 0x77;
    h.reserved_c[363] = 0x88;
    h
}

#[test]
fn new_header_is_zero_initialized() {
    let h = UBootSPLHeader::new();
    assert_eq!(h.spl_offset, 0x240);
    assert_eq!(h.backup_offset, 0);
    assert_eq!(h.version, 0);
    assert_eq!(h.file_size, 0);
    assert_eq!(h.reserved_b, 0x400);
    assert_eq!(h.crc32, 0);
    assert_eq!(h.reserved_a, vec![0u8; 636]);
    assert_eq!(h.reserved_c, vec![0u8; 364]);
}

#[test]
fn create_sets_version_and_backup_offset() {
    let h = UBootSPLHeader::create(0x01010101, 0x200000);
    assert_eq!(h.version, 0x01010101);
    assert_eq!(h.backup_offset, 0x200000);
    assert_eq!(h.spl_offset, 0x240);
    assert_eq!(h.reserved_b, 0x400);
    assert_eq!(h.file_size, 0);
    assert_eq!(h.crc32, 0);
}

#[test]
fn serialize_is_exactly_1024_bytes() {
    assert_eq!(serialize(&UBootSPLHeader::new()).len(), HEADER_SIZE);
    assert_eq!(serialize(&sample_header()).len(), HEADER_SIZE);
}

#[test]
fn serialize_layout_is_little_endian_at_fixed_offsets() {
    let b = serialize(&sample_header());
    assert_eq!(&b[0..4], &[0x40, 0x02, 0x00, 0x00]);
    assert_eq!(&b[4..8], &[0x44, 0x33, 0x22, 0x11]);
    assert_eq!(b[8], 0x55);
    assert_eq!(b[643], 0x66);
    assert_eq!(&b[644..648], &[0xDD, 0xCC, 0xBB, 0xAA]);
    assert_eq!(&b[648..652], &[0x04, 0x03, 0x02, 0x01]);
    assert_eq!(&b[652..656], &[0x00, 0x04, 0x00, 0x00]);
    assert_eq!(&b[656..660], &[0xEF, 0xBE, 0xAD, 0xDE]);
    assert_eq!(b[660], 0x77);
    assert_eq!(b[1023], 0x88);
}

#[test]
fn round_trip_preserves_every_field() {
    let h = sample_header();
    let bytes = serialize(&h);
    let h2 = deserialize(&bytes).unwrap();
    assert_eq!(h2.spl_offset, h.spl_offset);
    assert_eq!(h2.backup_offset, h.backup_offset);
    assert_eq!(h2.reserved_a, h.reserved_a);
    assert_eq!(h2.version, h.version);
    assert_eq!(h2.file_size, h.file_size);
    assert_eq!(h2.reserved_b, h.reserved_b);
    assert_eq!(h2.crc32, h.crc32);
    assert_eq!(h2.reserved_c, h.reserved_c);
}

#[test]
fn deserialize_rejects_short_input() {
    let bytes = vec![0u8; HEADER_SIZE - 1];
    assert_eq!(deserialize(&bytes).unwrap_err(), HeaderError::MalformedHeader);
    let empty: Vec<u8> = Vec::new();
    assert_eq!(deserialize(&empty).unwrap_err(), HeaderError::MalformedHeader);
}

#[test]
fn deserialize_accepts_any_bit_pattern() {
    let bytes = vec![0xFFu8; HEADER_SIZE];
    let h = deserialize(&bytes).unwrap();
    assert_eq!(h.spl_offset, 0xFFFFFFFF);
    assert_eq!(h.backup_offset, 0xFFFFFFFF);
    assert_eq!(h.version, 0xFFFFFFFF);
    assert_eq!(h.file_size, 0xFFFFFFFF);
    assert_eq!(h.reserved_b, 0xFFFFFFFF);
    assert_eq!(h.crc32, 0xFFFFFFFF);
    assert_eq!(h.reserved_a, vec![0xFFu8; 636]);
    assert_eq!(h.reserved_c, vec![0xFFu8; 364]);
}

#[test]
fn deserialize_ignores_bytes_past_the_header() {
    let h = sample_header();
    let mut bytes = serialize(&h);
    bytes.extend_from_slice(&[9u8, 8, 7, 6]);
    let h2 = deserialize(&bytes).unwrap();
    assert_eq!(h2.version, h.version);
    assert_eq!(h2.crc32, h.crc32);
}
