use process_memory::value::{decode_u32, encode_u32, VALUE_SIZE};

#[test]
fn encode_is_little_endian() {
    assert_eq!(encode_u32(42), vec![0x2A, 0, 0, 0]);
    assert_eq!(encode_u32(0x12345678), vec![0x78, 0x56, 0x34, 0x12]);
    assert_eq!(encode_u32(u32::MAX), vec![0xFF, 0xFF, 0xFF, 0xFF]);
    assert_eq!(encode_u32(0).len(), VALUE_SIZE);
}

#[test]
fn decode_is_little_endian() {
    assert_eq!(decode_u32(&[0x2A, 0, 0, 0]), Some(42));
    assert_eq!(decode_u32(&[0x78, 0x56, 0x34, 0x12]), Some(0x12345678));
    assert_eq!(decode_u32(&[0xFF, 0xFF, 0xFF, 0xFF]), Some(u32::MAX));
}

#[test]
fn decode_needs_four_bytes() {
    assert_eq!(decode_u32(&[]), None);
    assert_eq!(decode_u32(&[1, 2, 3]), None);
    assert_eq!(decode_u32(&[1, 2, 3, 4, 5]), None);
}

#[test]
fn value_round_trip() {
    for v in [0u32, 1, 42, 255, 256, 65535, 0x01000000, 0xDEADBEEF, u32::MAX] {
        assert_eq!(decode_u32(&encode_u32(v)), Some(v));
    }
}
