use p2p_handshake::bytes::{get_u32_from_byte_array, get_u64_from_byte_array};
use p2p_handshake::error::HandshakeError;
use p2p_handshake::hash::calculate_checksum;

#[test]
fn u32_is_read_little_endian_and_consumed() {
    let mut buf = [0x78u8, 0x56, 0x34, 0x12, 0xaa, 0xbb];
    assert_eq!(get_u32_from_byte_array(&mut buf), Ok(0x1234_5678));
    assert_eq!(buf, [0xaa, 0xbb, 0x34, 0x12, 0xaa, 0xbb]);
}

#[test]
fn u32_needs_four_bytes() {
    let mut buf = [1u8, 2, 3];
    assert_eq!(get_u32_from_byte_array(&mut buf), Err(HandshakeError::TruncatedInput));
    assert_eq!(buf, [1, 2, 3]);
}

#[test]
fn u64_is_read_from_the_leading_bytes() {
    let mut buf = [1u8, 2, 3, 4, 5, 6, 7, 8, 9, 10, 11, 12, 13, 14, 15, 16];
    assert_eq!(get_u64_from_byte_array(&mut buf), Ok(0x0807_0605_0403_0201));
    assert_eq!(buf, [9, 10, 11, 12, 13, 14, 15, 16, 9, 10, 11, 12, 13, 14, 15, 16]);
}

#[test]
fn u64_needs_eight_bytes() {
    let mut buf = [0u8; 7];
    assert_eq!(get_u64_from_byte_array(&mut buf), Err(HandshakeError::TruncatedInput));
}

#[test]
fn checksum_of_the_empty_payload() {
    assert_eq!(calculate_checksum(&[]), [0x5d, 0xf6, 0xe0, 0xe2]);
}
