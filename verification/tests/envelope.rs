use p2p_handshake::envelope::{
    command_name, decode_envelope, encode_envelope, HEADER_LEN, MAGIC_VALUE, VERACK_CMD,
    VERSION_CMD,
};
use p2p_handshake::error::{ErrorClass, HandshakeError};
use p2p_handshake::hash::calculate_checksum;

#[test]
fn verack_envelope_has_the_known_bytes() {
    let bytes = encode_envelope(&MAGIC_VALUE, &VERACK_CMD, &[]);
    let expected: Vec<u8> = vec![
        0xf9, 0xbe, 0xb4, 0xd9, b'v', b'e', b'r', b'a', b'c', b'k', 0, 0, 0, 0, 0, 0, 0, 0, 0, 0,
        0x5d, 0xf6, 0xe0, 0xe2,
    ];
    assert_eq!(bytes, expected);
    assert_eq!(bytes.len(), HEADER_LEN);
}

#[test]
fn envelope_round_trip() {
    let payload: Vec<u8> = (0u8..=200).collect();
    let bytes = encode_envelope(&MAGIC_VALUE, &VERSION_CMD, &payload);
    assert_eq!(&bytes[16..20], &[201, 0, 0, 0]);
    let envelope = decode_envelope(&bytes).unwrap();
    assert_eq!(envelope.magic, MAGIC_VALUE);
    assert_eq!(envelope.command, VERSION_CMD);
    assert_eq!(envelope.length, 201);
    assert_eq!(envelope.checksum, calculate_checksum(&payload));
    assert_eq!(envelope.payload, payload);
}

#[test]
fn envelope_round_trip_of_the_empty_payload() {
    let bytes = encode_envelope(&[1, 2, 3, 4], &[7; 12], &[]);
    let envelope = decode_envelope(&bytes).unwrap();
    assert_eq!(envelope.magic, [1, 2, 3, 4]);
    assert_eq!(envelope.command, [7; 12]);
    assert_eq!(envelope.length, 0);
    assert!(envelope.payload.is_empty());
}

#[test]
fn bytes_after_the_payload_are_ignored() {
    let mut bytes = encode_envelope(&MAGIC_VALUE, &VERSION_CMD, &[9, 8, 7]);
    bytes.extend_from_slice(&[1, 1, 1, 1]);
    let envelope = decode_envelope(&bytes).unwrap();
    assert_eq!(envelope.payload, vec![9, 8, 7]);
}

#[test]
fn truncated_header_is_malformed() {
    let bytes = encode_envelope(&MAGIC_VALUE, &VERACK_CMD, &[]);
    for n in 0..HEADER_LEN {
        let r = decode_envelope(&bytes[..n]);
        assert_eq!(r.unwrap_err(), HandshakeError::MalformedEnvelope);
    }
    assert_eq!(HandshakeError::MalformedEnvelope.class(), ErrorClass::MalformedMessage);
}

#[test]
fn truncated_payload_is_malformed() {
    let bytes = encode_envelope(&MAGIC_VALUE, &VERSION_CMD, &[1, 2, 3, 4, 5]);
    let r = decode_envelope(&bytes[..bytes.len() - 1]);
    assert_eq!(r.unwrap_err(), HandshakeError::MalformedEnvelope);
}

#[test]
fn flipped_payload_bit_is_rejected() {
    let mut bytes = encode_envelope(&MAGIC_VALUE, &VERSION_CMD, &[1, 2, 3, 4, 5]);
    bytes[HEADER_LEN + 2] ^= 0x10;
    assert_eq!(decode_envelope(&bytes).unwrap_err(), HandshakeError::ChecksumMismatch);
}

#[test]
fn flipped_checksum_bit_is_rejected() {
    let mut bytes = encode_envelope(&MAGIC_VALUE, &VERSION_CMD, &[1, 2, 3, 4, 5]);
    bytes[21] ^= 0x01;
    assert_eq!(decode_envelope(&bytes).unwrap_err(), HandshakeError::ChecksumMismatch);
}

#[test]
fn checksum_changes_with_one_bit() {
    assert_ne!(calculate_checksum(&[0, 0, 0, 0]), calculate_checksum(&[0, 0, 1, 0]));
    assert_eq!(calculate_checksum(b"hello"), [0x95, 0x95, 0xc9, 0xdf]);
}

#[test]
fn command_names() {
    assert_eq!(command_name(&VERSION_CMD), Ok(b"version".to_vec()));
    assert_eq!(command_name(&VERACK_CMD), Ok(b"verack".to_vec()));
    assert_eq!(command_name(&[0; 12]), Ok(Vec::new()));
    assert_eq!(command_name(b"sendheaders\0"), Ok(b"sendheaders".to_vec()));
    assert_eq!(command_name(b"twelve_bytes"), Ok(b"twelve_bytes".to_vec()));
}

#[test]
fn command_with_bytes_after_the_padding() {
    assert_eq!(command_name(b"ver\0ack\0\0\0\0\0"), Err(HandshakeError::NonNulPadding));
    assert_eq!(HandshakeError::NonNulPadding.class(), ErrorClass::ProtocolViolation);
}

#[test]
fn command_that_is_not_ascii() {
    let mut field = VERACK_CMD;
    field[2] = 0xc3;
    assert_eq!(command_name(&field), Err(HandshakeError::InvalidCommandEncoding));
    let mut padded = VERACK_CMD;
    padded[11] = 0x80;
    assert_eq!(command_name(&padded), Err(HandshakeError::InvalidCommandEncoding));
}

#[test]
fn every_failure_has_its_family() {
    let transport = [
        HandshakeError::ConnectFailure,
        HandshakeError::ReadFailure,
        HandshakeError::WriteFailure,
        HandshakeError::Timeout,
        HandshakeError::AddressUnavailable,
        HandshakeError::ClockError,
        HandshakeError::UnexpectedEvent,
    ];
    let malformed = [
        HandshakeError::TruncatedInput,
        HandshakeError::MalformedEnvelope,
        HandshakeError::ChecksumMismatch,
        HandshakeError::InvalidVersion,
        HandshakeError::InvalidNonce,
        HandshakeError::InvalidCommandEncoding,
        HandshakeError::InvalidStructuredEncoding,
        HandshakeError::MessageTooLong,
        HandshakeError::FrameTooShort,
        HandshakeError::MacMismatch,
    ];
    let violation = [
        HandshakeError::SelfConnection,
        HandshakeError::UnexpectedCommand,
        HandshakeError::NonNulPadding,
    ];
    let crypto = [
        HandshakeError::InvalidPublicKey,
        HandshakeError::DecryptionFailure,
        HandshakeError::DerivationFailure,
    ];
    assert!(transport.iter().all(|e| e.class() == ErrorClass::Transport));
    assert!(malformed.iter().all(|e| e.class() == ErrorClass::MalformedMessage));
    assert!(violation.iter().all(|e| e.class() == ErrorClass::ProtocolViolation));
    assert!(crypto.iter().all(|e| e.class() == ErrorClass::CryptoFailure));
    let gone = HandshakeError::PeerDisconnected { reason: 8 };
    assert_eq!(gone.class(), ErrorClass::PeerDisconnected);
}
