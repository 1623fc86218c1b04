use p2p_handshake::envelope::{decode_envelope, encode_envelope, MAGIC_VALUE, VERSION_CMD};
use p2p_handshake::error::{ErrorClass, HandshakeError};
use p2p_handshake::version::{
    parse_ack, receive_verack_message, receive_version_message, send_verack_message,
    send_version_message, AckCommand, Endpoint, NetAddr, VersionPayload,
};

fn peer() -> Option<Endpoint> {
    Some(Endpoint::V4 { ip: [13, 247, 54, 166], port: 8333 })
}

fn local() -> Option<Endpoint> {
    Some(Endpoint::V4 { ip: [192, 168, 1, 7], port: 50001 })
}

fn sample_payload(nonce: u64) -> Vec<u8> {
    let payload = VersionPayload {
        protocol_version: 70016,
        services: 0x0409,
        timestamp: 1_700_000_000,
        receiver_addr: NetAddr::from_ipv4(0, [192, 168, 1, 7], 50001),
        sender_addr: NetAddr::from_ipv4(0x0409, [13, 247, 54, 166], 8333),
        nonce,
        user_agent: b"/Satoshi:25.0.0/".to_vec(),
        start_height: 820_000,
        relay: true,
    };
    payload.encode()
}

#[test]
fn version_message_has_the_expected_bytes() {
    let message = send_version_message(
        &MAGIC_VALUE,
        peer(),
        local(),
        Some(0x0000_0000_6553_f100),
        70015,
        0x1122_3344_5566_7788,
        0,
    )
    .unwrap();
    let envelope = decode_envelope(&message).unwrap();
    assert_eq!(envelope.magic, MAGIC_VALUE);
    assert_eq!(envelope.command, VERSION_CMD);
    assert_eq!(envelope.length, 86);
    let mut expected: Vec<u8> = Vec::new();
    expected.extend_from_slice(&[0x7f, 0x11, 0x01, 0x00]);
    expected.extend_from_slice(&[0; 8]);
    expected.extend_from_slice(&[0x00, 0xf1, 0x53, 0x65, 0, 0, 0, 0]);
    expected.extend_from_slice(&[0; 8]);
    expected.extend_from_slice(&[0, 0, 0, 0, 0, 0, 0, 0, 0, 0, 0xff, 0xff, 13, 247, 54, 166]);
    expected.extend_from_slice(&[0x20, 0x8d]);
    expected.extend_from_slice(&[0; 8]);
    expected.extend_from_slice(&[0, 0, 0, 0, 0, 0, 0, 0, 0, 0, 0xff, 0xff, 192, 168, 1, 7]);
    expected.extend_from_slice(&[0xc3, 0x51]);
    expected.extend_from_slice(&[0x88, 0x77, 0x66, 0x55, 0x44, 0x33, 0x22, 0x11]);
    expected.push(0);
    expected.extend_from_slice(&[0, 0, 0, 0]);
    expected.push(0);
    assert_eq!(envelope.payload, expected);
}

#[test]
fn version_message_needs_a_clock() {
    let r = send_version_message(&MAGIC_VALUE, peer(), local(), None, 70015, 1, 0);
    assert_eq!(r, Err(HandshakeError::ClockError));
    let r = send_version_message(&MAGIC_VALUE, None, None, None, 70015, 1, 0);
    assert_eq!(r, Err(HandshakeError::ClockError));
}

#[test]
fn version_message_needs_ipv4_endpoints() {
    let v6 = Some(Endpoint::V6 { ip: [0; 16], port: 8333 });
    for (p, l) in [(None, local()), (peer(), None), (v6, local()), (peer(), v6)] {
        let r = send_version_message(&MAGIC_VALUE, p, l, Some(1), 70015, 1, 0);
        assert_eq!(r, Err(HandshakeError::AddressUnavailable));
    }
    assert_eq!(HandshakeError::AddressUnavailable.class(), ErrorClass::Transport);
}

#[test]
fn negative_fields_are_twos_complement() {
    let message =
        send_version_message(&MAGIC_VALUE, peer(), local(), Some(-2), -1, 5, i32::MIN).unwrap();
    let envelope = decode_envelope(&message).unwrap();
    assert_eq!(&envelope.payload[0..4], &[0xff, 0xff, 0xff, 0xff]);
    assert_eq!(&envelope.payload[12..20], &[0xfe, 0xff, 0xff, 0xff, 0xff, 0xff, 0xff, 0xff]);
    assert_eq!(&envelope.payload[81..85], &[0, 0, 0, 0x80]);
    assert_eq!(receive_version_message(&message, 6), Ok(-1));
}

#[test]
fn payload_with_a_user_agent() {
    let bytes = sample_payload(77);
    assert_eq!(bytes.len(), 85 + 1 + 16);
    assert_eq!(&bytes[0..4], &70016i32.to_le_bytes());
    assert_eq!(&bytes[4..12], &0x0409u64.to_le_bytes());
    assert_eq!(&bytes[44..46], &50001u16.to_be_bytes());
    assert_eq!(&bytes[72..80], &77u64.to_le_bytes());
    assert_eq!(bytes[80], 16);
    assert_eq!(&bytes[81..97], b"/Satoshi:25.0.0/");
    assert_eq!(&bytes[97..101], &820_000i32.to_le_bytes());
    assert_eq!(bytes[101], 1);
}

#[test]
fn long_user_agent_has_a_three_byte_prefix() {
    let payload = VersionPayload {
        protocol_version: 1,
        services: 0,
        timestamp: 0,
        receiver_addr: NetAddr::from_ipv4(0, [1, 2, 3, 4], 1),
        sender_addr: NetAddr::from_ipv4(0, [1, 2, 3, 4], 1),
        nonce: 0,
        user_agent: vec![b'a'; 300],
        start_height: 0,
        relay: false,
    };
    let bytes = payload.encode();
    assert_eq!(&bytes[80..83], &[0xfd, 0x2c, 0x01]);
    assert_eq!(bytes.len(), 85 + 3 + 300);
}

#[test]
fn peer_version_is_read() {
    let message = encode_envelope(&MAGIC_VALUE, &VERSION_CMD, &sample_payload(77));
    assert_eq!(receive_version_message(&message, 78), Ok(70016));
}

#[test]
fn own_nonce_is_a_self_connection() {
    for nonce in [0u64, 1, 77, u64::MAX, 0x8000_0000_0000_0000] {
        let message = encode_envelope(&MAGIC_VALUE, &VERSION_CMD, &sample_payload(nonce));
        assert_eq!(receive_version_message(&message, nonce), Err(HandshakeError::SelfConnection));
    }
    assert_eq!(HandshakeError::SelfConnection.class(), ErrorClass::ProtocolViolation);
}

#[test]
fn short_version_message() {
    let message = encode_envelope(&MAGIC_VALUE, &VERSION_CMD, &sample_payload(77));
    assert_eq!(receive_version_message(&[], 1), Err(HandshakeError::InvalidVersion));
    assert_eq!(receive_version_message(&message[..27], 1), Err(HandshakeError::InvalidVersion));
    assert_eq!(receive_version_message(&message[..28], 1), Err(HandshakeError::InvalidNonce));
    assert_eq!(receive_version_message(&message[..103], 1), Err(HandshakeError::InvalidNonce));
    assert_eq!(receive_version_message(&message[..104], 1), Ok(70016));
}

#[test]
fn verack_message_is_an_empty_envelope() {
    let message = send_verack_message(&MAGIC_VALUE);
    let envelope = decode_envelope(&message).unwrap();
    assert_eq!(&envelope.command, b"verack\0\0\0\0\0\0");
    assert_eq!(envelope.length, 0);
}

fn ack_bytes(field: &[u8; 12]) -> Vec<u8> {
    let mut bytes = vec![0xf9, 0xbe, 0xb4, 0xd9, b's', b'e', b'n', b'd'];
    bytes.extend_from_slice(field);
    bytes.extend_from_slice(&[0, 0, 0, 0]);
    bytes
}

#[test]
fn accepted_acknowledgements() {
    assert_eq!(receive_verack_message(&ack_bytes(b"verack\0\0\0\0\0\0")), Ok("verack".to_string()));
    assert_eq!(
        receive_verack_message(&ack_bytes(b"sendcmpct\0\0\0")),
        Ok("sendcmpct".to_string())
    );
    assert_eq!(
        receive_verack_message(&ack_bytes(b"sendheaders\0")),
        Ok("sendheaders".to_string())
    );
    assert_eq!(parse_ack(&ack_bytes(b"verack\0\0\0\0\0\0")), Ok(AckCommand::Verack));
    assert_eq!(parse_ack(&ack_bytes(b"sendcmpct\0\0\0")), Ok(AckCommand::SendCmpct));
    assert_eq!(parse_ack(&ack_bytes(b"sendheaders\0")), Ok(AckCommand::SendHeaders));
}

#[test]
fn other_commands_are_unexpected() {
    for field in [b"version\0\0\0\0\0", b"verac\0\0\0\0\0\0\0", b"verackk\0\0\0\0\0", &[0u8; 12]] {
        assert_eq!(receive_verack_message(&ack_bytes(field)), Err(HandshakeError::UnexpectedCommand));
    }
    assert_eq!(HandshakeError::UnexpectedCommand.class(), ErrorClass::ProtocolViolation);
}

#[test]
fn unreadable_acknowledgements() {
    assert_eq!(receive_verack_message(&[]), Err(HandshakeError::InvalidCommandEncoding));
    let bytes = ack_bytes(b"verack\0\0\0\0\0\0");
    assert_eq!(receive_verack_message(&bytes[..19]), Err(HandshakeError::InvalidCommandEncoding));
    assert_eq!(receive_verack_message(&bytes[..20]), Ok("verack".to_string()));
    let mut field = *b"verack\0\0\0\0\0\0";
    field[0] = 0xff;
    assert_eq!(receive_verack_message(&ack_bytes(&field)), Err(HandshakeError::InvalidCommandEncoding));
    assert_eq!(
        receive_verack_message(&ack_bytes(b"verack\0\0\0\0\0x")),
        Err(HandshakeError::NonNulPadding)
    );
}

fn sample(user_agent: Vec<u8>, relay: bool) -> VersionPayload {
    VersionPayload {
        protocol_version: -70016,
        services: 0x0102_0304_0506_0708,
        timestamp: -5,
        receiver_addr: NetAddr { services: 9, ip: [0xab; 16], port: 0x1234 },
        sender_addr: NetAddr::from_ipv4(1, [127, 0, 0, 1], 8333),
        nonce: 0xfeed_face_cafe_beef,
        user_agent,
        start_height: i32::MAX,
        relay,
    }
}

fn assert_same_payload(a: &VersionPayload, b: &VersionPayload) {
    assert_eq!(a.protocol_version, b.protocol_version);
    assert_eq!(a.services, b.services);
    assert_eq!(a.timestamp, b.timestamp);
    assert_eq!(a.receiver_addr, b.receiver_addr);
    assert_eq!(a.sender_addr, b.sender_addr);
    assert_eq!(a.nonce, b.nonce);
    assert_eq!(a.user_agent, b.user_agent);
    assert_eq!(a.start_height, b.start_height);
    assert_eq!(a.relay, b.relay);
}

#[test]
fn version_payload_round_trip() {
    for len in [0usize, 1, 16, 252, 253, 300, 0xffff, 0x1_0000] {
        for relay in [false, true] {
            let payload = sample(vec![b'u'; len], relay);
            let decoded = VersionPayload::decode(&payload.encode()).unwrap();
            assert_same_payload(&payload, &decoded);
        }
    }
}

#[test]
fn version_payload_of_known_bytes() {
    let mut bytes: Vec<u8> = Vec::new();
    bytes.extend_from_slice(&[0x7f, 0x11, 0x01, 0x00]);
    bytes.extend_from_slice(&[0x09, 0x04, 0, 0, 0, 0, 0, 0]);
    bytes.extend_from_slice(&[0x00, 0xf1, 0x53, 0x65, 0, 0, 0, 0]);
    bytes.extend_from_slice(&[1, 0, 0, 0, 0, 0, 0, 0]);
    bytes.extend_from_slice(&[0, 0, 0, 0, 0, 0, 0, 0, 0, 0, 0xff, 0xff, 10, 0, 0, 1]);
    bytes.extend_from_slice(&[0x20, 0x8d]);
    bytes.extend_from_slice(&[0; 26]);
    bytes.extend_from_slice(&[1, 2, 3, 4, 5, 6, 7, 8]);
    bytes.extend_from_slice(&[3, b'a', b'b', b'c']);
    bytes.extend_from_slice(&[0x40, 0x42, 0x0f, 0x00]);
    bytes.push(2);
    bytes.extend_from_slice(&[0xee; 7]);
    let p = VersionPayload::decode(&bytes).unwrap();
    assert_eq!(p.protocol_version, 70015);
    assert_eq!(p.services, 0x0409);
    assert_eq!(p.timestamp, 0x6553_f100);
    assert_eq!(p.receiver_addr, NetAddr::from_ipv4(1, [10, 0, 0, 1], 8333));
    assert_eq!(p.sender_addr, NetAddr { services: 0, ip: [0; 16], port: 0 });
    assert_eq!(p.nonce, 0x0807_0605_0403_0201);
    assert_eq!(p.user_agent, b"abc".to_vec());
    assert_eq!(p.start_height, 1_000_000);
    assert!(p.relay);
}

#[test]
fn truncated_version_payload() {
    let bytes = sample(b"agent".to_vec(), true).encode();
    for n in 0..bytes.len() {
        assert_eq!(
            VersionPayload::decode(&bytes[..n]).unwrap_err(),
            HandshakeError::TruncatedInput
        );
    }
    let long = sample(vec![b'u'; 300], true).encode();
    assert_eq!(VersionPayload::decode(&long[..82]).unwrap_err(), HandshakeError::TruncatedInput);
    let mut huge = bytes[..80].to_vec();
    huge.push(0xff);
    huge.extend_from_slice(&[0xff; 8]);
    huge.extend_from_slice(&[0; 20]);
    assert_eq!(VersionPayload::decode(&huge).unwrap_err(), HandshakeError::TruncatedInput);
    assert_eq!(HandshakeError::TruncatedInput.class(), ErrorClass::MalformedMessage);
}

#[test]
fn version_message_decodes_to_what_was_announced() {
    let message =
        send_version_message(&MAGIC_VALUE, peer(), local(), Some(99), 70015, 12345, 7).unwrap();
    let envelope = decode_envelope(&message).unwrap();
    let p = VersionPayload::decode(&envelope.payload).unwrap();
    assert_eq!(p.protocol_version, 70015);
    assert_eq!(p.services, 0);
    assert_eq!(p.timestamp, 99);
    assert_eq!(p.receiver_addr, NetAddr::from_ipv4(0, [13, 247, 54, 166], 8333));
    assert_eq!(p.sender_addr, NetAddr::from_ipv4(0, [192, 168, 1, 7], 50001));
    assert_eq!(p.nonce, 12345);
    assert!(p.user_agent.is_empty());
    assert_eq!(p.start_height, 7);
    assert!(!p.relay);
}
