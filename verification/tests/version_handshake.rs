use p2p_handshake::envelope::{encode_envelope, MAGIC_VALUE, VERSION_CMD};
use p2p_handshake::error::HandshakeError;
use p2p_handshake::random::generate_nonce;
use p2p_handshake::version::{
    send_verack_message, send_version_message, AckCommand, Endpoint, NetAddr, VersionPayload,
};
use p2p_handshake::transport::{Action, Event};
use p2p_handshake::version_handshake::{
    advance, begin, begin_with_fresh_nonce, HandshakeState,
};

fn peer() -> Option<Endpoint> {
    Some(Endpoint::V4 { ip: [13, 247, 54, 166], port: 8333 })
}

fn local() -> Option<Endpoint> {
    Some(Endpoint::V4 { ip: [10, 0, 0, 2], port: 40000 })
}

fn peer_version_message(nonce: u64) -> Vec<u8> {
    let payload = VersionPayload {
        protocol_version: 70016,
        services: 1,
        timestamp: 1_700_000_000,
        receiver_addr: NetAddr::from_ipv4(0, [10, 0, 0, 2], 40000),
        sender_addr: NetAddr::from_ipv4(1, [13, 247, 54, 166], 8333),
        nonce,
        user_agent: Vec::new(),
        start_height: 1,
        relay: false,
    };
    encode_envelope(&MAGIC_VALUE, &VERSION_CMD, &payload.encode())
}

fn ack_bytes(name: &[u8]) -> Vec<u8> {
    let mut bytes = vec![0u8; 8];
    bytes.extend_from_slice(name);
    bytes.resize(24, 0);
    bytes
}

fn sent(action: &Action) -> Vec<u8> {
    match action {
        Action::Send(bytes) => bytes.clone(),
        other => panic!("expected bytes to send, got {:?}", other),
    }
}

#[test]
fn plaintext_handshake_happy_path() {
    let nonce = 42;
    let (h, action) = begin(MAGIC_VALUE, peer(), local(), Some(1_700_000_000), 70015, nonce, 0);
    assert_eq!(h.state(), HandshakeState::Connected);
    let expected =
        send_version_message(&MAGIC_VALUE, peer(), local(), Some(1_700_000_000), 70015, 42, 0);
    assert_eq!(sent(&action), expected.unwrap());

    let (h, action) = advance(h, Event::Written);
    assert_eq!(h.state(), HandshakeState::VersionSent);
    assert!(matches!(action, Action::Receive));

    let (h, action) = advance(h, Event::Received(peer_version_message(43)));
    assert_eq!(h.state(), HandshakeState::VersionReceived);
    assert_eq!(h.peer_version(), Some(70016));
    assert_eq!(sent(&action), send_verack_message(&MAGIC_VALUE));

    let (h, action) = advance(h, Event::Written);
    assert_eq!(h.state(), HandshakeState::VerackSent);
    assert!(matches!(action, Action::Receive));

    let (h, action) = advance(h, Event::Received(ack_bytes(b"verack")));
    assert_eq!(h.state(), HandshakeState::VerackReceived);
    assert!(matches!(action, Action::Close));
    assert!(h.finished());
    assert_eq!(h.outcome(), Some(Ok(AckCommand::Verack)));
    assert_eq!(h.failure(), None);
}

#[test]
fn plaintext_handshake_self_nonce() {
    let nonce = generate_nonce();
    let (h, _) = begin(MAGIC_VALUE, peer(), local(), Some(1_700_000_000), 70015, nonce, 0);
    let (h, _) = advance(h, Event::Written);
    let (h, action) = advance(h, Event::Received(peer_version_message(nonce)));
    assert_eq!(h.state(), HandshakeState::Failed);
    assert_eq!(h.failure(), Some(HandshakeError::SelfConnection));
    assert!(matches!(action, Action::Close));
    assert_eq!(h.outcome(), Some(Err(HandshakeError::SelfConnection)));

    let (h, action) = advance(h, Event::Written);
    assert_eq!(h.state(), HandshakeState::Failed);
    assert_eq!(h.failure(), Some(HandshakeError::SelfConnection));
    assert!(matches!(action, Action::Close));
}

#[test]
fn handshake_cannot_begin_without_addresses() {
    let (h, action) = begin(MAGIC_VALUE, None, local(), Some(1), 70015, 1, 0);
    assert_eq!(h.state(), HandshakeState::Failed);
    assert_eq!(h.failure(), Some(HandshakeError::AddressUnavailable));
    assert!(matches!(action, Action::Close));
    let (h, _) = begin(MAGIC_VALUE, peer(), local(), None, 70015, 1, 0);
    assert_eq!(h.failure(), Some(HandshakeError::ClockError));
}

#[test]
fn transport_failures_end_the_handshake() {
    let start = || begin(MAGIC_VALUE, peer(), local(), Some(1), 70015, 1, 0).0;
    let (h, action) = advance(start(), Event::WriteFailed);
    assert_eq!(h.failure(), Some(HandshakeError::WriteFailure));
    assert!(matches!(action, Action::Close));

    let (h, _) = advance(start(), Event::Written);
    let (h, _) = advance(h, Event::ReadFailed);
    assert_eq!(h.failure(), Some(HandshakeError::ReadFailure));

    let (h, _) = advance(start(), Event::Written);
    let (h, _) = advance(h, Event::TimedOut);
    assert_eq!(h.failure(), Some(HandshakeError::Timeout));

    let (h, _) = advance(start(), Event::Written);
    let (h, _) = advance(h, Event::Received(peer_version_message(2)));
    let (h, _) = advance(h, Event::WriteFailed);
    assert_eq!(h.failure(), Some(HandshakeError::WriteFailure));
    assert_eq!(h.outcome(), Some(Err(HandshakeError::WriteFailure)));
}

#[test]
fn events_out_of_order_end_the_handshake() {
    let start = || begin(MAGIC_VALUE, peer(), local(), Some(1), 70015, 1, 0).0;
    let (h, action) = advance(start(), Event::Received(peer_version_message(2)));
    assert_eq!(h.failure(), Some(HandshakeError::UnexpectedEvent));
    assert!(matches!(action, Action::Close));
    let (h, _) = advance(start(), Event::Written);
    let (h, _) = advance(h, Event::Written);
    assert_eq!(h.failure(), Some(HandshakeError::UnexpectedEvent));
    assert_eq!(start().outcome(), None);
}

#[test]
fn unexpected_acknowledgement_fails() {
    let (h, _) = begin(MAGIC_VALUE, peer(), local(), Some(1), 70015, 1, 0);
    let (h, _) = advance(h, Event::Written);
    let (h, _) = advance(h, Event::Received(peer_version_message(2)));
    let (h, _) = advance(h, Event::Written);
    let (h, action) = advance(h, Event::Received(ack_bytes(b"ping")));
    assert_eq!(h.state(), HandshakeState::Failed);
    assert_eq!(h.failure(), Some(HandshakeError::UnexpectedCommand));
    assert!(matches!(action, Action::Close));
}

#[test]
fn short_version_reply_fails_without_panic() {
    let (h, _) = begin(MAGIC_VALUE, peer(), local(), Some(1), 70015, 1, 0);
    let (h, _) = advance(h, Event::Written);
    let (h, _) = advance(h, Event::Received(vec![1, 2, 3]));
    assert_eq!(h.failure(), Some(HandshakeError::InvalidVersion));
}

#[test]
fn fresh_nonce_is_the_one_in_the_version_message() {
    let (a, first) = begin_with_fresh_nonce(MAGIC_VALUE, peer(), local(), Some(1), 70015, 0);
    let (b, _) = begin_with_fresh_nonce(MAGIC_VALUE, peer(), local(), Some(1), 70015, 0);
    assert_ne!(a.nonce(), b.nonce());
    let message = sent(&first);
    assert_eq!(&message[24 + 72..24 + 80], &a.nonce().to_le_bytes());
    let (a, _) = advance(a, Event::Written);
    let (a, _) = advance(a, Event::Received(message));
    assert_eq!(a.failure(), Some(HandshakeError::SelfConnection));
}
