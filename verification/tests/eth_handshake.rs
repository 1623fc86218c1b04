use p2p_handshake::ecies::{decrypt_response, seal};
use p2p_handshake::error::{ErrorClass, HandshakeError};
use p2p_handshake::eth_handshake::{
    advance, perform_eth_handshake, EncryptedHandshake, EncryptedState,
};
use p2p_handshake::hello::{Capability, Disconnect, HelloMessage};
use p2p_handshake::keys::{
    convert_bytes_to_public_key, generate_ephemeral_keypair, parse_node_id, PublicKey, SecretKey,
};
use p2p_handshake::session::{decrypt_frame, derive_secrets, encrypt_frame, Role, SessionSecrets};
use p2p_handshake::transport::{Action, Event};

/// The other side of the handshake, played by the test.
struct Peer {
    key: SecretKey,
    session: Option<SessionSecrets>,
}

impl Peer {
    fn new() -> Peer {
        Peer { key: SecretKey::from_bytes(&[0x77; 32]).unwrap(), session: None }
    }

    fn node_id(&self) -> String {
        hex::encode(self.key.public_key().to_bytes())
    }

    /// Opens the authentication and answers with the acknowledgement.
    fn acknowledge(&mut self, auth: &[u8]) -> Vec<u8> {
        let plaintext = decrypt_response(&self.key, auth).unwrap();
        let body = rlp::Rlp::new(&plaintext);
        let signature: Vec<u8> = body.val_at(0).unwrap();
        let public: Vec<u8> = body.val_at(1).unwrap();
        let nonce: Vec<u8> = body.val_at(2).unwrap();
        let initiator: PublicKey = convert_bytes_to_public_key(&public).unwrap();

        let shared = self.key.shared_secret(&initiator);
        let token: Vec<u8> = shared.iter().zip(nonce.iter()).map(|(a, b)| a ^ b).collect();
        let id = secp256k1::ecdsa::RecoveryId::from_i32(signature[64] as i32).unwrap();
        let parsed =
            secp256k1::ecdsa::RecoverableSignature::from_compact(&signature[..64], id).unwrap();
        let digest = secp256k1::Message::from_slice(&token).unwrap();
        let recovered = secp256k1::Secp256k1::new().recover_ecdsa(&digest, &parsed).unwrap();
        let initiator_ephemeral =
            convert_bytes_to_public_key(&recovered.serialize_uncompressed()[1..]).unwrap();

        let (ephemeral, ephemeral_public) = generate_ephemeral_keypair();
        let own_nonce = [0x99u8; 32];
        let mut stream = rlp::RlpStream::new_list(3);
        stream.append(&&ephemeral_public.to_bytes()[..]);
        stream.append(&&own_nonce[..]);
        stream.append(&4u8);
        let (sealing, _) = generate_ephemeral_keypair();
        let ack = seal(&initiator, &sealing, &[0x31; 16], &stream.out());

        let session = derive_secrets(
            Role::Responder,
            &ephemeral.shared_secret(&initiator_ephemeral),
            &own_nonce,
            &nonce,
            auth,
            &ack,
        );
        self.session = Some(session.unwrap());
        ack
    }

    fn read(&mut self, frame: &[u8]) -> (u8, Vec<u8>) {
        decrypt_frame(self.session.as_mut().unwrap(), frame).unwrap()
    }

    fn write(&mut self, message_type: u8, payload: &[u8]) -> Vec<u8> {
        encrypt_frame(self.session.as_mut().unwrap(), message_type, payload).unwrap()
    }

    fn hello(&self) -> HelloMessage {
        HelloMessage {
            protocol_version: 5,
            client_version: "peer/1.0".to_string(),
            capabilities: vec![Capability { name: "eth".to_string(), version: 68 }],
            port: 30303,
            id: self.key.public_key(),
        }
    }
}

fn sent(action: &Action) -> Vec<u8> {
    match action {
        Action::Send(bytes) => bytes.clone(),
        other => panic!("expected bytes to send, got {:?}", other),
    }
}

fn start(peer: &Peer) -> (EncryptedHandshake, Vec<u8>) {
    let capabilities = vec![Capability { name: "eth".to_string(), version: 67 }];
    let (h, action) =
        perform_eth_handshake(&peer.node_id(), "us/0.1".to_string(), capabilities, 30304).unwrap();
    assert_eq!(h.state(), EncryptedState::Connected);
    assert_eq!(sent(&action), h.auth().to_vec());
    let auth = sent(&action);
    (h, auth)
}

/// Runs the handshake up to the point where our hello is written.
fn up_to_hello_sent(peer: &mut Peer) -> EncryptedHandshake {
    let (h, auth) = start(peer);
    let ack = peer.acknowledge(&auth);
    let (h, _) = advance(h, Event::Written);
    let (h, action) = advance(h, Event::Received(ack));
    peer.read(&sent(&action));
    let (h, action) = advance(h, Event::Written);
    assert_eq!(h.state(), EncryptedState::HelloSent);
    assert!(matches!(action, Action::Receive));
    h
}

#[test]
fn encrypted_handshake_happy_path() {
    let mut peer = Peer::new();
    let (h, auth) = start(&peer);
    let ack = peer.acknowledge(&auth);

    let (h, action) = advance(h, Event::Written);
    assert_eq!(h.state(), EncryptedState::AuthSent);
    assert!(matches!(action, Action::Receive));

    let (h, action) = advance(h, Event::Received(ack));
    assert_eq!(h.state(), EncryptedState::SecretsDerived);
    assert!(h.pending().is_empty());
    let (message_type, payload) = peer.read(&sent(&action));
    assert_eq!(message_type, 0);
    let ours = HelloMessage::decode(&payload).unwrap();
    assert_eq!(ours.protocol_version, 5);
    assert_eq!(ours.client_version, "us/0.1");
    assert_eq!(ours.capabilities.len(), 1);
    assert_eq!(ours.capabilities[0].name, "eth");
    assert_eq!(ours.capabilities[0].version, 67);
    assert_eq!(ours.port, 30304);
    assert_eq!(ours.id, h.local_public());

    let (h, action) = advance(h, Event::Written);
    assert_eq!(h.state(), EncryptedState::HelloSent);
    assert!(matches!(action, Action::Receive));

    let frame = peer.write(0, &peer.hello().encode());
    let (h, action) = advance(h, Event::Received(frame));
    assert_eq!(h.state(), EncryptedState::Established);
    assert!(matches!(action, Action::Close));
    assert_eq!(h.failure(), None);
    let theirs = h.peer_hello().unwrap();
    assert_eq!(theirs.client_version, "peer/1.0");
    assert_eq!(theirs.id, peer.key.public_key());

    let (h, action) = advance(h, Event::Written);
    assert_eq!(h.state(), EncryptedState::Established);
    assert!(matches!(action, Action::Close));
    assert!(h.finished());

    let mut session = h.into_session().unwrap();
    let frame = peer.write(0x10, b"status");
    assert_eq!(decrypt_frame(&mut session, &frame), Ok((0x10, b"status".to_vec())));
    let frame = encrypt_frame(&mut session, 0x02, b"ping").unwrap();
    assert_eq!(peer.read(&frame), (0x02, b"ping".to_vec()));
}

#[test]
fn hello_that_arrives_with_the_acknowledgement() {
    let mut peer = Peer::new();
    let (h, auth) = start(&peer);
    let mut response = peer.acknowledge(&auth);
    let ack_len = response.len();
    response.extend_from_slice(&peer.write(0, &peer.hello().encode()));

    let (h, _) = advance(h, Event::Written);
    let (h, action) = advance(h, Event::Received(response.clone()));
    assert_eq!(h.state(), EncryptedState::SecretsDerived);
    assert_eq!(h.pending(), &response[ack_len..]);
    assert_eq!(peer.read(&sent(&action)).0, 0);

    let (h, action) = advance(h, Event::Written);
    assert_eq!(h.state(), EncryptedState::Established);
    assert!(matches!(action, Action::Close));
    assert_eq!(h.peer_hello().unwrap().client_version, "peer/1.0");
    assert!(h.pending().is_empty());
}

#[test]
fn encrypted_handshake_disconnect() {
    let mut peer = Peer::new();
    let h = up_to_hello_sent(&mut peer);
    let frame = peer.write(1, &Disconnect { reason: 4 }.encode());
    let (h, action) = advance(h, Event::Received(frame));
    assert_eq!(h.state(), EncryptedState::Failed);
    assert_eq!(h.failure(), Some(HandshakeError::PeerDisconnected { reason: 4 }));
    assert_eq!(h.failure().unwrap().class(), ErrorClass::PeerDisconnected);
    assert!(matches!(action, Action::Close));
    assert!(h.peer_hello().is_none());
    assert!(h.into_session().is_none());
}

#[test]
fn disconnect_that_arrives_with_the_acknowledgement() {
    let mut peer = Peer::new();
    let (h, auth) = start(&peer);
    let mut response = peer.acknowledge(&auth);
    response.extend_from_slice(&peer.write(1, &Disconnect { reason: 0x10 }.encode()));
    let (h, _) = advance(h, Event::Written);
    let (h, _) = advance(h, Event::Received(response));
    let (h, action) = advance(h, Event::Written);
    assert_eq!(h.failure(), Some(HandshakeError::PeerDisconnected { reason: 0x10 }));
    assert!(matches!(action, Action::Close));
}

#[test]
fn changed_frame_fails_the_handshake() {
    let mut peer = Peer::new();
    let h = up_to_hello_sent(&mut peer);
    let mut frame = peer.write(0, &peer.hello().encode());
    frame[40] ^= 1;
    let (h, action) = advance(h, Event::Received(frame));
    assert_eq!(h.failure(), Some(HandshakeError::MacMismatch));
    assert!(matches!(action, Action::Close));
}

#[test]
fn short_frame_fails_the_handshake() {
    let mut peer = Peer::new();
    let h = up_to_hello_sent(&mut peer);
    let frame = peer.write(0, &peer.hello().encode());
    let (h, _) = advance(h, Event::Received(frame[..frame.len() - 1].to_vec()));
    assert_eq!(h.failure(), Some(HandshakeError::FrameTooShort));
}

#[test]
fn changed_acknowledgement_fails_the_handshake() {
    let mut peer = Peer::new();
    let (h, auth) = start(&peer);
    let mut ack = peer.acknowledge(&auth);
    ack[100] ^= 1;
    let (h, _) = advance(h, Event::Written);
    let (h, action) = advance(h, Event::Received(ack));
    assert_eq!(h.state(), EncryptedState::Failed);
    assert_eq!(h.failure(), Some(HandshakeError::DecryptionFailure));
    assert!(matches!(action, Action::Close));
}

#[test]
fn acknowledgement_without_a_nonce_fails_the_handshake() {
    let peer = Peer::new();
    let (h, auth) = start(&peer);
    let plaintext = decrypt_response(&peer.key, &auth).unwrap();
    let public: Vec<u8> = rlp::Rlp::new(&plaintext).val_at(1).unwrap();
    let initiator = convert_bytes_to_public_key(&public).unwrap();
    let (_, ephemeral_public) = generate_ephemeral_keypair();
    let mut stream = rlp::RlpStream::new_list(2);
    stream.append(&&ephemeral_public.to_bytes()[..]);
    stream.append(&"");
    let ack = seal(&initiator, &peer.key, &[0; 16], &stream.out());
    let (h, _) = advance(h, Event::Written);
    let (h, _) = advance(h, Event::Received(ack));
    assert_eq!(h.failure(), Some(HandshakeError::DerivationFailure));
}

#[test]
fn nothing_read_is_a_read_failure() {
    let mut peer = Peer::new();
    let (h, _) = start(&peer);
    let (h, _) = advance(h, Event::Written);
    let (h, action) = advance(h, Event::Received(Vec::new()));
    assert_eq!(h.failure(), Some(HandshakeError::ReadFailure));
    assert!(matches!(action, Action::Close));

    let h = up_to_hello_sent(&mut peer);
    let (h, _) = advance(h, Event::Received(Vec::new()));
    assert_eq!(h.failure(), Some(HandshakeError::ReadFailure));
}

#[test]
fn transport_failures_end_the_encrypted_handshake() {
    let mut peer = Peer::new();
    let (h, _) = advance(start(&peer).0, Event::WriteFailed);
    assert_eq!(h.failure(), Some(HandshakeError::WriteFailure));

    let (h, _) = advance(start(&peer).0, Event::Written);
    let (h, _) = advance(h, Event::ReadFailed);
    assert_eq!(h.failure(), Some(HandshakeError::ReadFailure));

    let (h, _) = advance(start(&peer).0, Event::TimedOut);
    assert_eq!(h.failure(), Some(HandshakeError::Timeout));
    assert_eq!(HandshakeError::Timeout.class(), ErrorClass::Transport);

    let (h, _) = advance(up_to_hello_sent(&mut peer), Event::ReadFailed);
    assert_eq!(h.failure(), Some(HandshakeError::ReadFailure));

    let (h, auth) = start(&peer);
    let ack = peer.acknowledge(&auth);
    let (h, _) = advance(h, Event::Written);
    let (h, _) = advance(h, Event::Received(ack));
    let (h, action) = advance(h, Event::WriteFailed);
    assert_eq!(h.failure(), Some(HandshakeError::WriteFailure));
    assert!(matches!(action, Action::Close));
    assert!(h.into_session().is_none());
}

#[test]
fn events_out_of_order_end_the_encrypted_handshake() {
    let peer = Peer::new();
    let (h, _) = advance(start(&peer).0, Event::Received(vec![1, 2, 3]));
    assert_eq!(h.failure(), Some(HandshakeError::UnexpectedEvent));
    let (h, _) = advance(start(&peer).0, Event::ReadFailed);
    assert_eq!(h.failure(), Some(HandshakeError::UnexpectedEvent));
    let (h, _) = advance(start(&peer).0, Event::Written);
    let (h, action) = advance(h, Event::Written);
    assert_eq!(h.failure(), Some(HandshakeError::UnexpectedEvent));
    assert!(matches!(action, Action::Close));
    let (h, _) = advance(h, Event::TimedOut);
    assert_eq!(h.failure(), Some(HandshakeError::UnexpectedEvent));
}

#[test]
fn node_identifier_must_be_a_public_key() {
    let start = |id: &str| perform_eth_handshake(id, String::new(), Vec::new(), 0).map(|_| ());
    let good = Peer::new().node_id();
    assert_eq!(start(&good), Ok(()));
    assert_eq!(start(&format!("  {}\n", good)), Ok(()));
    assert_eq!(start(&good.to_uppercase()), Ok(()));
    assert_eq!(start(""), Err(HandshakeError::InvalidPublicKey));
    assert_eq!(start(&good[1..]), Err(HandshakeError::InvalidPublicKey));
    assert_eq!(start(&good[2..]), Err(HandshakeError::InvalidPublicKey));
    assert_eq!(start(&good.replace('7', "g")), Err(HandshakeError::InvalidPublicKey));
    assert_eq!(start(&"11".repeat(64)), Err(HandshakeError::InvalidPublicKey));
    assert_eq!(start(&format!("0x{}", good)), Err(HandshakeError::InvalidPublicKey));
}

#[test]
fn node_identifier_is_hexadecimal() {
    let key = Peer::new().key.public_key();
    let text = hex::encode(key.to_bytes());
    assert_eq!(parse_node_id(&text), Ok(key));
    assert_eq!(parse_node_id(&format!("\t {} \r\n", text)), Ok(key));
    assert_eq!(parse_node_id(&text.to_uppercase()), Ok(key));
    let inner_space = format!("{} {}", &text[..64], &text[64..]);
    assert_eq!(parse_node_id(&inner_space), Err(HandshakeError::InvalidPublicKey));
    assert_eq!(parse_node_id("\u{e9}\u{e9}"), Err(HandshakeError::InvalidPublicKey));
}

#[test]
fn each_attempt_draws_fresh_keys() {
    let peer = Peer::new();
    let (a, auth_a) = start(&peer);
    let (b, auth_b) = start(&peer);
    assert_ne!(a.local_public(), b.local_public());
    assert_ne!(a.nonce(), b.nonce());
    assert_ne!(auth_a, auth_b);
}
