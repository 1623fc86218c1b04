use aes::cipher::{BlockEncrypt, KeyInit, KeyIvInit, StreamCipher};
use sha3::Digest;
use p2p_handshake::error::{ErrorClass, HandshakeError};
use p2p_handshake::session::{
    decrypt_frame, derive_secrets, encrypt_frame, open_frame, seal_frame, Role, SessionSecrets,
};

fn keccak(parts: &[&[u8]]) -> Vec<u8> {
    let mut hasher = sha3::Keccak256::new();
    for part in parts {
        hasher.update(part);
    }
    hasher.finalize().to_vec()
}

fn xor(a: &[u8], b: &[u8]) -> Vec<u8> {
    a.iter().zip(b.iter()).map(|(x, y)| x ^ y).collect()
}

const SHARED: [u8; 32] = [0x5a; 32];
const INITIATOR_NONCE: [u8; 32] = [0x11; 32];
const RESPONDER_NONCE: [u8; 32] = [0x22; 32];

fn pair() -> (SessionSecrets, SessionSecrets) {
    let auth = b"the authentication as it travelled";
    let ack = b"the acknowledgement as it travelled";
    let initiator =
        derive_secrets(Role::Initiator, &SHARED, &INITIATOR_NONCE, &RESPONDER_NONCE, auth, ack);
    let responder =
        derive_secrets(Role::Responder, &SHARED, &RESPONDER_NONCE, &INITIATOR_NONCE, auth, ack);
    (initiator.unwrap(), responder.unwrap())
}

#[test]
fn secrets_follow_the_hash_chain() {
    let (initiator, _) = pair();
    let nonces = keccak(&[&RESPONDER_NONCE, &INITIATOR_NONCE]);
    let secret = keccak(&[&SHARED, &nonces]);
    let aes = keccak(&[&SHARED, &secret]);
    let mac = keccak(&[&SHARED, &aes]);
    assert_eq!(initiator.aes_key.to_vec(), aes);
    assert_eq!(initiator.mac_key.to_vec(), mac);
    assert_eq!(aes.len(), 32);
    assert_ne!(aes, SHARED.to_vec());

    let mut egress = xor(&mac, &RESPONDER_NONCE);
    egress.extend_from_slice(b"the authentication as it travelled");
    let mut ingress = xor(&mac, &INITIATOR_NONCE);
    ingress.extend_from_slice(b"the acknowledgement as it travelled");
    assert_eq!(initiator.egress_mac, egress);
    assert_eq!(initiator.ingress_mac, ingress);
    assert_eq!(initiator.egress_offset, 0);
    assert_eq!(initiator.ingress_offset, 0);
}

#[test]
fn both_sides_derive_mirrored_secrets() {
    let (initiator, responder) = pair();
    assert_eq!(initiator.aes_key, responder.aes_key);
    assert_eq!(initiator.mac_key, responder.mac_key);
    assert_eq!(initiator.egress_mac, responder.ingress_mac);
    assert_eq!(initiator.ingress_mac, responder.egress_mac);
    assert_ne!(initiator.egress_mac, initiator.ingress_mac);
}

#[test]
fn derivation_needs_every_input() {
    let derive = |shared: &[u8], local: &[u8], remote: &[u8], auth: &[u8], ack: &[u8]| {
        derive_secrets(Role::Initiator, shared, local, remote, auth, ack).map(|_| ())
    };
    let n = [1u8; 32];
    assert_eq!(derive(&n, &n, &n, b"a", b"b"), Ok(()));
    assert_eq!(derive(&n[..31], &n, &n, b"a", b"b"), Err(HandshakeError::DerivationFailure));
    assert_eq!(derive(&n, &[], &n, b"a", b"b"), Err(HandshakeError::DerivationFailure));
    assert_eq!(derive(&n, &n, &n[..5], b"a", b"b"), Err(HandshakeError::DerivationFailure));
    assert_eq!(derive(&n, &n, &n, b"", b"b"), Err(HandshakeError::DerivationFailure));
    assert_eq!(derive(&n, &n, &n, b"a", b""), Err(HandshakeError::DerivationFailure));
    assert_eq!(HandshakeError::DerivationFailure.class(), ErrorClass::CryptoFailure);
}

#[test]
fn frame_round_trip() {
    let (mut initiator, mut responder) = pair();
    let payload: Vec<u8> = (0u8..50).collect();
    let frame = encrypt_frame(&mut initiator, 0, &payload).unwrap();
    assert_eq!(frame.len(), 16 + 16 + 64 + 16);
    assert_eq!(decrypt_frame(&mut responder, &frame), Ok((0, payload)));
    assert_eq!(initiator.egress_mac, responder.ingress_mac);
    assert_eq!(initiator.egress_offset, 80);
    assert_eq!(responder.ingress_offset, 80);
}

#[test]
fn frames_follow_each_other_in_both_directions() {
    let (mut initiator, mut responder) = pair();
    for round in 0u8..5 {
        let payload = vec![round; 1 + 7 * round as usize];
        let frame = encrypt_frame(&mut initiator, round, &payload).unwrap();
        assert_eq!(decrypt_frame(&mut responder, &frame), Ok((round, payload.clone())));
        let frame = encrypt_frame(&mut responder, 0x7f, &payload).unwrap();
        assert_eq!(decrypt_frame(&mut initiator, &frame), Ok((0x7f, payload)));
    }
}

#[test]
fn frame_with_an_empty_payload() {
    let (mut initiator, mut responder) = pair();
    let frame = encrypt_frame(&mut initiator, 2, &[]).unwrap();
    assert_eq!(frame.len(), 64);
    assert_eq!(decrypt_frame(&mut responder, &frame), Ok((2, Vec::new())));
}

#[test]
fn frame_of_whole_blocks_has_no_padding() {
    let (mut initiator, mut responder) = pair();
    let frame = seal_frame(&mut initiator, &[3; 32]).unwrap();
    assert_eq!(frame.len(), 16 + 16 + 32 + 16);
    assert_eq!(open_frame(&mut responder, &frame), Ok(vec![3; 32]));
    let frame = seal_frame(&mut initiator, &[]).unwrap();
    assert_eq!(frame.len(), 48);
    assert_eq!(open_frame(&mut responder, &frame), Ok(Vec::new()));
}

#[test]
fn frame_has_the_stated_layout() {
    let (mut initiator, _) = pair();
    let aes_key = initiator.aes_key;
    let mac_key = initiator.mac_key;
    let seed = initiator.egress_mac.clone();
    let frame = encrypt_frame(&mut initiator, 0, b"hello").unwrap();

    let mut clear = frame.clone();
    let mut cipher = ctr::Ctr128BE::<aes::Aes256>::new_from_slices(&aes_key, &[0; 16]).unwrap();
    cipher.apply_keystream(&mut clear[..16]);
    cipher.apply_keystream(&mut clear[32..48]);
    assert_eq!(&clear[..16], &[0, 0, 6, 0xc2, 0x80, 0x80, 0, 0, 0, 0, 0, 0, 0, 0, 0, 0]);
    assert_eq!(&clear[32..48], b"\x80hello\0\0\0\0\0\0\0\0\0\0");

    let block = |input: &[u8]| {
        let mut out = aes::cipher::generic_array::GenericArray::clone_from_slice(input);
        aes::Aes256::new_from_slice(&mac_key).unwrap().encrypt_block(&mut out);
        out.to_vec()
    };
    let mut absorbed = seed.clone();
    let first = keccak(&[&absorbed]);
    absorbed.extend_from_slice(&xor(&block(&first[..16]), &frame[..16]));
    assert_eq!(&frame[16..32], &keccak(&[&absorbed])[..16]);
    absorbed.extend_from_slice(&frame[32..48]);
    let second = keccak(&[&absorbed]);
    absorbed.extend_from_slice(&xor(&block(&second[..16]), &second[..16]));
    assert_eq!(&frame[48..64], &keccak(&[&absorbed])[..16]);
    assert_eq!(initiator.egress_mac, absorbed);
}

#[test]
fn changed_byte_is_a_mac_mismatch() {
    let (mut initiator, responder) = pair();
    let frame = encrypt_frame(&mut initiator, 0, b"a hello of some length").unwrap();
    for at in 0..frame.len() {
        for bit in [0x01u8, 0x80] {
            let mut fresh = pair().1;
            let mut changed = frame.clone();
            changed[at] ^= bit;
            assert_eq!(decrypt_frame(&mut fresh, &changed), Err(HandshakeError::MacMismatch));
            assert_eq!(fresh.ingress_mac, responder.ingress_mac);
            assert_eq!(fresh.ingress_offset, 0);
        }
    }
    assert_eq!(HandshakeError::MacMismatch.class(), ErrorClass::MalformedMessage);
}

#[test]
fn truncated_frame_is_too_short() {
    let (mut initiator, mut responder) = pair();
    let frame = encrypt_frame(&mut initiator, 0, b"a hello of some length").unwrap();
    for n in 0..frame.len() {
        assert_eq!(decrypt_frame(&mut responder, &frame[..n]), Err(HandshakeError::FrameTooShort));
    }
    assert_eq!(responder.ingress_offset, 0);
    assert_eq!(decrypt_frame(&mut responder, &frame).unwrap().0, 0);
    assert_eq!(HandshakeError::FrameTooShort.class(), ErrorClass::MalformedMessage);
}

#[test]
fn frame_from_the_wrong_direction_is_a_mac_mismatch() {
    let (mut initiator, _) = pair();
    let frame = encrypt_frame(&mut initiator, 0, b"hello").unwrap();
    let mut same_side = pair().0;
    assert_eq!(decrypt_frame(&mut same_side, &frame), Err(HandshakeError::MacMismatch));
}

#[test]
fn replayed_frame_is_a_mac_mismatch() {
    let (mut initiator, mut responder) = pair();
    let frame = encrypt_frame(&mut initiator, 0, b"hello").unwrap();
    assert!(decrypt_frame(&mut responder, &frame).is_ok());
    assert_eq!(decrypt_frame(&mut responder, &frame), Err(HandshakeError::MacMismatch));
}

#[test]
fn bytes_behind_the_frame_are_ignored() {
    let (mut initiator, mut responder) = pair();
    let mut bytes = encrypt_frame(&mut initiator, 1, b"first").unwrap();
    let first_len = bytes.len();
    bytes.extend_from_slice(&encrypt_frame(&mut initiator, 2, b"second").unwrap());
    assert_eq!(decrypt_frame(&mut responder, &bytes), Ok((1, b"first".to_vec())));
    assert_eq!(decrypt_frame(&mut responder, &bytes[first_len..]), Ok((2, b"second".to_vec())));
}

#[test]
fn message_types_have_one_byte() {
    let (mut initiator, _) = pair();
    for message_type in [0x80u8, 0x81, 0xff] {
        let r = encrypt_frame(&mut initiator, message_type, b"x");
        assert_eq!(r, Err(HandshakeError::InvalidStructuredEncoding));
    }
    assert_eq!(initiator.egress_offset, 0);
}

#[test]
fn frame_without_a_message_type() {
    let (mut initiator, mut responder) = pair();
    let frame = seal_frame(&mut initiator, &[]).unwrap();
    assert_eq!(decrypt_frame(&mut responder, &frame), Err(HandshakeError::InvalidStructuredEncoding));
    assert_eq!(responder.ingress_offset, 0);
    let (mut initiator, mut responder) = pair();
    let frame = seal_frame(&mut initiator, &[0x00, 1, 2]).unwrap();
    assert_eq!(decrypt_frame(&mut responder, &frame), Err(HandshakeError::InvalidStructuredEncoding));
    assert_eq!(responder.ingress_mac, pair().1.ingress_mac);
}

#[test]
fn frame_that_is_too_long() {
    let (mut initiator, mut responder) = pair();
    let payload = vec![0u8; 0xff_ffff];
    assert_eq!(encrypt_frame(&mut initiator, 0, &payload), Err(HandshakeError::MessageTooLong));
    assert_eq!(initiator.egress_offset, 0);
    let frame = encrypt_frame(&mut initiator, 0, &payload[1..]).unwrap();
    assert_eq!(frame.len(), 48 + 0x100_0000);
    let (message_type, back) = decrypt_frame(&mut responder, &frame).unwrap();
    assert_eq!(message_type, 0);
    assert_eq!(back.len(), 0xff_fffe);
}

#[test]
fn used_up_keystream() {
    let (mut initiator, mut responder) = pair();
    let frame = encrypt_frame(&mut initiator, 0, b"hello").unwrap();
    initiator.egress_offset = u64::MAX - 100;
    assert_eq!(encrypt_frame(&mut initiator, 0, b"hello"), Err(HandshakeError::MessageTooLong));
    responder.ingress_offset = u64::MAX - 100;
    assert_eq!(decrypt_frame(&mut responder, &frame), Err(HandshakeError::MessageTooLong));
}
