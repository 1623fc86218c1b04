//! The secrets of a session and the frames that travel under them.
//!
//! A frame is a 16-byte header under the cipher, a 16-byte tag of the header,
//! the body under the cipher, padded with zero bytes to whole blocks, and a
//! 16-byte tag of the body. Each direction has a running tag state: every
//! tag is made of all that the direction has absorbed so far.

use vstd::prelude::*;
use crate::auth::zeros;
use crate::bytes::{array_from, copy_range, push_all, same_bytes};
use crate::cipher::{aes256_block, aes256_keystream, encrypt_block, keystream256, xor, xor_bytes};
use crate::error::HandshakeError;
use crate::hash::{keccak256, keccak256_digest};
use crate::rlp_items::{decode_single_byte, single_byte_of, single_byte_value};

verus! {

/// Bytes of a frame's header, and of each of its two tags.
pub const BLOCK_LEN: usize = 16;

/// The greatest number of bytes that a frame can carry: its length has three
/// bytes.
pub const MAX_FRAME_DATA: usize = 0xff_ffff;

/// Bytes of the smallest frame: header, header tag and body tag.
pub const MIN_FRAME_LEN: usize = 48;

/// The last keystream position at which a frame may start, so that the
/// largest frame still ends within the keystream.
pub const STREAM_LIMIT: u64 = 0xffff_ffff_feff_ffef;

/// Which side of the key agreement a node is on.
#[derive(Clone, Copy, Debug, PartialEq, Eq, Structural)]
pub enum Role {
    /// The side that sent the authentication.
    Initiator,
    /// The side that answered with the acknowledgement.
    Responder,
}

/// The keys of a session and the state of its two directions.
#[derive(Debug)]
pub struct SessionSecrets {
    /// The key of the cipher, for both directions.
    pub aes_key: [u8; 32],
    /// The key of the tags, for both directions.
    pub mac_key: [u8; 32],
    /// All that the tags of received frames have absorbed.
    pub ingress_mac: Vec<u8>,
    /// All that the tags of sent frames have absorbed.
    pub egress_mac: Vec<u8>,
    /// The keystream position of the next received frame.
    pub ingress_offset: u64,
    /// The keystream position of the next sent frame.
    pub egress_offset: u64,
}

/// The secrets of a session as a mathematical value.
pub struct SessionView {
    pub aes_key: Seq<u8>,
    pub mac_key: Seq<u8>,
    pub ingress_mac: Seq<u8>,
    pub egress_mac: Seq<u8>,
    pub ingress_offset: u64,
    pub egress_offset: u64,
}

impl View for SessionSecrets {
    type V = SessionView;

    open spec fn view(&self) -> SessionView {
        SessionView {
            aes_key: self.aes_key@,
            mac_key: self.mac_key@,
            ingress_mac: self.ingress_mac@,
            egress_mac: self.egress_mac@,
            ingress_offset: self.ingress_offset,
            egress_offset: self.egress_offset,
        }
    }
}

impl SessionView {
    /// What this side sends is what `peer` receives: the same keys, and the
    /// peer's ingress state is this side's egress state.
    pub open spec fn sends_to(self, peer: SessionView) -> bool {
        &&& self.aes_key == peer.aes_key
        &&& self.mac_key == peer.mac_key
        &&& self.egress_mac == peer.ingress_mac
        &&& self.egress_offset == peer.ingress_offset
    }
}

/// The Keccak-256 digest of `a` followed by `b`.
pub open spec fn keccak_pair(a: Seq<u8>, b: Seq<u8>) -> Seq<u8> {
    keccak256_digest(a + b)
}

/// The key of the cipher: with `h` the digest of the responder's nonce and
/// the initiator's, and `s` the digest of the shared secret and `h`, it is
/// the digest of the shared secret and `s`.
pub open spec fn aes_secret(
    shared: Seq<u8>,
    initiator_nonce: Seq<u8>,
    responder_nonce: Seq<u8>,
) -> Seq<u8> {
    keccak_pair(shared, keccak_pair(shared, keccak_pair(responder_nonce, initiator_nonce)))
}

/// The key of the tags: the digest of the shared secret and the key of the
/// cipher.
pub open spec fn mac_secret(
    shared: Seq<u8>,
    initiator_nonce: Seq<u8>,
    responder_nonce: Seq<u8>,
) -> Seq<u8> {
    keccak_pair(shared, aes_secret(shared, initiator_nonce, responder_nonce))
}

/// The nonce of the initiator, seen from a side with this role.
pub open spec fn initiator_nonce(role: Role, local: Seq<u8>, remote: Seq<u8>) -> Seq<u8> {
    match role {
        Role::Initiator => local,
        Role::Responder => remote,
    }
}

/// The nonce of the responder, seen from a side with this role.
pub open spec fn responder_nonce(role: Role, local: Seq<u8>, remote: Seq<u8>) -> Seq<u8> {
    match role {
        Role::Initiator => remote,
        Role::Responder => local,
    }
}

/// Whether every input of the derivation is there: a shared secret and two
/// nonces of 32 bytes each, and two messages that are not empty.
pub open spec fn derivable(
    shared: Seq<u8>,
    local_nonce: Seq<u8>,
    remote_nonce: Seq<u8>,
    auth: Seq<u8>,
    ack: Seq<u8>,
) -> bool {
    &&& shared.len() == 32
    &&& local_nonce.len() == 32
    &&& remote_nonce.len() == 32
    &&& auth.len() > 0
    &&& ack.len() > 0
}

/// The secrets that a side with this role derives.
///
/// Both sides get the same two keys. The egress state starts with the tag key
/// exclusive-or the remote nonce, followed by the message that this side
/// sent; the ingress state with the tag key exclusive-or the local nonce,
/// followed by the message that it received. The initiator sent the
/// authentication `auth` and received the acknowledgement `ack`.
pub open spec fn derived(
    role: Role,
    shared: Seq<u8>,
    local_nonce: Seq<u8>,
    remote_nonce: Seq<u8>,
    auth: Seq<u8>,
    ack: Seq<u8>,
) -> SessionView {
    let first = initiator_nonce(role, local_nonce, remote_nonce);
    let second = responder_nonce(role, local_nonce, remote_nonce);
    let mac = mac_secret(shared, first, second);
    let (written, read) = match role {
        Role::Initiator => (auth, ack),
        Role::Responder => (ack, auth),
    };
    SessionView {
        aes_key: aes_secret(shared, first, second),
        mac_key: mac,
        ingress_mac: xor(local_nonce, mac) + read,
        egress_mac: xor(remote_nonce, mac) + written,
        ingress_offset: 0,
        egress_offset: 0,
    }
}

/// The digest of `a` followed by `b`.
fn keccak_of_pair(a: &[u8], b: &[u8]) -> (digest: [u8; 32])
    ensures
        digest@ == keccak_pair(a@, b@),
{
    let mut input: Vec<u8> = Vec::new();
    push_all(&mut input, a);
    push_all(&mut input, b);
    assert(input@ =~= a@ + b@);
    keccak256(input.as_slice())
}

/// Derives the secrets of a session.
///
/// `shared_secret` is what the two one-time keys share, `auth_message` and
/// `ack_message` are the two messages of the key agreement as they
/// travelled. Fails with `DerivationFailure` where the shared secret or a
/// nonce is not 32 bytes, or a message is empty.
pub fn derive_secrets(
    role: Role,
    shared_secret: &[u8],
    local_nonce: &[u8],
    remote_nonce: &[u8],
    auth_message: &[u8],
    ack_message: &[u8],
) -> (r: Result<SessionSecrets, HandshakeError>)
    ensures
        match r {
            Ok(secrets) => derivable(
                shared_secret@,
                local_nonce@,
                remote_nonce@,
                auth_message@,
                ack_message@,
            ) && secrets@ == derived(
                role,
                shared_secret@,
                local_nonce@,
                remote_nonce@,
                auth_message@,
                ack_message@,
            ),
            Err(e) => e == HandshakeError::DerivationFailure && !derivable(
                shared_secret@,
                local_nonce@,
                remote_nonce@,
                auth_message@,
                ack_message@,
            ),
        },
{
    if shared_secret.len() != 32 || local_nonce.len() != 32 || remote_nonce.len() != 32
        || auth_message.len() == 0 || ack_message.len() == 0 {
        return Err(HandshakeError::DerivationFailure);
    }
    let nonces: [u8; 32] = match role {
        Role::Initiator => keccak_of_pair(remote_nonce, local_nonce),
        Role::Responder => keccak_of_pair(local_nonce, remote_nonce),
    };
    let secret: [u8; 32] = keccak_of_pair(shared_secret, &nonces);
    let aes_key: [u8; 32] = keccak_of_pair(shared_secret, &secret);
    let mac_key: [u8; 32] = keccak_of_pair(shared_secret, &aes_key);
    let mut ingress_mac: Vec<u8> = xor_bytes(local_nonce, &mac_key);
    let mut egress_mac: Vec<u8> = xor_bytes(remote_nonce, &mac_key);
    match role {
        Role::Initiator => {
            push_all(&mut ingress_mac, ack_message);
            push_all(&mut egress_mac, auth_message);
        },
        Role::Responder => {
            push_all(&mut ingress_mac, auth_message);
            push_all(&mut egress_mac, ack_message);
        },
    }
    Ok(
        SessionSecrets {
            aes_key,
            mac_key,
            ingress_mac,
            egress_mac,
            ingress_offset: 0,
            egress_offset: 0,
        },
    )
}

/// Both sides derive the same keys, and each side's egress state is the
/// other's ingress state.
pub proof fn lemma_derived_secrets_mirror(
    shared: Seq<u8>,
    initiator: Seq<u8>,
    responder: Seq<u8>,
    auth: Seq<u8>,
    ack: Seq<u8>,
)
    ensures
        derived(Role::Initiator, shared, initiator, responder, auth, ack).sends_to(
            derived(Role::Responder, shared, responder, initiator, auth, ack),
        ),
        derived(Role::Responder, shared, responder, initiator, auth, ack).sends_to(
            derived(Role::Initiator, shared, initiator, responder, auth, ack),
        ),
{
}

/// The tag that a direction gives once it has absorbed `absorbed`: the first
/// 16 bytes of the Keccak-256 digest.
pub open spec fn mac_tag(absorbed: Seq<u8>) -> Seq<u8> {
    Seq::new(BLOCK_LEN as nat, |i: int| keccak256_digest(absorbed)[i])
}

/// What a direction has absorbed after a header: what it had, and the header
/// exclusive-or the encryption of its tag so far under the tag key.
pub open spec fn after_header(mac_key: Seq<u8>, absorbed: Seq<u8>, header: Seq<u8>) -> Seq<u8> {
    absorbed + xor(header, aes256_block(mac_key, mac_tag(absorbed)))
}

/// What a direction has absorbed after a body: what it had, the body, and
/// the tag of these two exclusive-or its own encryption under the tag key.
pub open spec fn after_body(mac_key: Seq<u8>, absorbed: Seq<u8>, body: Seq<u8>) -> Seq<u8> {
    let all = absorbed + body;
    all + xor(mac_tag(all), aes256_block(mac_key, mac_tag(all)))
}

/// `n` rounded up to whole blocks.
pub open spec fn padded_len(n: int) -> int {
    (n + 15) / 16 * 16
}

/// The header of a frame that carries `size` bytes: the size in three bytes,
/// most significant first, the list of two zeros, and zero bytes.
pub open spec fn frame_header(size: int) -> Seq<u8> {
    seq![
        (size / 0x1_0000) as u8,
        (size / 0x100 % 0x100) as u8,
        (size % 0x100) as u8,
        0xc2u8,
        0x80u8,
        0x80u8,
        0u8,
        0u8,
        0u8,
        0u8,
        0u8,
        0u8,
        0u8,
        0u8,
        0u8,
        0u8,
    ]
}

/// The size that a header announces.
pub open spec fn frame_size_of(header: Seq<u8>) -> int {
    header[0] as int * 0x1_0000 + header[1] as int * 0x100 + header[2] as int
}

/// Whether a frame of `size` bytes can be sent now: the size fits three
/// bytes, and the keystream has room.
pub open spec fn can_seal(s: SessionView, size: int) -> bool {
    size <= MAX_FRAME_DATA && s.egress_offset <= STREAM_LIMIT
}

/// The frame that carries `data`, and the session after sending it.
pub open spec fn frame_sealed(s: SessionView, data: Seq<u8>) -> (Seq<u8>, SessionView) {
    let padded = data + zeros((padded_len(data.len() as int) - data.len()) as nat);
    let header = xor(
        frame_header(data.len() as int),
        aes256_keystream(s.aes_key, s.egress_offset, BLOCK_LEN),
    );
    let after_one = after_header(s.mac_key, s.egress_mac, header);
    let body = xor(
        padded,
        aes256_keystream(
            s.aes_key,
            (s.egress_offset + BLOCK_LEN) as u64,
            padded.len() as usize,
        ),
    );
    let after_two = after_body(s.mac_key, after_one, body);
    (
        header + mac_tag(after_one) + body + mac_tag(after_two),
        SessionView {
            egress_mac: after_two,
            egress_offset: (s.egress_offset + BLOCK_LEN + padded.len()) as u64,
            ..s
        },
    )
}

/// What the frame at the front of `bytes` carries, and the session after
/// receiving it.
///
/// The header tag is verified before the size is read, and the body tag
/// before the body is decrypted. Bytes behind the frame are not looked at.
pub open spec fn frame_opened(s: SessionView, bytes: Seq<u8>) -> Result<
    (Seq<u8>, SessionView),
    HandshakeError,
> {
    if s.ingress_offset > STREAM_LIMIT {
        Err(HandshakeError::MessageTooLong)
    } else if bytes.len() < 2 * BLOCK_LEN {
        Err(HandshakeError::FrameTooShort)
    } else {
        let header = bytes.subrange(0, 16);
        let after_one = after_header(s.mac_key, s.ingress_mac, header);
        let size = frame_size_of(
            xor(header, aes256_keystream(s.aes_key, s.ingress_offset, BLOCK_LEN)),
        );
        let padded = padded_len(size);
        let body = bytes.subrange(32, 32 + padded);
        let after_two = after_body(s.mac_key, after_one, body);
        if bytes.subrange(16, 32) != mac_tag(after_one) {
            Err(HandshakeError::MacMismatch)
        } else if bytes.len() < 3 * BLOCK_LEN + padded {
            Err(HandshakeError::FrameTooShort)
        } else if bytes.subrange(32 + padded, 48 + padded) != mac_tag(after_two) {
            Err(HandshakeError::MacMismatch)
        } else {
            Ok(
                (
                    xor(
                        body,
                        aes256_keystream(
                            s.aes_key,
                            (s.ingress_offset + BLOCK_LEN) as u64,
                            padded as usize,
                        ),
                    ).subrange(0, size),
                    SessionView {
                        ingress_mac: after_two,
                        ingress_offset: (s.ingress_offset + BLOCK_LEN + padded) as u64,
                        ..s
                    },
                ),
            )
        }
    }
}

/// The tag of a direction that has absorbed `absorbed`.
fn tag_of(absorbed: &[u8]) -> (tag: [u8; 16])
    ensures
        tag@ == mac_tag(absorbed@),
{
    let digest: [u8; 32] = keccak256(absorbed);
    let tag: [u8; 16] = array_from::<16>(&digest, 0);
    assert(tag@ =~= mac_tag(absorbed@));
    tag
}

/// Lets a direction absorb a header.
fn absorb_header(mac_key: &[u8; 32], absorbed: &mut Vec<u8>, header: &[u8])
    requires
        header.len() == BLOCK_LEN,
    ensures
        final(absorbed)@ == after_header(mac_key@, old(absorbed)@, header@),
{
    let tag: [u8; 16] = tag_of(absorbed.as_slice());
    let block: [u8; 16] = encrypt_block(mac_key, &tag);
    let seed: Vec<u8> = xor_bytes(header, &block);
    push_all(absorbed, seed.as_slice());
}

/// Lets a direction absorb a body.
fn absorb_body(mac_key: &[u8; 32], absorbed: &mut Vec<u8>, body: &[u8])
    ensures
        final(absorbed)@ == after_body(mac_key@, old(absorbed)@, body@),
{
    push_all(absorbed, body);
    let tag: [u8; 16] = tag_of(absorbed.as_slice());
    let block: [u8; 16] = encrypt_block(mac_key, &tag);
    let seed: Vec<u8> = xor_bytes(&tag, &block);
    push_all(absorbed, seed.as_slice());
}

/// Puts `data` in a frame and moves the egress state of the session on.
///
/// Fails with `MessageTooLong`, and leaves the session as it is, where
/// `data` is longer than three bytes can say or the keystream is used up.
pub fn seal_frame(session: &mut SessionSecrets, data: &[u8]) -> (r: Result<
    Vec<u8>,
    HandshakeError,
>)
    ensures
        match r {
            Ok(frame) => can_seal(old(session)@, data@.len() as int) && (frame@, final(session)@)
                == frame_sealed(old(session)@, data@),
            Err(e) => e == HandshakeError::MessageTooLong && !can_seal(
                old(session)@,
                data@.len() as int,
            ) && final(session)@ == old(session)@,
        },
{
    if data.len() > MAX_FRAME_DATA || session.egress_offset > STREAM_LIMIT {
        return Err(HandshakeError::MessageTooLong);
    }
    let size: usize = data.len();
    let padded_size: usize = (size + 15) / 16 * 16;
    let clear_header: [u8; 16] = [
        (size / 0x1_0000) as u8,
        (size / 0x100 % 0x100) as u8,
        (size % 0x100) as u8,
        0xc2,
        0x80,
        0x80,
        0,
        0,
        0,
        0,
        0,
        0,
        0,
        0,
        0,
        0,
    ];
    assert(clear_header@ =~= frame_header(size as int));
    let header_stream: Vec<u8> = keystream256(&session.aes_key, session.egress_offset, BLOCK_LEN);
    let header: Vec<u8> = xor_bytes(&clear_header, header_stream.as_slice());
    let mut absorbed: Vec<u8> = copy_range(
        session.egress_mac.as_slice(),
        0,
        session.egress_mac.len(),
    );
    assert(absorbed@ =~= session.egress_mac@);
    absorb_header(&session.mac_key, &mut absorbed, header.as_slice());
    let header_tag: [u8; 16] = tag_of(absorbed.as_slice());
    let mut padded: Vec<u8> = copy_range(data, 0, size);
    assert(padded@ =~= data@);
    let mut i: usize = size;
    while i < padded_size
        invariant
            size <= i <= padded_size,
            padded@ == data@ + zeros((i - size) as nat),
        decreases padded_size - i,
    {
        padded.push(0);
        i += 1;
        assert(padded@ =~= data@ + zeros((i - size) as nat));
    }
    let body_stream: Vec<u8> = keystream256(
        &session.aes_key,
        session.egress_offset + BLOCK_LEN as u64,
        padded_size,
    );
    let body: Vec<u8> = xor_bytes(padded.as_slice(), body_stream.as_slice());
    absorb_body(&session.mac_key, &mut absorbed, body.as_slice());
    let body_tag: [u8; 16] = tag_of(absorbed.as_slice());
    let mut frame: Vec<u8> = Vec::new();
    push_all(&mut frame, header.as_slice());
    push_all(&mut frame, &header_tag);
    push_all(&mut frame, body.as_slice());
    push_all(&mut frame, &body_tag);
    session.egress_mac = absorbed;
    session.egress_offset = session.egress_offset + BLOCK_LEN as u64 + padded_size as u64;
    Ok(frame)
}

/// Takes the frame at the front of `bytes` and moves the ingress state of
/// the session on.
///
/// Fails with `FrameTooShort` where the bytes end before the frame does, with
/// `MacMismatch` where the header tag or the body tag does not verify, and
/// with `MessageTooLong` where the keystream is used up. A failure leaves
/// the session as it is.
pub fn open_frame(session: &mut SessionSecrets, bytes: &[u8]) -> (r: Result<
    Vec<u8>,
    HandshakeError,
>)
    ensures
        match r {
            Ok(data) => frame_opened(old(session)@, bytes@) == Ok::<
                (Seq<u8>, SessionView),
                HandshakeError,
            >((data@, final(session)@)),
            Err(e) => frame_opened(old(session)@, bytes@) == Err::<
                (Seq<u8>, SessionView),
                HandshakeError,
            >(e) && final(session)@ == old(session)@,
        },
{
    if session.ingress_offset > STREAM_LIMIT {
        return Err(HandshakeError::MessageTooLong);
    }
    if bytes.len() < 2 * BLOCK_LEN {
        return Err(HandshakeError::FrameTooShort);
    }
    let header: &[u8] = vstd::slice::slice_subrange(bytes, 0, 16);
    let mut absorbed: Vec<u8> = copy_range(
        session.ingress_mac.as_slice(),
        0,
        session.ingress_mac.len(),
    );
    assert(absorbed@ =~= session.ingress_mac@);
    absorb_header(&session.mac_key, &mut absorbed, header);
    let header_tag: [u8; 16] = tag_of(absorbed.as_slice());
    if !same_bytes(vstd::slice::slice_subrange(bytes, 16, 32), &header_tag) {
        return Err(HandshakeError::MacMismatch);
    }
    let header_stream: Vec<u8> = keystream256(&session.aes_key, session.ingress_offset, BLOCK_LEN);
    let clear_header: Vec<u8> = xor_bytes(header, header_stream.as_slice());
    let size: usize = clear_header[0] as usize * 0x1_0000 + clear_header[1] as usize * 0x100
        + clear_header[2] as usize;
    let padded_size: usize = (size + 15) / 16 * 16;
    if bytes.len() < 3 * BLOCK_LEN + padded_size {
        return Err(HandshakeError::FrameTooShort);
    }
    let body: &[u8] = vstd::slice::slice_subrange(bytes, 32, 32 + padded_size);
    absorb_body(&session.mac_key, &mut absorbed, body);
    let body_tag: [u8; 16] = tag_of(absorbed.as_slice());
    let received_tag: &[u8] = vstd::slice::slice_subrange(
        bytes,
        32 + padded_size,
        48 + padded_size,
    );
    if !same_bytes(received_tag, &body_tag) {
        return Err(HandshakeError::MacMismatch);
    }
    let body_stream: Vec<u8> = keystream256(
        &session.aes_key,
        session.ingress_offset + BLOCK_LEN as u64,
        padded_size,
    );
    let clear: Vec<u8> = xor_bytes(body, body_stream.as_slice());
    let data: Vec<u8> = copy_range(clear.as_slice(), 0, size);
    session.ingress_mac = absorbed;
    session.ingress_offset = session.ingress_offset + BLOCK_LEN as u64 + padded_size as u64;
    Ok(data)
}

/// The frame that carries a message of type `message_type` with `payload`,
/// and the session after sending it.
///
/// The frame's data is the byte of the type and the payload. A type from
/// 0x80 on has no single byte and is no message type.
pub open spec fn frame_written(s: SessionView, message_type: u8, payload: Seq<u8>) -> Result<
    (Seq<u8>, SessionView),
    HandshakeError,
> {
    if message_type >= 0x80 {
        Err(HandshakeError::InvalidStructuredEncoding)
    } else if !can_seal(s, (1 + payload.len()) as int) {
        Err(HandshakeError::MessageTooLong)
    } else {
        Ok(frame_sealed(s, seq![single_byte_of(message_type)] + payload))
    }
}

/// The type and the payload of the message in the frame at the front of
/// `bytes`, and the session after receiving it.
pub open spec fn frame_read(s: SessionView, bytes: Seq<u8>) -> Result<
    ((u8, Seq<u8>), SessionView),
    HandshakeError,
> {
    match frame_opened(s, bytes) {
        Err(e) => Err(e),
        Ok((data, after)) => if data.len() == 0 {
            Err(HandshakeError::InvalidStructuredEncoding)
        } else {
            match single_byte_value(data[0]) {
                None => Err(HandshakeError::InvalidStructuredEncoding),
                Some(message_type) => Ok(((message_type, data.skip(1)), after)),
            }
        },
    }
}

/// Puts a message in a frame, ready to be written, and moves the egress
/// state of the session on.
///
/// Fails with `InvalidStructuredEncoding` where `message_type` is 0x80 or
/// more, and with `MessageTooLong` where type and payload are longer than
/// three bytes can say or the keystream is used up. A failure leaves the
/// session as it is.
pub fn encrypt_frame(session: &mut SessionSecrets, message_type: u8, payload: &[u8]) -> (r: Result<
    Vec<u8>,
    HandshakeError,
>)
    ensures
        match r {
            Ok(frame) => frame_written(old(session)@, message_type, payload@) == Ok::<
                (Seq<u8>, SessionView),
                HandshakeError,
            >((frame@, final(session)@)),
            Err(e) => frame_written(old(session)@, message_type, payload@) == Err::<
                (Seq<u8>, SessionView),
                HandshakeError,
            >(e) && final(session)@ == old(session)@,
        },
{
    if message_type >= 0x80 {
        return Err(HandshakeError::InvalidStructuredEncoding);
    }
    if payload.len() >= MAX_FRAME_DATA {
        return Err(HandshakeError::MessageTooLong);
    }
    let mut data: Vec<u8> = Vec::new();
    data.push(if message_type == 0 { 0x80 } else { message_type });
    push_all(&mut data, payload);
    assert(data@ =~= seq![single_byte_of(message_type)] + payload@);
    seal_frame(session, data.as_slice())
}

/// Takes the message out of the frame at the front of `bytes` and moves the
/// ingress state of the session on.
///
/// Fails as `open_frame` does, and with `InvalidStructuredEncoding` where
/// the frame is empty or its first byte is no message type. A failure leaves
/// the session as it is.
pub fn decrypt_frame(session: &mut SessionSecrets, bytes: &[u8]) -> (r: Result<
    (u8, Vec<u8>),
    HandshakeError,
>)
    ensures
        match r {
            Ok(message) => frame_read(old(session)@, bytes@) == Ok::<
                ((u8, Seq<u8>), SessionView),
                HandshakeError,
            >(((message.0, message.1@), final(session)@)),
            Err(e) => frame_read(old(session)@, bytes@) == Err::<
                ((u8, Seq<u8>), SessionView),
                HandshakeError,
            >(e) && final(session)@ == old(session)@,
        },
{
    let ingress_mac: Vec<u8> = copy_range(
        session.ingress_mac.as_slice(),
        0,
        session.ingress_mac.len(),
    );
    assert(ingress_mac@ =~= session.ingress_mac@);
    let ingress_offset: u64 = session.ingress_offset;
    let data: Vec<u8> = match open_frame(session, bytes) {
        Ok(data) => data,
        Err(e) => { return Err(e); },
    };
    let message_type: Option<u8> = if data.len() == 0 {
        None
    } else {
        decode_single_byte(data[0])
    };
    match message_type {
        Some(message_type) => {
            let payload: Vec<u8> = copy_range(data.as_slice(), 1, data.len());
            assert(payload@ =~= data@.skip(1));
            Ok((message_type, payload))
        },
        None => {
            session.ingress_mac = ingress_mac;
            session.ingress_offset = ingress_offset;
            assert(session@ =~= old(session)@);
            Err(HandshakeError::InvalidStructuredEncoding)
        },
    }
}

/// The size that a header announces is the size that was written in it.
pub proof fn lemma_frame_size_round_trip(size: int)
    requires
        0 <= size <= MAX_FRAME_DATA,
    ensures
        frame_header(size).len() == BLOCK_LEN,
        frame_size_of(frame_header(size)) == size,
{
}

/// A frame that one side seals, the other side opens: it finds the data that
/// was sealed, and its ingress state moves as the sender's egress state did.
pub proof fn lemma_sealed_frame_opens(sender: SessionView, receiver: SessionView, data: Seq<u8>)
    requires
        sender.sends_to(receiver),
        can_seal(sender, data.len() as int),
    ensures
        frame_opened(receiver, frame_sealed(sender, data).0) == Ok::<
            (Seq<u8>, SessionView),
            HandshakeError,
        >(
            (
                data,
                SessionView {
                    ingress_mac: frame_sealed(sender, data).1.egress_mac,
                    ingress_offset: frame_sealed(sender, data).1.egress_offset,
                    ..receiver
                },
            ),
        ),
        frame_sealed(sender, data).1.sends_to(
            frame_opened(receiver, frame_sealed(sender, data).0)->Ok_0.1,
        ),
{
    let size = data.len() as int;
    let padded_size = padded_len(size);
    let padded = data + zeros((padded_size - size) as nat);
    let header_stream = aes256_keystream(sender.aes_key, sender.egress_offset, BLOCK_LEN);
    let clear_header = frame_header(size);
    let header = xor(clear_header, header_stream);
    let after_one = after_header(sender.mac_key, sender.egress_mac, header);
    let body_stream = aes256_keystream(
        sender.aes_key,
        (sender.egress_offset + BLOCK_LEN) as u64,
        padded.len() as usize,
    );
    let body = xor(padded, body_stream);
    let after_two = after_body(sender.mac_key, after_one, body);
    let bytes = frame_sealed(sender, data).0;
    assert(bytes == header + mac_tag(after_one) + body + mac_tag(after_two));
    assert(padded.len() == padded_size);
    assert(header.len() == 16);
    assert(body.len() == padded_size);
    assert(bytes.len() == 48 + padded_size);
    assert(bytes.subrange(0, 16) =~= header);
    assert(bytes.subrange(16, 32) =~= mac_tag(after_one));
    lemma_frame_size_round_trip(size);
    crate::cipher::lemma_xor_twice(clear_header, header_stream);
    assert(frame_size_of(xor(header, header_stream)) == size);
    assert(bytes.subrange(32, 32 + padded_size) =~= body);
    assert(bytes.subrange(32 + padded_size, 48 + padded_size) =~= mac_tag(after_two));
    crate::cipher::lemma_xor_twice(padded, body_stream);
    assert(padded.subrange(0, size) =~= data);
    assert(padded_size as usize == padded.len() as usize);
}

/// A frame is opened only if both of its tags are those that the receiver
/// computes over the header and the body as they arrived: bytes that were
/// changed on the way are never taken for a frame unless the tags fit them.
pub proof fn lemma_opened_frame_has_valid_tags(s: SessionView, bytes: Seq<u8>)
    requires
        frame_opened(s, bytes) is Ok,
    ensures
        ({
            let header = bytes.subrange(0, 16);
            let after_one = after_header(s.mac_key, s.ingress_mac, header);
            let padded = padded_len(
                frame_size_of(
                    xor(header, aes256_keystream(s.aes_key, s.ingress_offset, BLOCK_LEN)),
                ),
            );
            let after_two = after_body(s.mac_key, after_one, bytes.subrange(32, 32 + padded));
            &&& bytes.len() >= MIN_FRAME_LEN + padded
            &&& bytes.subrange(16, 32) == mac_tag(after_one)
            &&& bytes.subrange(32 + padded, 48 + padded) == mac_tag(after_two)
            &&& frame_opened(s, bytes)->Ok_0.1.ingress_mac == after_two
        }),
{
}

/// The four parts of a sealed frame: the header under the cipher, its tag,
/// the padded body under the cipher, and its tag.
pub proof fn lemma_sealed_frame_layout(sender: SessionView, data: Seq<u8>)
    requires
        can_seal(sender, data.len() as int),
    ensures
        ({
            let frame = frame_sealed(sender, data).0;
            let padded = padded_len(data.len() as int);
            let stream = aes256_keystream(sender.aes_key, sender.egress_offset, BLOCK_LEN);
            let after_one = after_header(sender.mac_key, sender.egress_mac, frame.subrange(0, 16));
            &&& frame.len() == MIN_FRAME_LEN + padded
            &&& frame.subrange(0, 16) == xor(frame_header(data.len() as int), stream)
            &&& frame_size_of(xor(frame.subrange(0, 16), stream)) == data.len()
            &&& frame.subrange(16, 32) == mac_tag(after_one)
            &&& frame.subrange(32 + padded, 48 + padded) == mac_tag(
                after_body(sender.mac_key, after_one, frame.subrange(32, 32 + padded)),
            )
        }),
{
    let size = data.len() as int;
    let padded_size = padded_len(size);
    let padded = data + zeros((padded_size - size) as nat);
    let stream = aes256_keystream(sender.aes_key, sender.egress_offset, BLOCK_LEN);
    let clear_header = frame_header(size);
    let header = xor(clear_header, stream);
    let after_one = after_header(sender.mac_key, sender.egress_mac, header);
    let body = xor(
        padded,
        aes256_keystream(
            sender.aes_key,
            (sender.egress_offset + BLOCK_LEN) as u64,
            padded.len() as usize,
        ),
    );
    let after_two = after_body(sender.mac_key, after_one, body);
    let frame = frame_sealed(sender, data).0;
    assert(frame == header + mac_tag(after_one) + body + mac_tag(after_two));
    assert(padded.len() == padded_size);
    assert(frame.subrange(0, 16) =~= header);
    assert(frame.subrange(16, 32) =~= mac_tag(after_one));
    assert(frame.subrange(32, 32 + padded_size) =~= body);
    assert(frame.subrange(32 + padded_size, 48 + padded_size) =~= mac_tag(after_two));
    lemma_frame_size_round_trip(size);
    crate::cipher::lemma_xor_twice(clear_header, stream);
}

/// A sealed frame whose header tag was changed on the way, and not its
/// header, is refused with `MacMismatch`, whatever follows.
pub proof fn lemma_changed_header_tag_is_refused(
    sender: SessionView,
    receiver: SessionView,
    data: Seq<u8>,
    changed: Seq<u8>,
)
    requires
        sender.sends_to(receiver),
        can_seal(sender, data.len() as int),
        changed.len() >= 2 * BLOCK_LEN,
        changed.subrange(0, 16) == frame_sealed(sender, data).0.subrange(0, 16),
        changed.subrange(16, 32) != frame_sealed(sender, data).0.subrange(16, 32),
    ensures
        frame_opened(receiver, changed) == Err::<(Seq<u8>, SessionView), HandshakeError>(
            HandshakeError::MacMismatch,
        ),
{
    lemma_sealed_frame_layout(sender, data);
}

/// A sealed frame whose body tag was changed on the way, and nothing before
/// it, is refused with `MacMismatch`.
pub proof fn lemma_changed_body_tag_is_refused(
    sender: SessionView,
    receiver: SessionView,
    data: Seq<u8>,
    changed: Seq<u8>,
)
    requires
        sender.sends_to(receiver),
        can_seal(sender, data.len() as int),
        changed.len() == frame_sealed(sender, data).0.len(),
        changed.subrange(0, changed.len() - 16) == frame_sealed(sender, data).0.subrange(
            0,
            changed.len() - 16,
        ),
        changed.subrange(changed.len() - 16, changed.len() as int) != frame_sealed(
            sender,
            data,
        ).0.subrange(changed.len() - 16, changed.len() as int),
    ensures
        frame_opened(receiver, changed) == Err::<(Seq<u8>, SessionView), HandshakeError>(
            HandshakeError::MacMismatch,
        ),
{
    lemma_sealed_frame_layout(sender, data);
    let frame = frame_sealed(sender, data).0;
    let padded = padded_len(data.len() as int);
    let front = changed.subrange(0, changed.len() - 16);
    let frame_front = frame.subrange(0, frame.len() - 16);
    assert(changed.subrange(0, 16) =~= front.subrange(0, 16));
    assert(frame.subrange(0, 16) =~= frame_front.subrange(0, 16));
    assert(changed.subrange(16, 32) =~= front.subrange(16, 32));
    assert(frame.subrange(16, 32) =~= frame_front.subrange(16, 32));
    assert(changed.subrange(32, 32 + padded) =~= front.subrange(32, 32 + padded));
    assert(frame.subrange(32, 32 + padded) =~= frame_front.subrange(32, 32 + padded));
}

/// A message that one side puts in a frame, the other side reads: the same
/// type and the same payload, whatever they are.
pub proof fn lemma_frame_round_trip(
    sender: SessionView,
    receiver: SessionView,
    message_type: u8,
    payload: Seq<u8>,
)
    requires
        sender.sends_to(receiver),
        frame_written(sender, message_type, payload) is Ok,
    ensures
        frame_read(receiver, frame_written(sender, message_type, payload)->Ok_0.0) is Ok,
        frame_read(receiver, frame_written(sender, message_type, payload)->Ok_0.0)->Ok_0.0 == (
            message_type,
            payload,
        ),
        frame_written(sender, message_type, payload)->Ok_0.1.sends_to(
            frame_read(receiver, frame_written(sender, message_type, payload)->Ok_0.0)->Ok_0.1,
        ),
{
    let data = seq![single_byte_of(message_type)] + payload;
    let sealed = frame_sealed(sender, data);
    assert(message_type < 0x80 && can_seal(sender, data.len() as int));
    assert(frame_written(sender, message_type, payload) == Ok::<
        (Seq<u8>, SessionView),
        HandshakeError,
    >(sealed));
    let opened = frame_opened(receiver, sealed.0);
    assert(opened is Ok && opened->Ok_0.0 == data && sealed.1.sends_to(opened->Ok_0.1)) by {
        lemma_sealed_frame_opens(sender, receiver, data);
    }
    assert(data.len() > 0 && single_byte_value(data[0]) == Some(message_type)) by {
        assert(data[0] == single_byte_of(message_type));
    }
    assert(data.skip(1) =~= payload);
}

} // verus!
