//! The two messages of the key agreement: the authentication that the
//! initiator sends, and the acknowledgement that comes back.

use vstd::prelude::*;
use crate::bytes::{array_from, push_all};
use crate::cipher::{xor, xor_bytes};
use crate::ecies::{seal, sealed, MAX_SEALED_BODY};
use crate::error::HandshakeError;
use crate::keys::{
    convert_bytes_to_public_key, generate_ephemeral_keypair, is_public_key,
    public_point_of, recoverable_signature, shared_x, uncompressed, PublicKey, SecretKey,
};
use crate::random::{random_between, random_bytes};
use crate::rlp_items::{
    bytes_at, encode_bytes, encode_list, encode_u64, read_bytes_at, rlp_of_bytes, rlp_of_list,
    rlp_of_u64,
};

verus! {

/// The version that the authentication message announces.
pub const AUTH_VERSION: u64 = 4;

/// The least number of padding bytes behind an authentication message.
pub const MIN_PADDING: usize = 100;

/// The greatest number of padding bytes behind an authentication message.
pub const MAX_PADDING: usize = 300;

/// Bytes of a nonce.
pub const NONCE_LEN: usize = 32;

/// `n` zero bytes.
pub open spec fn zeros(n: nat) -> Seq<u8> {
    Seq::new(n, |i: int| 0u8)
}

/// What the initiator signs: its nonce, exclusive-or the secret that its
/// long-term key shares with the peer's.
pub open spec fn auth_token(local: Seq<u8>, remote: Seq<u8>, nonce: Seq<u8>) -> Seq<u8> {
    xor(nonce, shared_x(uncompressed(remote), local))
}

/// The authentication before it is sealed: the list of the signature of the
/// token under the one-time key, the initiator's public key, its nonce and
/// the version, and `padding` zero bytes behind it.
pub open spec fn auth_plaintext(
    local: Seq<u8>,
    remote: Seq<u8>,
    ephemeral: Seq<u8>,
    nonce: Seq<u8>,
    padding: usize,
) -> Seq<u8> {
    rlp_of_list(
        rlp_of_bytes(recoverable_signature(auth_token(local, remote, nonce), ephemeral))
            + rlp_of_bytes(public_point_of(local).skip(1)) + rlp_of_bytes(nonce) + rlp_of_u64(
            AUTH_VERSION,
        ),
    ) + zeros(padding as nat)
}

/// The authentication message: the plaintext sealed to the peer's public
/// key; `None` where it is too long to be sealed.
pub open spec fn auth_message_of(
    local: Seq<u8>,
    remote: Seq<u8>,
    ephemeral: Seq<u8>,
    nonce: Seq<u8>,
    padding: usize,
    sealing: Seq<u8>,
    iv: Seq<u8>,
) -> Option<Seq<u8>> {
    let plaintext = auth_plaintext(local, remote, ephemeral, nonce, padding);
    if plaintext.len() > MAX_SEALED_BODY {
        None
    } else {
        Some(sealed(remote, sealing, iv, plaintext))
    }
}

/// Builds the authentication message from the keys and from what was drawn
/// at random for it: the one-time key `ephemeral`, the nonce, the number of
/// padding bytes, and the key and counter start of the seal.
///
/// Fails with `MessageTooLong` where the padded message does not fit the
/// length field of the seal.
pub fn auth_message(
    local: &SecretKey,
    remote: &PublicKey,
    ephemeral: &SecretKey,
    nonce: &[u8; 32],
    padding: usize,
    sealing: &SecretKey,
    iv: &[u8; 16],
) -> (r: Result<Vec<u8>, HandshakeError>)
    ensures
        match r {
            Ok(message) => auth_message_of(
                local@,
                remote@,
                ephemeral@,
                nonce@,
                padding,
                sealing@,
                iv@,
            ) == Some(message@),
            Err(e) => e == HandshakeError::MessageTooLong && auth_message_of(
                local@,
                remote@,
                ephemeral@,
                nonce@,
                padding,
                sealing@,
                iv@,
            ) is None,
        },
{
    let shared: [u8; 32] = local.shared_secret(remote);
    let token_bytes: Vec<u8> = xor_bytes(nonce, &shared);
    let token: [u8; 32] = array_from::<32>(token_bytes.as_slice(), 0);
    assert(token@ =~= auth_token(local@, remote@, nonce@));
    let signature: [u8; 65] = ephemeral.sign_recoverable(&token);
    let public: [u8; 64] = local.public_key().to_bytes();
    assert(public@ =~= public_point_of(local@).skip(1)) by {
        assert(uncompressed(public@).skip(1) =~= public@);
    }
    let mut items: Vec<u8> = encode_bytes(&signature);
    let public_item: Vec<u8> = encode_bytes(&public);
    push_all(&mut items, public_item.as_slice());
    let nonce_item: Vec<u8> = encode_bytes(nonce);
    push_all(&mut items, nonce_item.as_slice());
    let version_item: Vec<u8> = encode_u64(AUTH_VERSION);
    push_all(&mut items, version_item.as_slice());
    let mut plaintext: Vec<u8> = encode_list(items.as_slice());
    let ghost body = plaintext@;
    if plaintext.len() > MAX_SEALED_BODY || padding > MAX_SEALED_BODY - plaintext.len() {
        assert((body + zeros(padding as nat)).len() == body.len() + padding);
        return Err(HandshakeError::MessageTooLong);
    }
    let mut i: usize = 0;
    while i < padding
        invariant
            i <= padding,
            body.len() + padding <= MAX_SEALED_BODY,
            plaintext@ == body + zeros(i as nat),
        decreases padding - i,
    {
        plaintext.push(0);
        i += 1;
        assert(plaintext@ =~= body + zeros(i as nat));
    }
    Ok(seal(remote, sealing, iv, plaintext.as_slice()))
}

/// What the initiator keeps of its authentication: the one-time key, the
/// nonce, and the message as it goes on the wire.
#[derive(Debug)]
pub struct AuthMessage {
    /// The secret key made for this handshake attempt.
    pub ephemeral: SecretKey,
    /// The nonce drawn for this handshake attempt.
    pub nonce: [u8; 32],
    /// The sealed message.
    pub ciphertext: Vec<u8>,
}

/// `ciphertext` is the authentication message for the keys `local` and
/// `remote`, the one-time key `ephemeral`, the nonce, and these drawn values:
/// `padding` bytes within the bounds, and the key and counter start of the
/// seal.
pub open spec fn was_drawn_for(
    local: Seq<u8>,
    remote: Seq<u8>,
    ephemeral: Seq<u8>,
    nonce: Seq<u8>,
    ciphertext: Seq<u8>,
    padding: usize,
    sealing: Seq<u8>,
    iv: Seq<u8>,
) -> bool {
    &&& MIN_PADDING <= padding <= MAX_PADDING
    &&& auth_message_of(local, remote, ephemeral, nonce, padding, sealing, iv) == Some(ciphertext)
}

/// `ciphertext` is the authentication message for the keys `local` and
/// `remote`, the one-time key `ephemeral`, the nonce, and some values that
/// could have been drawn.
pub open spec fn is_auth_message(
    local: Seq<u8>,
    remote: Seq<u8>,
    ephemeral: Seq<u8>,
    nonce: Seq<u8>,
    ciphertext: Seq<u8>,
) -> bool {
    exists|padding: usize, sealing: Seq<u8>, iv: Seq<u8>|
        was_drawn_for(local, remote, ephemeral, nonce, ciphertext, padding, sealing, iv)
}

/// Some values that could have been drawn give an authentication for the keys
/// `local` and `remote` that is too long to be sealed.
pub open spec fn may_not_fit(local: Seq<u8>, remote: Seq<u8>) -> bool {
    exists|ephemeral: Seq<u8>, nonce: Seq<u8>, padding: usize, sealing: Seq<u8>, iv: Seq<u8>|
        did_not_fit(local, remote, ephemeral, nonce, padding, sealing, iv)
}

/// These drawn values, with `padding` within the bounds, give an
/// authentication for the keys `local` and `remote` that is too long to be
/// sealed.
pub open spec fn did_not_fit(
    local: Seq<u8>,
    remote: Seq<u8>,
    ephemeral: Seq<u8>,
    nonce: Seq<u8>,
    padding: usize,
    sealing: Seq<u8>,
    iv: Seq<u8>,
) -> bool {
    &&& MIN_PADDING <= padding <= MAX_PADDING
    &&& auth_message_of(local, remote, ephemeral, nonce, padding, sealing, iv) is None
}

/// `auth` holds the authentication message for the keys `local` and `remote`.
pub open spec fn is_auth_for(local: Seq<u8>, remote: Seq<u8>, auth: AuthMessage) -> bool {
    is_auth_message(local, remote, auth.ephemeral@, auth.nonce@, auth.ciphertext@)
}

/// Builds the authentication message for the peer with the public key
/// `remote_public`, with a fresh one-time key, nonce, padding and seal.
///
/// The message is that of `auth_message` for the values drawn; the one-time
/// key and the nonce are handed back with it. Fails with `MessageTooLong`
/// where `auth_message` does for the values drawn.
pub fn build_auth_message(local_private: &SecretKey, remote_public: &PublicKey) -> (r: Result<
    AuthMessage,
    HandshakeError,
>)
    ensures
        match r {
            Ok(auth) => is_auth_for(local_private@, remote_public@, auth),
            Err(e) => e == HandshakeError::MessageTooLong && may_not_fit(
                local_private@,
                remote_public@,
            ),
        },
{
    let (ephemeral, _) = generate_ephemeral_keypair();
    let (sealing, _) = generate_ephemeral_keypair();
    let nonce_bytes: Vec<u8> = random_bytes(NONCE_LEN);
    let nonce: [u8; 32] = array_from::<32>(nonce_bytes.as_slice(), 0);
    let iv_bytes: Vec<u8> = random_bytes(16);
    let iv: [u8; 16] = array_from::<16>(iv_bytes.as_slice(), 0);
    let padding: usize = random_between(MIN_PADDING, MAX_PADDING);
    match auth_message(local_private, remote_public, &ephemeral, &nonce, padding, &sealing, &iv) {
        Ok(ciphertext) => {
            let auth = AuthMessage { ephemeral, nonce, ciphertext };
            assert(was_drawn_for(
                local_private@,
                remote_public@,
                auth.ephemeral@,
                auth.nonce@,
                auth.ciphertext@,
                padding,
                sealing@,
                iv@,
            ));
            Ok(auth)
        },
        Err(e) => {
            assert(did_not_fit(
                local_private@,
                remote_public@,
                ephemeral@,
                nonce@,
                padding,
                sealing@,
                iv@,
            ));
            Err(e)
        },
    }
}

/// What the acknowledgement tells the initiator: the peer's one-time public
/// key and the peer's nonce.
#[derive(Debug)]
pub struct AckBody {
    /// The peer's public key for this handshake attempt.
    pub remote_ephemeral: PublicKey,
    /// The peer's nonce.
    pub remote_nonce: [u8; 32],
}

/// What an acknowledgement holds: a list whose first item is the 64 bytes of
/// a public key and whose second item is a nonce of 32 bytes.
pub open spec fn ack_of(plaintext: Seq<u8>) -> Result<(Seq<u8>, Seq<u8>), HandshakeError> {
    let key = bytes_at(plaintext, 0);
    let nonce = bytes_at(plaintext, 1);
    if key is None || nonce is None {
        Err(HandshakeError::InvalidStructuredEncoding)
    } else if !is_public_key(key->Some_0) {
        Err(HandshakeError::InvalidPublicKey)
    } else if nonce->Some_0.len() != NONCE_LEN {
        Err(HandshakeError::DerivationFailure)
    } else {
        Ok((key->Some_0, nonce->Some_0))
    }
}

/// Reads the opened acknowledgement.
///
/// Fails with `InvalidStructuredEncoding` where an item cannot be read, with
/// `InvalidPublicKey` where the key is no point of the curve, and with
/// `DerivationFailure` where the nonce is not 32 bytes.
pub fn read_ack(plaintext: &[u8]) -> (r: Result<AckBody, HandshakeError>)
    ensures
        match r {
            Ok(ack) => ack_of(plaintext@) == Ok::<(Seq<u8>, Seq<u8>), HandshakeError>(
                (ack.remote_ephemeral@, ack.remote_nonce@),
            ),
            Err(e) => ack_of(plaintext@) == Err::<(Seq<u8>, Seq<u8>), HandshakeError>(e),
        },
{
    let key = read_bytes_at(plaintext, 0);
    let nonce = read_bytes_at(plaintext, 1);
    match (key, nonce) {
        (Some(key), Some(nonce)) => {
            let remote_ephemeral: PublicKey = match convert_bytes_to_public_key(key.as_slice()) {
                Ok(remote_ephemeral) => remote_ephemeral,
                Err(e) => { return Err(e); },
            };
            if nonce.len() != NONCE_LEN {
                return Err(HandshakeError::DerivationFailure);
            }
            let remote_nonce: [u8; 32] = array_from::<32>(nonce.as_slice(), 0);
            assert(remote_nonce@ =~= nonce@);
            Ok(AckBody { remote_ephemeral, remote_nonce })
        },
        _ => Err(HandshakeError::InvalidStructuredEncoding),
    }
}

} // verus!
