//! The key agreement that opens the encrypted handshake: a message sealed to
//! the peer's public key, and the opening of the peer's answer.
//!
//! A sealed message is a two-byte length, the sender's one-time public key,
//! a counter start, the body under AES-128 in counter mode, and an
//! HMAC-SHA-256 tag over counter start, body and length.

use vstd::prelude::*;
use crate::bytes::{
    array_from, push_all, push_u16_be, same_bytes, u16_be_bytes, u16_from_be,
};
use crate::cipher::{aes128_keystream, keystream128, xor, xor_bytes};
use crate::error::HandshakeError;
use crate::hash::{hmac_sha256, hmac_sha256_tag, sha256, sha256_digest};
use crate::keys::{
    is_point_encoding, public_point_of, shared_x, uncompressed, PublicKey, SecretKey,
};

verus! {

/// Bytes of the length that stands before a sealed message.
pub const SIZE_PREFIX_LEN: usize = 2;

/// Bytes that sealing adds to a body: a public key in uncompressed form, a
/// counter start and a tag.
pub const SEAL_OVERHEAD: usize = 113;

/// The longest body that can be sealed: the length field has two bytes.
pub const MAX_SEALED_BODY: usize = 65422;

/// The 32 bytes of key material made of a shared secret: the SHA-256 digest
/// of the counter 1 in four bytes and the secret.
pub open spec fn key_material(secret: Seq<u8>) -> Seq<u8> {
    sha256_digest(seq![0u8, 0u8, 0u8, 1u8] + secret)
}

/// The key of the cipher: the first half of the key material.
pub open spec fn encryption_key(secret: Seq<u8>) -> Seq<u8> {
    key_material(secret).subrange(0, 16)
}

/// The key of the tag: the digest of the second half of the key material.
pub open spec fn tag_key(secret: Seq<u8>) -> Seq<u8> {
    sha256_digest(key_material(secret).subrange(16, 32))
}

/// `plaintext` sealed to the public key `remote`, with the one-time secret
/// key `sealing` and the counter start `iv`.
pub open spec fn sealed(remote: Seq<u8>, sealing: Seq<u8>, iv: Seq<u8>, plaintext: Seq<u8>) -> Seq<
    u8,
> {
    let secret = shared_x(uncompressed(remote), sealing);
    let prefix = u16_be_bytes((SEAL_OVERHEAD + plaintext.len()) as u16);
    let body = xor(
        plaintext,
        aes128_keystream(encryption_key(secret), iv, plaintext.len() as usize),
    );
    prefix + public_point_of(sealing) + iv + body + hmac_sha256_tag(
        tag_key(secret),
        iv + body + prefix,
    )
}

/// The number of bytes that the length before a sealed message announces.
pub open spec fn announced_size(message: Seq<u8>) -> int {
    u16_from_be(message.subrange(0, 2)) as int
}

/// The sealed message at the front of `message` is all there: its length,
/// and as many bytes as the length says, enough for key, counter start and
/// tag.
pub open spec fn is_sealed_frame(message: Seq<u8>) -> bool {
    &&& message.len() >= SIZE_PREFIX_LEN
    &&& announced_size(message) >= SEAL_OVERHEAD
    &&& message.len() >= SIZE_PREFIX_LEN + announced_size(message)
}

/// What the holder of `secret_key` reads in the sealed message at the front
/// of `message`; `None` where the message is cut short, its public key is no
/// point of the curve, or its tag does not verify.
pub open spec fn opened(secret_key: Seq<u8>, message: Seq<u8>) -> Option<Seq<u8>> {
    if !is_sealed_frame(message) {
        None
    } else {
        let end = SIZE_PREFIX_LEN + announced_size(message);
        let prefix = message.subrange(0, 2);
        let point = message.subrange(2, 67);
        let iv = message.subrange(67, 83);
        let body = message.subrange(83, end - 32);
        let tag = message.subrange(end - 32, end);
        let secret = shared_x(point, secret_key);
        if !is_point_encoding(point) {
            None
        } else if tag != hmac_sha256_tag(tag_key(secret), iv + body + prefix) {
            None
        } else {
            Some(xor(body, aes128_keystream(encryption_key(secret), iv, body.len() as usize)))
        }
    }
}

/// The two keys made of a shared secret.
fn derive_keys(secret: &[u8; 32]) -> (keys: ([u8; 16], [u8; 32]))
    ensures
        keys.0@ == encryption_key(secret@),
        keys.1@ == tag_key(secret@),
{
    let mut input: Vec<u8> = Vec::new();
    input.push(0);
    input.push(0);
    input.push(0);
    input.push(1);
    push_all(&mut input, secret);
    assert(input@ =~= seq![0u8, 0u8, 0u8, 1u8] + secret@);
    let material: [u8; 32] = sha256(input.as_slice());
    let encryption: [u8; 16] = array_from::<16>(&material, 0);
    let second: [u8; 16] = array_from::<16>(&material, 16);
    (encryption, sha256(&second))
}

/// Seals `plaintext` to the public key `remote`.
///
/// `sealing` is a secret key made for this one message, `iv` the start of
/// the counter.
pub fn seal(remote: &PublicKey, sealing: &SecretKey, iv: &[u8; 16], plaintext: &[u8]) -> (out: Vec<
    u8,
>)
    requires
        plaintext.len() <= MAX_SEALED_BODY,
    ensures
        out@ == sealed(remote@, sealing@, iv@, plaintext@),
{
    let secret: [u8; 32] = sealing.shared_secret(remote);
    let (encryption, tag_secret) = derive_keys(&secret);
    let stream: Vec<u8> = keystream128(&encryption, iv, plaintext.len());
    let body: Vec<u8> = xor_bytes(plaintext, stream.as_slice());
    let mut prefix: Vec<u8> = Vec::new();
    push_u16_be(&mut prefix, (SEAL_OVERHEAD + plaintext.len()) as u16);
    assert(prefix@ =~= u16_be_bytes((SEAL_OVERHEAD + plaintext.len()) as u16));
    let mut tagged: Vec<u8> = Vec::new();
    push_all(&mut tagged, iv);
    push_all(&mut tagged, body.as_slice());
    push_all(&mut tagged, prefix.as_slice());
    assert(tagged@ =~= iv@ + body@ + prefix@);
    let tag: [u8; 32] = hmac_sha256(&tag_secret, tagged.as_slice());
    let point: [u8; 65] = sealing.public_key().to_uncompressed();
    let mut out: Vec<u8> = Vec::new();
    push_all(&mut out, prefix.as_slice());
    push_all(&mut out, &point);
    push_all(&mut out, iv);
    push_all(&mut out, body.as_slice());
    push_all(&mut out, &tag);
    assert(out@ =~= sealed(remote@, sealing@, iv@, plaintext@));
    out
}

/// The number of bytes that the sealed message at the front of `message`
/// takes, if it is all there.
pub fn sealed_len(message: &[u8]) -> (len: Option<usize>)
    ensures
        len is Some <==> is_sealed_frame(message@),
        len is Some ==> len->Some_0 == SIZE_PREFIX_LEN + announced_size(message@),
{
    if message.len() < SIZE_PREFIX_LEN {
        return None;
    }
    let size: usize = (message[0] as usize) * 0x100 + message[1] as usize;
    assert(size == announced_size(message@));
    if size < SEAL_OVERHEAD || message.len() - SIZE_PREFIX_LEN < size {
        return None;
    }
    Some(SIZE_PREFIX_LEN + size)
}

/// Opens the peer's answer, sealed to our public key.
///
/// Bytes behind the sealed message are not looked at. Fails with
/// `DecryptionFailure` where the message is cut short, its public key is no
/// point of the curve, or its tag does not verify.
pub fn decrypt_response(local_private: &SecretKey, ciphertext: &[u8]) -> (r: Result<
    Vec<u8>,
    HandshakeError,
>)
    ensures
        match r {
            Ok(plaintext) => opened(local_private@, ciphertext@) == Some(plaintext@),
            Err(e) => e == HandshakeError::DecryptionFailure && opened(
                local_private@,
                ciphertext@,
            ) is None,
        },
{
    let end: usize = match sealed_len(ciphertext) {
        Some(end) => end,
        None => { return Err(HandshakeError::DecryptionFailure); },
    };
    let prefix: &[u8] = vstd::slice::slice_subrange(ciphertext, 0, 2);
    let point: &[u8] = vstd::slice::slice_subrange(ciphertext, 2, 67);
    let iv: [u8; 16] = array_from::<16>(ciphertext, 67);
    let body: &[u8] = vstd::slice::slice_subrange(ciphertext, 83, end - 32);
    let tag: &[u8] = vstd::slice::slice_subrange(ciphertext, end - 32, end);
    let secret: [u8; 32] = match local_private.shared_secret_with_point(point) {
        Some(secret) => secret,
        None => { return Err(HandshakeError::DecryptionFailure); },
    };
    let (encryption, tag_secret) = derive_keys(&secret);
    let mut tagged: Vec<u8> = Vec::new();
    push_all(&mut tagged, &iv);
    push_all(&mut tagged, body);
    push_all(&mut tagged, prefix);
    assert(tagged@ =~= iv@ + body@ + prefix@);
    let expected: [u8; 32] = hmac_sha256(&tag_secret, tagged.as_slice());
    if !same_bytes(tag, &expected) {
        return Err(HandshakeError::DecryptionFailure);
    }
    let stream: Vec<u8> = keystream128(&encryption, &iv, body.len());
    Ok(xor_bytes(body, stream.as_slice()))
}

} // verus!
