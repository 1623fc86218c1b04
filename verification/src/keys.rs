//! Keys on the curve secp256k1, held as the bytes that travel on the wire.
//!
//! The curve arithmetic is that of the `secp256k1` crate. A `PublicKey` and a
//! `SecretKey` of this module hold bytes that the crate has accepted, so the
//! operations on them cannot fail.

use vstd::prelude::*;
use crate::bytes::array_from;
use crate::error::HandshakeError;

verus! {

/// Bytes of a public key on the wire: the two coordinates.
pub const PUBLIC_KEY_LEN: usize = 64;

/// Bytes of a secret key.
pub const SECRET_KEY_LEN: usize = 32;

/// The first byte of a point in uncompressed form.
pub const UNCOMPRESSED_TAG: u8 = 4;

/// Whether `PublicKey::from_slice` of the `secp256k1` crate accepts `encoded`
/// as a point of the curve.
pub uninterp spec fn is_point_encoding(encoded: Seq<u8>) -> bool;

/// Whether `SecretKey::from_slice` of the `secp256k1` crate accepts `raw` as a
/// secret key.
pub uninterp spec fn is_secret_scalar(raw: Seq<u8>) -> bool;

/// The uncompressed form of the public key that belongs to the secret key
/// `secret`, as `PublicKey::from_secret_key` and `serialize_uncompressed`
/// give it.
pub uninterp spec fn public_point_of(secret: Seq<u8>) -> Seq<u8>;

/// The first coordinate of the product of the point encoded in `point` and
/// the secret key `secret`, as `ecdh::shared_secret_point` gives it.
pub uninterp spec fn shared_x(point: Seq<u8>, secret: Seq<u8>) -> Seq<u8>;

/// The recoverable signature of the 32-byte `digest` under `secret`, as
/// `sign_ecdsa_recoverable` gives it: 64 bytes, then the recovery id.
pub uninterp spec fn recoverable_signature(digest: Seq<u8>, secret: Seq<u8>) -> Seq<u8>;

/// The uncompressed form of a point given by its two coordinates.
pub open spec fn uncompressed(raw: Seq<u8>) -> Seq<u8> {
    seq![UNCOMPRESSED_TAG] + raw
}

/// Calls `secp256k1::PublicKey::from_slice`.
///
/// Trusted: whether the call accepts the bytes depends on the bytes alone.
#[verifier::external_body]
fn accepts_point(encoded: &[u8]) -> (ok: bool)
    ensures
        ok == is_point_encoding(encoded@),
{
    secp256k1::PublicKey::from_slice(encoded).is_ok()
}

/// Calls `secp256k1::SecretKey::from_slice`.
///
/// Trusted: whether the call accepts the bytes depends on the bytes alone.
#[verifier::external_body]
fn accepts_scalar(raw: &[u8]) -> (ok: bool)
    ensures
        ok == is_secret_scalar(raw@),
{
    secp256k1::SecretKey::from_slice(raw).is_ok()
}

/// Calls `secp256k1::SecretKey::new` on the thread's random generator.
///
/// Trusted: the call draws bytes until `secp256k1_ec_seckey_verify` accepts
/// them, the test that `SecretKey::from_slice` makes. Nothing else is
/// promised of the key.
#[verifier::external_body]
fn random_scalar() -> (raw: [u8; 32])
    ensures
        is_secret_scalar(raw@),
{
    secp256k1::SecretKey::new(&mut secp256k1::rand::thread_rng()).secret_bytes()
}

/// Calls `secp256k1::PublicKey::from_secret_key` and `serialize_uncompressed`.
///
/// Trusted: the 65 bytes depend on the secret key alone; they are the
/// uncompressed form of a point, which starts with the byte 4 and which
/// `PublicKey::from_slice` reads back.
#[verifier::external_body]
fn derive_point(secret: &[u8; 32]) -> (point: [u8; 65])
    requires
        is_secret_scalar(secret@),
    ensures
        point@ == public_point_of(secret@),
        point@[0] == UNCOMPRESSED_TAG,
        is_point_encoding(point@),
{
    let context = secp256k1::Secp256k1::signing_only();
    let key = secp256k1::SecretKey::from_slice(secret).unwrap();
    secp256k1::PublicKey::from_secret_key(&context, &key).serialize_uncompressed()
}

/// Calls `secp256k1::ecdh::shared_secret_point` and keeps the first
/// coordinate.
///
/// Trusted: the 32 bytes depend on the point and the secret key alone.
#[verifier::external_body]
fn multiply(point: &[u8], secret: &[u8; 32]) -> (x: [u8; 32])
    requires
        is_point_encoding(point@),
        is_secret_scalar(secret@),
    ensures
        x@ == shared_x(point@, secret@),
{
    let public = secp256k1::PublicKey::from_slice(point).unwrap();
    let key = secp256k1::SecretKey::from_slice(secret).unwrap();
    let xy = secp256k1::ecdh::shared_secret_point(&public, &key);
    let mut x = [0u8; 32];
    x.copy_from_slice(&xy[..32]);
    x
}

/// Calls `Secp256k1::sign_ecdsa_recoverable` and `serialize_compact`.
///
/// Trusted: the signature is made with the nonce of RFC 6979, so the 65
/// bytes depend on the digest and the secret key alone.
#[verifier::external_body]
fn sign(digest: &[u8; 32], secret: &[u8; 32]) -> (signature: [u8; 65])
    requires
        is_secret_scalar(secret@),
    ensures
        signature@ == recoverable_signature(digest@, secret@),
{
    let context = secp256k1::Secp256k1::signing_only();
    let key = secp256k1::SecretKey::from_slice(secret).unwrap();
    let message = secp256k1::Message::from_slice(digest).unwrap();
    let (id, compact) = context.sign_ecdsa_recoverable(&message, &key).serialize_compact();
    let mut signature = [0u8; 65];
    signature[..64].copy_from_slice(&compact);
    signature[64] = id.to_i32() as u8;
    signature
}

/// A point of the curve, held as its two coordinates.
#[derive(Clone, Copy, Debug, PartialEq, Eq)]
pub struct PublicKey {
    raw: [u8; 64],
}

/// A secret key of the curve.
#[derive(Clone, Copy, Debug, PartialEq, Eq)]
pub struct SecretKey {
    raw: [u8; 32],
}

impl View for PublicKey {
    type V = Seq<u8>;

    closed spec fn view(&self) -> Seq<u8> {
        self.raw@
    }
}

impl View for SecretKey {
    type V = Seq<u8>;

    closed spec fn view(&self) -> Seq<u8> {
        self.raw@
    }
}

/// The uncompressed form of a point: the byte 4, then the two coordinates.
fn with_tag(raw: &[u8; 64]) -> (encoded: [u8; 65])
    ensures
        encoded@ == uncompressed(raw@),
{
    let mut encoded: [u8; 65] = [UNCOMPRESSED_TAG; 65];
    let mut i: usize = 0;
    while i < 64
        invariant
            i <= 64,
            encoded@[0] == UNCOMPRESSED_TAG,
            forall|j: int| 0 <= j < i ==> encoded@[1 + j] == raw@[j],
        decreases 64 - i,
    {
        encoded[1 + i] = raw[i];
        i += 1;
    }
    assert(encoded@ =~= uncompressed(raw@));
    encoded
}

impl PublicKey {
    #[verifier::type_invariant]
    spec fn on_curve(self) -> bool {
        is_point_encoding(uncompressed(self.raw@))
    }

    /// The two coordinates, 64 bytes.
    pub fn to_bytes(&self) -> (raw: [u8; 64])
        ensures
            raw@ == self@,
            is_public_key(self@),
    {
        proof {
            use_type_invariant(self);
        }
        self.raw
    }

    /// The point in uncompressed form: the byte 4, then the two coordinates.
    pub fn to_uncompressed(&self) -> (encoded: [u8; 65])
        ensures
            encoded@ == uncompressed(self@),
            is_point_encoding(encoded@),
    {
        proof {
            use_type_invariant(self);
        }
        with_tag(&self.raw)
    }
}

impl SecretKey {
    #[verifier::type_invariant]
    spec fn in_range(self) -> bool {
        is_secret_scalar(self.raw@)
    }

    /// The key with these bytes, if they are 32 bytes that the curve accepts.
    pub fn from_bytes(raw: &[u8]) -> (key: Option<SecretKey>)
        ensures
            key is Some <==> raw@.len() == SECRET_KEY_LEN && is_secret_scalar(raw@),
            key is Some ==> key->Some_0@ == raw@,
    {
        if raw.len() != SECRET_KEY_LEN {
            return None;
        }
        let bytes: [u8; 32] = array_from::<32>(raw, 0);
        assert(bytes@ =~= raw@);
        if accepts_scalar(&bytes) {
            Some(SecretKey { raw: bytes })
        } else {
            None
        }
    }

    /// The 32 bytes of the key.
    pub fn to_bytes(&self) -> (raw: [u8; 32])
        ensures
            raw@ == self@,
            is_secret_scalar(self@),
    {
        proof {
            use_type_invariant(self);
        }
        self.raw
    }

    /// The public key that belongs to this secret key.
    pub fn public_key(&self) -> (public: PublicKey)
        ensures
            uncompressed(public@) == public_point_of(self@),
    {
        proof {
            use_type_invariant(self);
        }
        let point: [u8; 65] = derive_point(&self.raw);
        let raw: [u8; 64] = array_from::<64>(&point, 1);
        assert(uncompressed(raw@) =~= point@);
        PublicKey { raw }
    }

    /// The secret that this key shares with the other side's public key:
    /// the first coordinate of their product.
    pub fn shared_secret(&self, other: &PublicKey) -> (x: [u8; 32])
        ensures
            x@ == shared_x(uncompressed(other@), self@),
    {
        proof {
            use_type_invariant(self);
        }
        let point: [u8; 65] = other.to_uncompressed();
        multiply(&point, &self.raw)
    }

    /// The secret that this key shares with the point encoded in `point`, if
    /// the curve accepts the encoding.
    pub fn shared_secret_with_point(&self, point: &[u8]) -> (x: Option<[u8; 32]>)
        ensures
            x is Some <==> is_point_encoding(point@),
            x is Some ==> x->Some_0@ == shared_x(point@, self@),
    {
        proof {
            use_type_invariant(self);
        }
        if accepts_point(point) {
            Some(multiply(point, &self.raw))
        } else {
            None
        }
    }

    /// The recoverable signature of a 32-byte digest under this key.
    pub fn sign_recoverable(&self, digest: &[u8; 32]) -> (signature: [u8; 65])
        ensures
            signature@ == recoverable_signature(digest@, self@),
    {
        proof {
            use_type_invariant(self);
        }
        sign(digest, &self.raw)
    }
}

/// What `convert_bytes_to_public_key` accepts: 64 bytes that, behind the
/// byte 4, are a point of the curve.
pub open spec fn is_public_key(data: Seq<u8>) -> bool {
    data.len() == PUBLIC_KEY_LEN && is_point_encoding(uncompressed(data))
}

/// Makes a public key of the two coordinates in `data`.
///
/// Fails with `InvalidPublicKey` unless `data` is 64 bytes that the curve
/// accepts as a point once the byte 4 stands before them.
pub fn convert_bytes_to_public_key(data: &[u8]) -> (r: Result<PublicKey, HandshakeError>)
    ensures
        match r {
            Ok(key) => is_public_key(data@) && key@ == data@,
            Err(e) => !is_public_key(data@) && e == HandshakeError::InvalidPublicKey,
        },
{
    if data.len() != PUBLIC_KEY_LEN {
        return Err(HandshakeError::InvalidPublicKey);
    }
    let raw: [u8; 64] = array_from::<64>(data, 0);
    assert(raw@ =~= data@);
    let s: [u8; 65] = with_tag(&raw);
    if accepts_point(&s) {
        Ok(PublicKey { raw })
    } else {
        Err(HandshakeError::InvalidPublicKey)
    }
}

/// The value of one hexadecimal digit in ASCII, upper or lower case.
pub open spec fn hex_digit_value(c: u8) -> Option<u8> {
    if 0x30 <= c <= 0x39 {
        Some((c - 0x30) as u8)
    } else if 0x61 <= c <= 0x66 {
        Some((c - 0x61 + 10) as u8)
    } else if 0x41 <= c <= 0x46 {
        Some((c - 0x41 + 10) as u8)
    } else {
        None
    }
}

/// The bytes that a hexadecimal text stands for, two digits to a byte, where
/// it has an even number of characters and every one is a digit.
pub open spec fn hex_decoded(text: Seq<u8>) -> Option<Seq<u8>> {
    if text.len() % 2 != 0 {
        None
    } else if exists|i: int| 0 <= i < text.len() && hex_digit_value(text[i]) is None {
        None
    } else {
        Some(
            Seq::new(
                text.len() / 2,
                |i: int|
                    (hex_digit_value(text[2 * i])->Some_0 * 16 + hex_digit_value(
                        text[2 * i + 1],
                    )->Some_0) as u8,
            ),
        )
    }
}

/// `text` without the white space at its two ends, as `str::trim` gives it.
pub uninterp spec fn trimmed(text: Seq<char>) -> Seq<char>;

/// Calls `hex::decode`.
///
/// Trusted: the call fails on an odd number of characters and on a character
/// that is no digit from 0 to 9, a to f or A to F; else each pair of digits
/// gives one byte, the first digit its upper half.
#[verifier::external_body]
fn decode_hex(text: &[u8]) -> (bytes: Option<Vec<u8>>)
    ensures
        bytes is Some <==> hex_decoded(text@) is Some,
        bytes is Some ==> bytes->Some_0@ == hex_decoded(text@)->Some_0,
{
    hex::decode(text).ok()
}

/// Calls `str::trim`.
///
/// Trusted: the result depends on the text alone.
#[verifier::external_body]
fn trim(text: &str) -> (inner: &str)
    ensures
        inner@ == trimmed(text@),
{
    text.trim()
}

/// The coordinates that a node's identifier stands for: the text without
/// the white space around it, read as hexadecimal, if that gives a public
/// key.
pub open spec fn node_id_of(text: Seq<char>) -> Option<Seq<u8>> {
    match hex_decoded(vstd::utf8::encode_utf8(trimmed(text))) {
        Some(raw) => if is_public_key(raw) {
            Some(raw)
        } else {
            None
        },
        None => None,
    }
}

/// Reads the public key of a node out of its identifier: 128 hexadecimal
/// digits, with or without white space around them.
///
/// Fails with `InvalidPublicKey` where the text is no hexadecimal text or
/// its bytes are no public key.
pub fn parse_node_id(node_public_key: &str) -> (r: Result<PublicKey, HandshakeError>)
    ensures
        match r {
            Ok(key) => node_id_of(node_public_key@) == Some(key@),
            Err(e) => e == HandshakeError::InvalidPublicKey && node_id_of(node_public_key@)
                is None,
        },
{
    let id_decoded: Vec<u8> = match decode_hex(trim(node_public_key).as_bytes()) {
        Some(id_decoded) => id_decoded,
        None => { return Err(HandshakeError::InvalidPublicKey); },
    };
    convert_bytes_to_public_key(id_decoded.as_slice())
}

/// A fresh key pair for one handshake attempt.
///
/// The secret key is drawn at random; the public key is the one that belongs
/// to it.
pub fn generate_ephemeral_keypair() -> (pair: (SecretKey, PublicKey))
    ensures
        uncompressed(pair.1@) == public_point_of(pair.0@),
{
    let secret = SecretKey { raw: random_scalar() };
    let public = secret.public_key();
    (secret, public)
}

} // verus!
