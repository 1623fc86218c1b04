//! SHA-256 and the four-byte checksum built on it.

use vstd::prelude::*;

verus! {

/// The SHA-256 digest of `data`, as the `sha2` crate computes it.
pub uninterp spec fn sha256_digest(data: Seq<u8>) -> Seq<u8>;

/// The Keccak-256 digest of `data`, as the `sha3` crate computes it.
pub uninterp spec fn keccak256_digest(data: Seq<u8>) -> Seq<u8>;

/// The HMAC-SHA-256 tag of `data` under `key`, as the `hmac` crate computes
/// it.
pub uninterp spec fn hmac_sha256_tag(key: Seq<u8>, data: Seq<u8>) -> Seq<u8>;

/// The first four bytes of the digest of the digest of `payload`.
pub open spec fn checksum_of(payload: Seq<u8>) -> Seq<u8> {
    Seq::new(4, |i: int| sha256_digest(sha256_digest(payload))[i])
}

/// Calls `sha2::Sha256` (`new`, `update`, `finalize`) on `data`.
///
/// Trusted: the 32 bytes returned are the SHA-256 digest of `data`, a
/// function of the bytes of `data` alone.
#[verifier::external_body]
pub(crate) fn sha256(data: &[u8]) -> (digest: [u8; 32])
    ensures
        digest@ == sha256_digest(data@),
{
    let mut hasher = <sha2::Sha256 as sha2::Digest>::new();
    sha2::Digest::update(&mut hasher, data);
    sha2::Digest::finalize(hasher).into()
}

/// Calls `sha3::Keccak256` (`new`, `update`, `finalize`) on `data`.
///
/// Trusted: the 32 bytes returned are the Keccak-256 digest of `data`, a
/// function of the bytes of `data` alone.
#[verifier::external_body]
pub(crate) fn keccak256(data: &[u8]) -> (digest: [u8; 32])
    ensures
        digest@ == keccak256_digest(data@),
{
    let mut hasher = <sha3::Keccak256 as sha3::Digest>::new();
    sha3::Digest::update(&mut hasher, data);
    sha3::Digest::finalize(hasher).into()
}

/// Calls `hmac::Hmac<sha2::Sha256>` (`new_from_slice`, `update`, `finalize`).
///
/// Trusted: the 32 bytes returned are the tag of `data` under `key`, a
/// function of the two alone. HMAC takes a key of any length, so
/// `new_from_slice` does not fail.
#[verifier::external_body]
pub(crate) fn hmac_sha256(key: &[u8], data: &[u8]) -> (tag: [u8; 32])
    ensures
        tag@ == hmac_sha256_tag(key@, data@),
{
    let mut mac = <hmac::Hmac<sha2::Sha256> as hmac::Mac>::new_from_slice(key).unwrap();
    hmac::Mac::update(&mut mac, data);
    hmac::Mac::finalize(mac).into_bytes().into()
}

/// The checksum that guards a payload: the first four bytes of its double
/// SHA-256 digest.
pub fn calculate_checksum(data_buffer: &[u8]) -> (checksum: [u8; 4])
    ensures
        checksum@ == checksum_of(data_buffer@),
{
    let first_hash: [u8; 32] = sha256(data_buffer);
    let second_hash: [u8; 32] = sha256(&first_hash);
    let buf: [u8; 4] = [second_hash[0], second_hash[1], second_hash[2], second_hash[3]];
    assert(buf@ =~= checksum_of(data_buffer@));
    buf
}

} // verus!
