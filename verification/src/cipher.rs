//! AES as the encrypted protocol uses it: a keystream in counter mode, and
//! single blocks for the frame tags.

use vstd::prelude::*;

verus! {

/// The `len` bytes that AES-128 in counter mode, with a 128-bit big-endian
/// counter that starts at `iv`, gives from the start of its keystream: what
/// `ctr::Ctr128BE<aes::Aes128>` makes of `len` zero bytes.
pub uninterp spec fn aes128_keystream(key: Seq<u8>, iv: Seq<u8>, len: usize) -> Seq<u8>;

/// The `len` bytes that AES-256 in counter mode, with a 128-bit big-endian
/// counter that starts at zero, gives from byte `offset` of its keystream on:
/// what `ctr::Ctr128BE<aes::Aes256>` makes of `len` zero bytes after a seek
/// to `offset`.
pub uninterp spec fn aes256_keystream(key: Seq<u8>, offset: u64, len: usize) -> Seq<u8>;

/// The AES-256 encryption of one block, as `aes::Aes256::encrypt_block` gives
/// it.
pub uninterp spec fn aes256_block(key: Seq<u8>, block: Seq<u8>) -> Seq<u8>;

/// Byte by byte, `a` exclusive-or `b`, as long as `a`.
pub open spec fn xor(a: Seq<u8>, b: Seq<u8>) -> Seq<u8> {
    Seq::new(a.len(), |i: int| a[i] ^ b[i])
}

/// Calls `ctr::Ctr128BE::<aes::Aes128>::new` and `apply_keystream` on zero
/// bytes.
///
/// Trusted: the bytes depend on the key, the counter's start and the length
/// alone, and there are `len` of them.
#[verifier::external_body]
pub(crate) fn keystream128(key: &[u8; 16], iv: &[u8; 16], len: usize) -> (stream: Vec<u8>)
    ensures
        stream@ == aes128_keystream(key@, iv@, len),
        stream@.len() == len,
{
    let mut stream = vec![0u8; len];
    let mut cipher =
        <ctr::Ctr128BE<aes::Aes128> as aes::cipher::KeyIvInit>::new(key.into(), iv.into());
    aes::cipher::StreamCipher::apply_keystream(&mut cipher, &mut stream);
    stream
}

/// Calls `ctr::Ctr128BE::<aes::Aes256>::new` with a zero counter, `seek` and
/// `apply_keystream` on zero bytes.
///
/// Trusted: the bytes depend on the key, the offset and the length alone,
/// and there are `len` of them.
#[verifier::external_body]
pub(crate) fn keystream256(key: &[u8; 32], offset: u64, len: usize) -> (stream: Vec<u8>)
    ensures
        stream@ == aes256_keystream(key@, offset, len),
        stream@.len() == len,
{
    let mut stream = vec![0u8; len];
    let iv = [0u8; 16];
    let mut cipher =
        <ctr::Ctr128BE<aes::Aes256> as aes::cipher::KeyIvInit>::new(key.into(), (&iv).into());
    aes::cipher::StreamCipherSeek::seek(&mut cipher, offset);
    aes::cipher::StreamCipher::apply_keystream(&mut cipher, &mut stream);
    stream
}

/// Calls `aes::Aes256::new` and `encrypt_block`.
///
/// Trusted: the 16 bytes depend on the key and the block alone.
#[verifier::external_body]
pub(crate) fn encrypt_block(key: &[u8; 32], block: &[u8; 16]) -> (out: [u8; 16])
    ensures
        out@ == aes256_block(key@, block@),
{
    let cipher = <aes::Aes256 as aes::cipher::KeyInit>::new(key.into());
    let mut out = aes::cipher::generic_array::GenericArray::clone_from_slice(block);
    aes::cipher::BlockEncrypt::encrypt_block(&cipher, &mut out);
    out.into()
}

/// Byte by byte, `a` exclusive-or `b`.
pub fn xor_bytes(a: &[u8], b: &[u8]) -> (out: Vec<u8>)
    requires
        a.len() <= b.len(),
    ensures
        out@ == xor(a@, b@),
{
    let mut out: Vec<u8> = Vec::new();
    let mut i: usize = 0;
    while i < a.len()
        invariant
            i <= a.len() <= b.len(),
            out@.len() == i,
            forall|j: int| 0 <= j < i ==> out@[j] == a@[j] ^ b@[j],
        decreases a.len() - i,
    {
        out.push(a[i] ^ b[i]);
        i += 1;
    }
    assert(out@ =~= xor(a@, b@));
    out
}

/// Applying the same bytes twice gives back what one started with.
pub proof fn lemma_xor_twice(a: Seq<u8>, b: Seq<u8>)
    ensures
        xor(xor(a, b), b) == a,
{
    assert forall|i: int| 0 <= i < a.len() implies (a[i] ^ b[i]) ^ b[i] == a[i] by {
        let x = a[i];
        let y = b[i];
        assert((x ^ y) ^ y == x) by (bit_vector);
    }
    assert(xor(xor(a, b), b) =~= a);
}

} // verus!
