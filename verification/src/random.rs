//! Fresh random values, drawn once per handshake attempt.

use vstd::prelude::*;

verus! {

/// A fresh nonce for a version message.
///
/// Calls `rand::thread_rng` and `Rng::gen::<u64>`. Nothing is promised of the
/// value: two calls may give any two numbers.
#[verifier::external_body]
pub fn generate_nonce() -> (nonce: u64) {
    let mut rng = rand::thread_rng();
    rand::Rng::gen::<u64>(&mut rng)
}

/// `len` fresh random bytes.
///
/// Calls `rand::thread_rng` and `RngCore::fill_bytes`. Nothing is promised of
/// the bytes but their number.
#[verifier::external_body]
pub(crate) fn random_bytes(len: usize) -> (bytes: Vec<u8>)
    ensures
        bytes@.len() == len,
{
    let mut bytes = vec![0u8; len];
    rand::RngCore::fill_bytes(&mut rand::thread_rng(), &mut bytes);
    bytes
}

/// A random number from `low` to `high`, both included.
///
/// Calls `rand::thread_rng` and `Rng::gen_range`, which panics on an empty
/// range. Nothing is promised of the number but the range.
#[verifier::external_body]
pub(crate) fn random_between(low: usize, high: usize) -> (n: usize)
    requires
        low <= high,
    ensures
        low <= n <= high,
{
    rand::Rng::gen_range(&mut rand::thread_rng(), low..=high)
}

} // verus!
