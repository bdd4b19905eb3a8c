use aes_gcm::aead::rand_core::RngCore;
use aes_gcm::aead::OsRng;
use rand::TryRngCore;
use vstd::prelude::*;

verus! {

/// `N` bytes from the operating system's random number generator.
///
/// Trusted: calls `OsRng::fill_bytes` on a fresh array. Nothing is promised of
/// the bytes: two calls may return anything. Where the operating system has
/// no randomness to give, the generator does not return.
#[verifier::external_body]
pub(crate) fn random_bytes<const N: usize>() -> (bytes: [u8; N]) {
    let mut bytes = [0u8; N];
    OsRng.fill_bytes(&mut bytes);
    bytes
}

/// 32 bytes from the operating system's random number generator, or `None`
/// where it fails.
///
/// Trusted: calls `OsRng::try_fill_bytes` of rand on a fresh array. Nothing
/// is promised of the outcome.
#[verifier::external_body]
pub(crate) fn try_random_seed() -> (seed: Option<[u8; 32]>) {
    let mut seed = [0u8; 32];
    match rand::rngs::OsRng.try_fill_bytes(&mut seed) {
        Ok(()) => Some(seed),
        Err(_) => None,
    }
}

} // verus!
