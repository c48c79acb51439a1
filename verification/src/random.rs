//! Fresh random bytes from the caller's generator.

use vstd::prelude::*;

verus! {

/// Calls `rand::RngCore::fill_bytes` on a zeroed buffer of `n` bytes. Nothing
/// is said of the bytes that come out. A generator that cannot deliver, such
/// as the system's when it fails, panics in that call.
#[verifier::external_body]
pub(crate) fn random_bytes<R: rand::RngCore + rand::CryptoRng>(rng: &mut R, n: usize) -> (out: Vec<
    u8,
>)
    ensures
        out@.len() == n,
{
    let mut out = vec![0u8; n];
    rng.fill_bytes(&mut out);
    out
}

} // verus!
