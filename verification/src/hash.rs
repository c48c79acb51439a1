//! The hash of the suite, SHA-512, and the two constructions over it that the
//! protocol uses: HKDF and HMAC. Their results are named here and not
//! restated.

use vstd::prelude::*;

verus! {

/// The length in bytes of a hash output.
pub const HASH_LEN: usize = 64;

/// The longest output that HKDF-Expand gives: 255 hash outputs.
pub const MAX_EXPAND_LEN: usize = 16320;

/// The SHA-512 digest of `msg`.
pub uninterp spec fn sha512(msg: Seq<u8>) -> Seq<u8>;

/// The pseudorandom key that HKDF-Extract gives for `salt` and `ikm`.
pub uninterp spec fn hkdf_extract(salt: Seq<u8>, ikm: Seq<u8>) -> Seq<u8>;

/// The first `len` bytes that HKDF-Expand gives for `prk` and `info`.
pub uninterp spec fn hkdf_expand(prk: Seq<u8>, info: Seq<u8>, len: nat) -> Seq<u8>;

/// The HMAC tag of `msg` under `key`.
pub uninterp spec fn hmac(key: Seq<u8>, msg: Seq<u8>) -> Seq<u8>;

/// Calls `sha2::Sha512::digest`. The digest has 64 bytes.
#[verifier::external_body]
pub(crate) fn hash(msg: &[u8]) -> (out: Vec<u8>)
    ensures
        out@ == sha512(msg@),
        out@.len() == HASH_LEN,
{
    <sha2::Sha512 as sha2::Digest>::digest(msg).to_vec()
}

/// Calls `hkdf::Hkdf::<sha2::Sha512>::extract` and keeps the pseudorandom
/// key, which has the length of a hash output.
#[verifier::external_body]
pub(crate) fn extract(salt: &[u8], ikm: &[u8]) -> (out: Vec<u8>)
    ensures
        out@ == hkdf_extract(salt@, ikm@),
        out@.len() == HASH_LEN,
{
    hkdf::Hkdf::<sha2::Sha512>::extract(Some(salt), ikm).0.to_vec()
}

/// Calls `hkdf::Hkdf::<sha2::Sha512>::from_prk` and then `expand` into a
/// buffer of `len` bytes. The first refuses a key shorter than a hash
/// output, the second a length above 255 hash outputs; neither is asked
/// for here.
#[verifier::external_body]
pub(crate) fn expand(prk: &[u8], info: &[u8], len: usize) -> (out: Vec<u8>)
    requires
        prk@.len() >= HASH_LEN,
        len <= MAX_EXPAND_LEN,
    ensures
        out@ == hkdf_expand(prk@, info@, len as nat),
        out@.len() == len,
{
    let mut out = vec![0u8; len];
    let kdf = hkdf::Hkdf::<sha2::Sha512>::from_prk(prk).unwrap();
    kdf.expand(info, &mut out).unwrap();
    out
}

/// Calls `hmac::Hmac::<sha2::Sha512>::new_from_slice`, which takes a key of
/// any length, then `update` and `finalize`. The tag has 64 bytes.
#[verifier::external_body]
pub(crate) fn mac(key: &[u8], msg: &[u8]) -> (out: Vec<u8>)
    ensures
        out@ == hmac(key@, msg@),
        out@.len() == HASH_LEN,
{
    let mut m = <hmac::Hmac<sha2::Sha512> as hmac::Mac>::new_from_slice(key).unwrap();
    hmac::Mac::update(&mut m, msg);
    hmac::Mac::finalize(m).into_bytes().to_vec()
}

/// Calls `subtle::ConstantTimeEq::ct_eq` on two byte slices. For slices of
/// one length its running time does not depend on their contents; it returns
/// early only where the lengths differ, which is left out here.
#[verifier::external_body]
pub(crate) fn ct_eq(a: &[u8], b: &[u8]) -> (same: bool)
    requires
        a@.len() == b@.len(),
    ensures
        same == (a@ == b@),
{
    bool::from(subtle::ConstantTimeEq::ct_eq(a, b))
}

} // verus!
