//! The prime-order group of the oblivious function and of the key exchange:
//! ristretto255, reached through the `voprf` crate.
//!
//! Elements and scalars are held as their 32-byte encodings. What the group
//! computes on them is named here and not restated.

use vstd::prelude::*;

verus! {

/// The length in bytes of an encoded group element.
pub const ELEM_LEN: usize = 32;

/// The length in bytes of an encoded scalar.
pub const SCALAR_LEN: usize = 32;

/// The error type of the `voprf` crate.
#[verifier::external_type_specification]
#[verifier::external_body]
pub struct ExVoprfError(voprf::Error);

/// Whether `voprf` decodes `bytes` as a group element: the canonical encoding
/// of a ristretto255 point other than the identity.
pub uninterp spec fn is_element_encoding(bytes: Seq<u8>) -> bool;

/// Whether `curve25519-dalek` decompresses `bytes` to a ristretto255 point:
/// the canonical encoding of a group element, the identity among them.
pub uninterp spec fn is_point_encoding(bytes: Seq<u8>) -> bool;

/// Whether `voprf` decodes `bytes` as a scalar: the canonical encoding of a
/// residue other than zero.
pub uninterp spec fn is_scalar_encoding(bytes: Seq<u8>) -> bool;

/// The encoding of the element `elem` multiplied by the scalar `scalar`.
pub uninterp spec fn scalar_mult(scalar: Seq<u8>, elem: Seq<u8>) -> Seq<u8>;

/// The encoding of the group's base element multiplied by `scalar`.
pub uninterp spec fn base_mult(scalar: Seq<u8>) -> Seq<u8>;

/// The private key that `voprf` derives from `seed` and `info` in the base
/// mode of the oblivious function, or `None` where it reports an error.
pub uninterp spec fn derived_scalar(seed: Seq<u8>, info: Seq<u8>) -> Option<Seq<u8>>;

/// An element as the protocol holds it: 32 bytes that the group decodes.
pub open spec fn valid_element(bytes: Seq<u8>) -> bool {
    bytes.len() == ELEM_LEN && is_element_encoding(bytes)
}

/// The encoding of a group element that may be the identity. A message can
/// carry such an element only where it was put there by hand; what is read
/// from the wire or computed here is always a [`valid_element`].
pub open spec fn encodes_element(bytes: Seq<u8>) -> bool {
    valid_element(bytes) || (bytes.len() == ELEM_LEN && is_point_encoding(bytes))
}

/// A scalar as the protocol holds it: 32 bytes that the group decodes.
pub open spec fn valid_scalar(bytes: Seq<u8>) -> bool {
    bytes.len() == SCALAR_LEN && is_scalar_encoding(bytes)
}

/// Calls `<voprf::Ristretto255 as voprf::Group>::deserialize_elem` and drops
/// the element. The call accepts only 32 bytes that are the canonical
/// encoding of a point other than the identity, and refuses every other
/// input without panicking.
#[verifier::external_body]
pub(crate) fn decode_element(bytes: &[u8]) -> (out: Result<(), voprf::Error>)
    ensures
        out is Ok <==> is_element_encoding(bytes@),
        out is Ok ==> bytes@.len() == ELEM_LEN,
{
    let _ = <voprf::Ristretto255 as voprf::Group>::deserialize_elem(bytes)?;
    Ok(())
}

/// Calls `<voprf::Ristretto255 as voprf::Group>::deserialize_scalar` and
/// drops the scalar. The call accepts only 32 bytes that are the canonical
/// encoding of a scalar other than zero.
#[verifier::external_body]
pub(crate) fn decode_scalar(bytes: &[u8]) -> (out: Result<(), voprf::Error>)
    ensures
        out is Ok <==> is_scalar_encoding(bytes@),
        out is Ok ==> bytes@.len() == SCALAR_LEN,
{
    let _ = <voprf::Ristretto255 as voprf::Group>::deserialize_scalar(bytes)?;
    Ok(())
}

/// Calls `curve25519_dalek::ristretto::CompressedRistretto::from_slice` and
/// then `decompress`, and drops the point. The first accepts only 32 bytes,
/// the second only the canonical encoding of a point, which may be the
/// identity. `voprf` decodes an element with the same two calls, so
/// whatever it accepts is accepted here.
#[verifier::external_body]
pub(crate) fn decode_point(bytes: &[u8]) -> (out: Option<()>)
    ensures
        out is Some <==> is_point_encoding(bytes@),
        out is Some ==> bytes@.len() == ELEM_LEN,
        is_element_encoding(bytes@) ==> out is Some,
{
    let compressed = curve25519_dalek::ristretto::CompressedRistretto::from_slice(bytes).ok()?;
    let _ = compressed.decompress()?;
    Some(())
}

/// Whether the bytes encode a group element, the identity among them.
pub fn is_point(bytes: &[u8]) -> (ok: bool)
    ensures
        ok == encodes_element(bytes@),
{
    match decode_point(bytes) {
        Some(_) => true,
        None => false,
    }
}

/// Whether the bytes are an element as the protocol holds it.
pub fn is_element(bytes: &[u8]) -> (ok: bool)
    ensures
        ok == valid_element(bytes@),
{
    match decode_element(bytes) {
        Ok(_) => true,
        Err(_) => false,
    }
}

/// Whether the bytes are a scalar as the protocol holds it.
pub fn is_scalar(bytes: &[u8]) -> (ok: bool)
    ensures
        ok == valid_scalar(bytes@),
{
    match decode_scalar(bytes) {
        Ok(_) => true,
        Err(_) => false,
    }
}

/// Multiplies a decoded element by a decoded scalar with the group's `Mul` and
/// encodes the product with `serialize_elem`. The group has prime order, so
/// an element other than the identity times a scalar other than zero is again
/// an element other than the identity, and `serialize_elem` writes the
/// canonical 32 bytes that `deserialize_elem` accepts.
#[verifier::external_body]
pub(crate) fn multiply(scalar: &[u8], elem: &[u8]) -> (out: Vec<u8>)
    requires
        is_scalar_encoding(scalar@),
        is_element_encoding(elem@),
    ensures
        out@ == scalar_mult(scalar@, elem@),
        valid_element(out@),
{
    let s = <voprf::Ristretto255 as voprf::Group>::deserialize_scalar(scalar).unwrap();
    let e = <voprf::Ristretto255 as voprf::Group>::deserialize_elem(elem).unwrap();
    <voprf::Ristretto255 as voprf::Group>::serialize_elem(e * &s).to_vec()
}

/// Multiplies `<voprf::Ristretto255 as voprf::Group>::base_elem` by a decoded
/// scalar and encodes the product. The base element generates the group, so
/// the product with a scalar other than zero is not the identity.
#[verifier::external_body]
pub(crate) fn multiply_base(scalar: &[u8]) -> (out: Vec<u8>)
    requires
        is_scalar_encoding(scalar@),
    ensures
        out@ == base_mult(scalar@),
        valid_element(out@),
{
    let s = <voprf::Ristretto255 as voprf::Group>::deserialize_scalar(scalar).unwrap();
    let e = <voprf::Ristretto255 as voprf::Group>::base_elem();
    <voprf::Ristretto255 as voprf::Group>::serialize_elem(e * &s).to_vec()
}

/// Draws a scalar with `<voprf::Ristretto255 as voprf::Group>::random_scalar`,
/// which samples until the scalar is not zero, and encodes it with
/// `serialize_scalar`. Nothing is said of which scalar comes out.
#[verifier::external_body]
pub(crate) fn random_scalar<R: rand::RngCore + rand::CryptoRng>(rng: &mut R) -> (out: Vec<u8>)
    ensures
        valid_scalar(out@),
{
    let s = <voprf::Ristretto255 as voprf::Group>::random_scalar(rng);
    <voprf::Ristretto255 as voprf::Group>::serialize_scalar(s).to_vec()
}

/// Calls `voprf::OprfServer::<voprf::Ristretto255>::new_from_seed` and
/// encodes the key it holds with `serialize`. The function hashes `seed`,
/// `info` and a counter to a scalar and keeps the first that is not zero; it
/// reports an error where the inputs are too long to be framed or no counter
/// gives one.
#[verifier::external_body]
pub(crate) fn derive_scalar(seed: &[u8], info: &[u8]) -> (out: Result<Vec<u8>, voprf::Error>)
    ensures
        match out {
            Ok(s) => derived_scalar(seed@, info@) == Some(s@) && valid_scalar(s@),
            Err(_) => derived_scalar(seed@, info@) is None,
        },
{
    let server = voprf::OprfServer::<voprf::Ristretto255>::new_from_seed(seed, info)?;
    Ok(server.serialize().to_vec())
}

} // verus!
