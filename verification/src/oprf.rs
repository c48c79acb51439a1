//! The oblivious pseudorandom function, reached through the `voprf` crate in
//! its base mode over ristretto255 with SHA-512.

use vstd::prelude::*;
use crate::group::{is_scalar_encoding, valid_element, valid_scalar, ELEM_LEN};
use crate::hash::HASH_LEN;

verus! {

/// The longest input that the oblivious function frames.
pub const MAX_INPUT_LEN: usize = 0xffff;

/// The blinded element that the client sends for an input under a blind,
/// or `None` where the input is refused.
pub uninterp spec fn oprf_blinded(input: Seq<u8>, blind: Seq<u8>) -> Option<Seq<u8>>;

/// The server's evaluation of a blinded element under a key.
pub uninterp spec fn oprf_evaluate(key: Seq<u8>, blinded: Seq<u8>) -> Seq<u8>;

/// The output that the client computes from its input, its blind and the
/// server's evaluation, or `None` where the input is refused.
pub uninterp spec fn oprf_finalize(input: Seq<u8>, blind: Seq<u8>, evaluation: Seq<u8>) -> Option<
    Seq<u8>,
>;

/// Calls `voprf::OprfClient::<voprf::Ristretto255>::deterministic_blind_unchecked`
/// with a blind read by `deserialize_scalar`, and encodes the message it
/// returns with `serialize`. The message is the input hashed to the group,
/// times the blind: a function of the two. The call checks nothing of the
/// blind; a scalar other than zero is asked for here.
#[verifier::external_body]
pub(crate) fn blind_with(input: &[u8], blind: &[u8]) -> (out: Result<Vec<u8>, voprf::Error>)
    requires
        is_scalar_encoding(blind@),
    ensures
        match out {
            Ok(m) => oprf_blinded(input@, blind@) == Some(m@) && m@.len() == ELEM_LEN,
            Err(_) => oprf_blinded(input@, blind@) is None,
        },
{
    let b = <voprf::Ristretto255 as voprf::Group>::deserialize_scalar(blind).unwrap();
    let r = voprf::OprfClient::<voprf::Ristretto255>::deterministic_blind_unchecked(input, b)?;
    Ok(r.message.serialize().to_vec())
}

/// Calls `voprf::OprfServer::<voprf::Ristretto255>::blind_evaluate` on a
/// server made by `new_with_key` and a message read by
/// `voprf::BlindedElement::deserialize`, and encodes the evaluation with
/// `serialize`. The evaluation is the element times the key: an element
/// other than the identity, since neither factor is trivial.
#[verifier::external_body]
pub(crate) fn evaluate(key: &[u8], blinded: &[u8]) -> (out: Vec<u8>)
    requires
        is_scalar_encoding(key@),
        valid_element(blinded@),
    ensures
        out@ == oprf_evaluate(key@, blinded@),
        valid_element(out@),
{
    let server = voprf::OprfServer::<voprf::Ristretto255>::new_with_key(key).unwrap();
    let message = voprf::BlindedElement::<voprf::Ristretto255>::deserialize(blinded).unwrap();
    server.blind_evaluate(&message).serialize().to_vec()
}

/// Calls `voprf::OprfClient::<voprf::Ristretto255>::finalize` on a client
/// read by `deserialize` from the blind and an evaluation read by
/// `voprf::EvaluationElement::deserialize`. The call reports an error
/// exactly where the input is longer than two bytes can count; the output
/// is a SHA-512 digest.
#[verifier::external_body]
pub(crate) fn finalize(input: &[u8], blind: &[u8], evaluation: &[u8]) -> (out: Result<
    Vec<u8>,
    voprf::Error,
>)
    requires
        valid_scalar(blind@),
        valid_element(evaluation@),
    ensures
        out is Ok <==> input@.len() <= MAX_INPUT_LEN,
        match out {
            Ok(o) => oprf_finalize(input@, blind@, evaluation@) == Some(o@) && o@.len()
                == HASH_LEN,
            Err(_) => oprf_finalize(input@, blind@, evaluation@) is None,
        },
{
    let client = voprf::OprfClient::<voprf::Ristretto255>::deserialize(blind).unwrap();
    let message = voprf::EvaluationElement::<voprf::Ristretto255>::deserialize(evaluation).unwrap();
    Ok(client.finalize(input, &message)?.to_vec())
}

} // verus!
