//! The mask that hides the server's public key and the envelope in a login
//! answer: a pad derived from the masking key and a fresh nonce, combined
//! with the plain bytes by exclusive or.

use vstd::prelude::*;
use crate::bytes::{cut, join, lemma_xor_twice, xor, xor_seq};
use crate::envelope::{Envelope, EnvelopeView};
use crate::errors::ProtocolError;
use crate::group::valid_element;
use crate::hash::{expand, hkdf_expand, HASH_LEN};
use crate::keypair::{PublicKey, PK_LEN};
use crate::labels::{credential_response_pad_label, label_credential_response_pad};
use crate::messages::MASKED_RESPONSE_LEN;

verus! {

/// The pad for a masking key and a masking nonce.
pub open spec fn masking_pad(masking_key: Seq<u8>, masking_nonce: Seq<u8>) -> Seq<u8> {
    hkdf_expand(
        masking_key,
        masking_nonce + label_credential_response_pad(),
        MASKED_RESPONSE_LEN as nat,
    )
}

/// The plain bytes that are masked: the server's public key, then the
/// envelope.
pub open spec fn plain_response(server_s_pk: Seq<u8>, envelope: EnvelopeView) -> Seq<u8> {
    server_s_pk + Envelope::encode(envelope)
}

/// The masked bytes for a server key and an envelope.
pub open spec fn masked(
    masking_key: Seq<u8>,
    masking_nonce: Seq<u8>,
    server_s_pk: Seq<u8>,
    envelope: EnvelopeView,
) -> Seq<u8> {
    xor_seq(plain_response(server_s_pk, envelope), masking_pad(masking_key, masking_nonce))
}

/// The server key and the envelope under a mask, or `None` where what lies
/// under the mask does not begin with a public key.
pub open spec fn unmasked(masking_key: Seq<u8>, masking_nonce: Seq<u8>, masked: Seq<u8>) -> Option<
    (Seq<u8>, EnvelopeView),
> {
    let plain = xor_seq(masked, masking_pad(masking_key, masking_nonce));
    if valid_element(plain.subrange(0, PK_LEN as int)) {
        Some(
            (
                plain.subrange(0, PK_LEN as int),
                Envelope::decode(plain.subrange(PK_LEN as int, MASKED_RESPONSE_LEN as int)),
            ),
        )
    } else {
        None
    }
}

/// Masks the server's public key and an envelope.
pub fn mask(
    masking_key: &[u8],
    masking_nonce: &[u8],
    server_s_pk: &PublicKey,
    envelope: &Envelope,
) -> (out: Vec<u8>)
    requires
        masking_key@.len() >= HASH_LEN,
    ensures
        out@ == masked(masking_key@, masking_nonce@, server_s_pk@, envelope@),
        out@.len() == MASKED_RESPONSE_LEN,
{
    let info = join(masking_nonce, credential_response_pad_label().as_slice());
    let pad = expand(masking_key, info.as_slice(), MASKED_RESPONSE_LEN);
    let pk = server_s_pk.serialize();
    let env = envelope.serialize();
    let plain = join(pk.as_slice(), env.as_slice());
    xor(plain.as_slice(), pad.as_slice())
}

/// Takes the mask off. What lies under it is refused as an invalid login
/// unless it begins with a canonical element other than the identity.
pub fn unmask(masking_key: &[u8], masking_nonce: &[u8], masked_response: &[u8]) -> (out: Result<
    (PublicKey, Envelope),
    ProtocolError,
>)
    requires
        masking_key@.len() >= HASH_LEN,
        masked_response@.len() == MASKED_RESPONSE_LEN,
    ensures
        match unmasked(masking_key@, masking_nonce@, masked_response@) {
            Some(v) => out is Ok && out->Ok_0.0@ == v.0 && out->Ok_0.1@ == v.1,
            None => out is Err && out->Err_0 == ProtocolError::InvalidLogin,
        },
{
    let info = join(masking_nonce, credential_response_pad_label().as_slice());
    let pad = expand(masking_key, info.as_slice(), MASKED_RESPONSE_LEN);
    let plain = xor(masked_response, pad.as_slice());
    let pk_bytes = cut(plain.as_slice(), 0, PK_LEN);
    let envelope_bytes = cut(plain.as_slice(), PK_LEN, MASKED_RESPONSE_LEN);
    let server_s_pk = match PublicKey::deserialize(pk_bytes.as_slice()) {
        Ok(pk) => pk,
        Err(_) => {
            return Err(ProtocolError::InvalidLogin);
        },
    };
    match Envelope::deserialize(envelope_bytes.as_slice()) {
        Ok(envelope) => Ok((server_s_pk, envelope)),
        Err(_) => Err(ProtocolError::InvalidLogin),
    }
}

/// Taking the mask off with the key and the nonce that put it on gives the
/// server key and the envelope back.
pub proof fn lemma_unmask_after_mask(
    masking_key: Seq<u8>,
    masking_nonce: Seq<u8>,
    server_s_pk: Seq<u8>,
    envelope: EnvelopeView,
)
    requires
        valid_element(server_s_pk),
        Envelope::valid(envelope),
    ensures
        unmasked(
            masking_key,
            masking_nonce,
            masked(masking_key, masking_nonce, server_s_pk, envelope),
        ) == Some((server_s_pk, envelope)),
{
    let plain = plain_response(server_s_pk, envelope);
    let pad = masking_pad(masking_key, masking_nonce);
    lemma_xor_twice(plain, pad);
    Envelope::lemma_round_trip(envelope);
    assert(plain.subrange(0, PK_LEN as int) =~= server_s_pk);
    assert(plain.subrange(PK_LEN as int, MASKED_RESPONSE_LEN as int) =~= Envelope::encode(
        envelope,
    ));
}

} // verus!
