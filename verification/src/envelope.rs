//! The envelope: the record that a registration seals and a login opens.

use vstd::prelude::*;
use crate::bytes::{cut, join, zero_bytes, zeros};
use crate::errors::ProtocolError;
use crate::group::{base_mult, derive_scalar, derived_scalar};
use crate::hash::{ct_eq, expand, hkdf_expand, hmac, mac, HASH_LEN};
use crate::identifiers::{Identifiers, IdentifiersView};
use crate::keypair::{KeyPair, PrivateKey, PublicKey, SK_LEN};
use crate::labels::{
    auth_key_label, derive_dh_key_pair_label, export_key_label, label_auth_key,
    label_derive_dh_key_pair, label_export_key, label_masking_key, label_private_key,
    masking_key_label, private_key_label,
};
use crate::random::random_bytes;
use crate::secret::{expose, guard};

verus! {

/// The length in bytes of a nonce.
pub const NONCE_LEN: usize = 32;

/// The length in bytes of an encoded envelope.
pub const ENVELOPE_LEN: usize = NONCE_LEN + HASH_LEN;

/// What an envelope holds.
pub struct EnvelopeView {
    /// The nonce that the keys of the envelope were derived with.
    pub nonce: Seq<u8>,
    /// The tag over the nonce and the cleartext credentials.
    pub auth_tag: Seq<u8>,
}

/// A sealed envelope.
#[derive(Debug, PartialEq, Eq)]
pub struct Envelope {
    pub(crate) nonce: Vec<u8>,
    pub(crate) auth_tag: Vec<u8>,
}

impl View for Envelope {
    type V = EnvelopeView;

    closed spec fn view(&self) -> EnvelopeView {
        EnvelopeView { nonce: self.nonce@, auth_tag: self.auth_tag@ }
    }
}

impl Clone for Envelope {
    fn clone(&self) -> (out: Self)
        ensures
            out@ == self@,
    {
        proof {
            use_type_invariant(self);
        }
        Envelope { nonce: self.nonce.clone(), auth_tag: self.auth_tag.clone() }
    }
}

impl Envelope {
    /// What holds of every envelope.
    #[verifier::type_invariant]
    pub open spec fn inv(self) -> bool {
        Self::valid(self@)
    }

    /// The field lengths of an envelope.
    pub open spec fn valid(v: EnvelopeView) -> bool {
        v.nonce.len() == NONCE_LEN && v.auth_tag.len() == HASH_LEN
    }

    /// The wire encoding: the nonce, then the tag.
    pub open spec fn encode(v: EnvelopeView) -> Seq<u8> {
        v.nonce + v.auth_tag
    }

    /// Which byte strings are read as an envelope.
    pub open spec fn decodable(b: Seq<u8>) -> bool {
        b.len() == ENVELOPE_LEN
    }

    /// The envelope that a byte string of the right length encodes.
    pub open spec fn decode(b: Seq<u8>) -> EnvelopeView {
        EnvelopeView {
            nonce: b.subrange(0, NONCE_LEN as int),
            auth_tag: b.subrange(NONCE_LEN as int, ENVELOPE_LEN as int),
        }
    }

    /// The all-zero envelope that stands in for the record of an unknown
    /// user.
    pub open spec fn dummy_view() -> EnvelopeView {
        EnvelopeView { nonce: zeros(NONCE_LEN as nat), auth_tag: zeros(HASH_LEN as nat) }
    }

    /// The wire encoding of the envelope.
    pub fn serialize(&self) -> (out: Vec<u8>)
        ensures
            out@ == Self::encode(self@),
            out@.len() == ENVELOPE_LEN,
    {
        proof {
            use_type_invariant(self);
        }
        join(self.nonce.as_slice(), self.auth_tag.as_slice())
    }

    /// Reads an envelope. The input is refused unless its length is exactly
    /// that of an envelope.
    pub fn deserialize(input: &[u8]) -> (out: Result<Self, ProtocolError>)
        ensures
            out is Ok <==> Self::decodable(input@),
            out is Ok ==> out->Ok_0@ == Self::decode(input@),
            out is Err ==> out->Err_0 == ProtocolError::InvalidByteSequence,
    {
        if input.len() != ENVELOPE_LEN {
            return Err(ProtocolError::InvalidByteSequence);
        }
        let nonce = cut(input, 0, NONCE_LEN);
        let auth_tag = cut(input, NONCE_LEN, ENVELOPE_LEN);
        Ok(Envelope { nonce, auth_tag })
    }

    /// The envelope used in the answer for an unknown user.
    pub fn dummy() -> (out: Self)
        ensures
            out@ == Self::dummy_view(),
    {
        Envelope { nonce: zero_bytes(NONCE_LEN), auth_tag: zero_bytes(HASH_LEN) }
    }

    /// Reading back what was written gives the same envelope, and the
    /// encoding has the advertised length.
    pub proof fn lemma_round_trip(v: EnvelopeView)
        requires
            Self::valid(v),
        ensures
            Self::encode(v).len() == ENVELOPE_LEN,
            Self::decodable(Self::encode(v)),
            Self::decode(Self::encode(v)) == v,
    {
        let b = Self::encode(v);
        assert(b.subrange(0, NONCE_LEN as int) =~= v.nonce);
        assert(b.subrange(NONCE_LEN as int, ENVELOPE_LEN as int) =~= v.auth_tag);
    }

    /// Writing what was read gives the same bytes.
    pub proof fn lemma_decode_encode(b: Seq<u8>)
        requires
            Self::decodable(b),
        ensures
            Self::valid(Self::decode(b)),
            Self::encode(Self::decode(b)) == b,
    {
        assert(Self::encode(Self::decode(b)) =~= b);
    }
}

/// The key that authenticates the envelope sealed under `nonce`.
pub open spec fn auth_key(randomized_pwd: Seq<u8>, nonce: Seq<u8>) -> Seq<u8> {
    hkdf_expand(randomized_pwd, nonce + label_auth_key(), HASH_LEN as nat)
}

/// The key that the client exports from the envelope sealed under `nonce`.
pub open spec fn export_key(randomized_pwd: Seq<u8>, nonce: Seq<u8>) -> Seq<u8> {
    hkdf_expand(randomized_pwd, nonce + label_export_key(), HASH_LEN as nat)
}

/// The seed of the client's key pair for the envelope sealed under `nonce`.
pub open spec fn key_seed(randomized_pwd: Seq<u8>, nonce: Seq<u8>) -> Seq<u8> {
    hkdf_expand(randomized_pwd, nonce + label_private_key(), SK_LEN as nat)
}

/// The key that masks the envelope in a login answer.
pub open spec fn masking_key(randomized_pwd: Seq<u8>) -> Seq<u8> {
    hkdf_expand(randomized_pwd, label_masking_key(), HASH_LEN as nat)
}

/// The client's private key for the envelope sealed under `nonce`, or
/// `None` where the group derives none from the seed.
pub open spec fn client_private_key(randomized_pwd: Seq<u8>, nonce: Seq<u8>) -> Option<Seq<u8>> {
    derived_scalar(key_seed(randomized_pwd, nonce), label_derive_dh_key_pair())
}

/// What the tag of an envelope covers beside the nonce: the server's public
/// key, the server's name, the client's name. A name that is not given is
/// the public key of its side.
pub open spec fn cleartext_credentials(
    server_s_pk: Seq<u8>,
    client_s_pk: Seq<u8>,
    ids: IdentifiersView,
) -> Seq<u8> {
    server_s_pk + ids.server_or(server_s_pk) + ids.client_or(client_s_pk)
}

/// The tag of the envelope sealed under `nonce` for a client key.
pub open spec fn auth_tag(
    randomized_pwd: Seq<u8>,
    nonce: Seq<u8>,
    server_s_pk: Seq<u8>,
    client_s_pk: Seq<u8>,
    ids: IdentifiersView,
) -> Seq<u8> {
    hmac(
        auth_key(randomized_pwd, nonce),
        nonce + cleartext_credentials(server_s_pk, client_s_pk, ids),
    )
}

/// What sealing gives.
pub struct SealedView {
    /// The envelope.
    pub envelope: EnvelopeView,
    /// The client's private key.
    pub client_s_sk: Seq<u8>,
    /// The client's public key.
    pub client_s_pk: Seq<u8>,
    /// The key that masks the envelope in a login answer.
    pub masking_key: Seq<u8>,
    /// The key that the client exports.
    pub export_key: Seq<u8>,
}

/// What opening gives.
pub struct OpenedView {
    /// The client's private key.
    pub client_s_sk: Seq<u8>,
    /// The client's public key.
    pub client_s_pk: Seq<u8>,
    /// The key that the client exports.
    pub export_key: Seq<u8>,
}

/// The result of sealing under `nonce`: every key is derived from the
/// randomized password and the nonce, and the tag binds the nonce, both
/// public keys and the names. `None` where no client key can be derived.
pub open spec fn sealed(
    randomized_pwd: Seq<u8>,
    nonce: Seq<u8>,
    server_s_pk: Seq<u8>,
    ids: IdentifiersView,
) -> Option<SealedView> {
    match client_private_key(randomized_pwd, nonce) {
        Some(sk) => Some(
            SealedView {
                envelope: EnvelopeView {
                    nonce,
                    auth_tag: auth_tag(randomized_pwd, nonce, server_s_pk, base_mult(sk), ids),
                },
                client_s_sk: sk,
                client_s_pk: base_mult(sk),
                masking_key: masking_key(randomized_pwd),
                export_key: export_key(randomized_pwd, nonce),
            },
        ),
        None => None,
    }
}

/// The result of opening an envelope: the keys that sealing under the
/// envelope's nonce gives, where the envelope carries the tag that sealing
/// gives; `None` otherwise.
pub open spec fn opened(
    randomized_pwd: Seq<u8>,
    envelope: EnvelopeView,
    server_s_pk: Seq<u8>,
    ids: IdentifiersView,
) -> Option<OpenedView> {
    match sealed(randomized_pwd, envelope.nonce, server_s_pk, ids) {
        Some(s) => if s.envelope.auth_tag == envelope.auth_tag {
            Some(
                OpenedView {
                    client_s_sk: s.client_s_sk,
                    client_s_pk: s.client_s_pk,
                    export_key: s.export_key,
                },
            )
        } else {
            None
        },
        None => None,
    }
}

/// What [`seal`] returns.
pub struct SealResult {
    /// The sealed envelope.
    pub envelope: Envelope,
    /// The client's static key pair.
    pub client_key_pair: KeyPair,
    /// The key that masks the envelope in a login answer.
    pub masking_key: Vec<u8>,
    /// The key that the client exports.
    pub export_key: Vec<u8>,
}

impl View for SealResult {
    type V = SealedView;

    open spec fn view(&self) -> SealedView {
        SealedView {
            envelope: self.envelope@,
            client_s_sk: self.client_key_pair.private_spec()@,
            client_s_pk: self.client_key_pair.public_view(),
            masking_key: self.masking_key@,
            export_key: self.export_key@,
        }
    }
}

/// What [`open`] returns.
pub struct OpenResult {
    /// The client's static key pair.
    pub client_key_pair: KeyPair,
    /// The key that the client exports.
    pub export_key: Vec<u8>,
}

impl View for OpenResult {
    type V = OpenedView;

    open spec fn view(&self) -> OpenedView {
        OpenedView {
            client_s_sk: self.client_key_pair.private_spec()@,
            client_s_pk: self.client_key_pair.public_view(),
            export_key: self.export_key@,
        }
    }
}

/// Derives the client's key pair for an envelope nonce.
fn derive_client_key_pair(randomized_pwd: &[u8], nonce: &[u8]) -> (out: Option<KeyPair>)
    requires
        randomized_pwd@.len() >= HASH_LEN,
    ensures
        match client_private_key(randomized_pwd@, nonce@) {
            Some(sk) => out is Some && out->Some_0.private_spec()@ == sk
                && out->Some_0.public_view() == base_mult(sk),
            None => out is None,
        },
{
    let info = join(nonce, private_key_label().as_slice());
    let seed = guard(expand(randomized_pwd, info.as_slice(), SK_LEN));
    match derive_scalar(expose(&seed), derive_dh_key_pair_label().as_slice()) {
        Ok(sk_bytes) => {
            let sk = PrivateKey::from_scalar(sk_bytes);
            Some(KeyPair::from_private_key(sk))
        },
        Err(_) => None,
    }
}

/// Computes the tag of an envelope.
fn compute_auth_tag(
    randomized_pwd: &[u8],
    nonce: &[u8],
    server_s_pk: &PublicKey,
    client_s_pk: &PublicKey,
    ids: Identifiers,
) -> (out: Vec<u8>)
    requires
        randomized_pwd@.len() >= HASH_LEN,
    ensures
        out@ == auth_tag(randomized_pwd@, nonce@, server_s_pk@, client_s_pk@, ids@),
        out@.len() == HASH_LEN,
{
    let info = join(nonce, auth_key_label().as_slice());
    let key = guard(expand(randomized_pwd, info.as_slice(), HASH_LEN));
    let server_bytes = server_s_pk.serialize();
    let client_bytes = client_s_pk.serialize();
    let server_name = ids.server_or(server_bytes.as_slice());
    let client_name = ids.client_or(client_bytes.as_slice());
    let a = join(nonce, server_bytes.as_slice());
    let b = join(a.as_slice(), server_name.as_slice());
    let message = join(b.as_slice(), client_name.as_slice());
    assert(message@ =~= nonce@ + cleartext_credentials(server_s_pk@, client_s_pk@, ids@));
    mac(expose(&key), message.as_slice())
}

/// What sealing under a given nonce returns: a nonce of the wrong length is
/// refused, and so is a randomized password from which no client key can be
/// derived; otherwise the result is [`sealed`].
pub open spec fn sealed_with_nonce(
    randomized_pwd: Seq<u8>,
    nonce: Seq<u8>,
    server_s_pk: Seq<u8>,
    ids: IdentifiersView,
) -> Result<SealedView, ProtocolError> {
    if nonce.len() != NONCE_LEN {
        Err(ProtocolError::InvalidNonce)
    } else {
        match sealed(randomized_pwd, nonce, server_s_pk, ids) {
            Some(v) => Ok(v),
            None => Err(ProtocolError::SerializationError),
        }
    }
}

/// Seals an envelope under a given nonce. The result is exactly
/// [`sealed_with_nonce`].
pub fn seal_with_nonce(
    nonce: Vec<u8>,
    randomized_pwd: &[u8],
    server_s_pk: &PublicKey,
    ids: Identifiers,
) -> (out: Result<SealResult, ProtocolError>)
    requires
        randomized_pwd@.len() >= HASH_LEN,
    ensures
        match sealed_with_nonce(randomized_pwd@, nonce@, server_s_pk@, ids@) {
            Ok(v) => out is Ok && out->Ok_0@ == v,
            Err(e) => out is Err && out->Err_0 == e,
        },
        out is Ok ==> out->Ok_0.masking_key@.len() == HASH_LEN && out->Ok_0.export_key@.len()
            == HASH_LEN,
{
    if nonce.len() != NONCE_LEN {
        return Err(ProtocolError::InvalidNonce);
    }
    let client_key_pair = match derive_client_key_pair(randomized_pwd, nonce.as_slice()) {
        Some(pair) => pair,
        None => {
            return Err(ProtocolError::SerializationError);
        },
    };
    let auth_tag = compute_auth_tag(
        randomized_pwd,
        nonce.as_slice(),
        server_s_pk,
        client_key_pair.public(),
        ids,
    );
    let export_info = join(nonce.as_slice(), export_key_label().as_slice());
    let export_key = expand(randomized_pwd, export_info.as_slice(), HASH_LEN);
    let masking_key = expand(randomized_pwd, masking_key_label().as_slice(), HASH_LEN);
    let envelope = Envelope { nonce, auth_tag };
    Ok(SealResult { envelope, client_key_pair, masking_key, export_key })
}

/// Seals an envelope under a fresh nonce. Whatever nonce was drawn, the
/// result is what [`sealed`] gives under the nonce that the envelope
/// carries; the call fails only where [`sealed`] gives nothing under some
/// nonce.
pub fn seal<R: rand::RngCore + rand::CryptoRng>(
    rng: &mut R,
    randomized_pwd: &[u8],
    server_s_pk: &PublicKey,
    ids: Identifiers,
) -> (out: Result<SealResult, ProtocolError>)
    requires
        randomized_pwd@.len() >= HASH_LEN,
    ensures
        out is Ok ==> sealed(
            randomized_pwd@,
            out->Ok_0.envelope@.nonce,
            server_s_pk@,
            ids@,
        ) == Some(out->Ok_0@),
        out is Ok ==> out->Ok_0.masking_key@.len() == HASH_LEN && out->Ok_0.export_key@.len()
            == HASH_LEN,
        out is Err ==> out->Err_0 == ProtocolError::SerializationError,
        out is Err ==> exists|nonce: Seq<u8>|
            nonce.len() == NONCE_LEN && #[trigger] sealed(
                randomized_pwd@,
                nonce,
                server_s_pk@,
                ids@,
            ) is None,
{
    let nonce = random_bytes(rng, NONCE_LEN);
    let ghost n = nonce@;
    let out = seal_with_nonce(nonce, randomized_pwd, server_s_pk, ids);
    proof {
        if out is Err {
            assert(n.len() == NONCE_LEN && sealed(randomized_pwd@, n, server_s_pk@, ids@) is None);
        }
    }
    out
}

/// Opens an envelope: derives the keys again from the randomized password
/// and the envelope's nonce, computes the tag again and compares it with the
/// envelope's in time that does not depend on either. The result is exactly
/// [`opened`]; every failure is an invalid login.
pub fn open(
    randomized_pwd: &[u8],
    envelope: &Envelope,
    server_s_pk: &PublicKey,
    ids: Identifiers,
) -> (out: Result<OpenResult, ProtocolError>)
    requires
        randomized_pwd@.len() >= HASH_LEN,
    ensures
        match opened(randomized_pwd@, envelope@, server_s_pk@, ids@) {
            Some(v) => out is Ok && out->Ok_0@ == v,
            None => out is Err && out->Err_0 == ProtocolError::InvalidLogin,
        },
        out is Ok ==> out->Ok_0.export_key@.len() == HASH_LEN,
{
    proof {
        use_type_invariant(envelope);
    }
    let client_key_pair = match derive_client_key_pair(randomized_pwd, envelope.nonce.as_slice()) {
        Some(pair) => pair,
        None => {
            return Err(ProtocolError::InvalidLogin);
        },
    };
    let expected = compute_auth_tag(
        randomized_pwd,
        envelope.nonce.as_slice(),
        server_s_pk,
        client_key_pair.public(),
        ids,
    );
    if !ct_eq(expected.as_slice(), envelope.auth_tag.as_slice()) {
        return Err(ProtocolError::InvalidLogin);
    }
    let export_info = join(envelope.nonce.as_slice(), export_key_label().as_slice());
    let export_key = expand(randomized_pwd, export_info.as_slice(), HASH_LEN);
    Ok(OpenResult { client_key_pair, export_key })
}

/// An envelope opens under the randomized password, the server key and the
/// names that it was sealed with, and opening gives the client key pair and
/// the export key that sealing gave.
pub proof fn lemma_open_after_seal(
    randomized_pwd: Seq<u8>,
    nonce: Seq<u8>,
    server_s_pk: Seq<u8>,
    ids: IdentifiersView,
)
    requires
        sealed(randomized_pwd, nonce, server_s_pk, ids) is Some,
    ensures
        ({
            let s = sealed(randomized_pwd, nonce, server_s_pk, ids)->Some_0;
            opened(randomized_pwd, s.envelope, server_s_pk, ids) == Some(
                OpenedView {
                    client_s_sk: s.client_s_sk,
                    client_s_pk: s.client_s_pk,
                    export_key: s.export_key,
                },
            )
        }),
{
}

/// The client's key pair that an envelope opens to depends on the
/// randomized password and the envelope's nonce alone: two openings that
/// succeed, under whatever server keys and names, give the same pair.
pub proof fn lemma_client_key_pair_determined(
    randomized_pwd: Seq<u8>,
    envelope_a: EnvelopeView,
    envelope_b: EnvelopeView,
    server_a: Seq<u8>,
    server_b: Seq<u8>,
    ids_a: IdentifiersView,
    ids_b: IdentifiersView,
)
    requires
        envelope_a.nonce == envelope_b.nonce,
        opened(randomized_pwd, envelope_a, server_a, ids_a) is Some,
        opened(randomized_pwd, envelope_b, server_b, ids_b) is Some,
    ensures
        opened(randomized_pwd, envelope_a, server_a, ids_a)->Some_0.client_s_sk == opened(
            randomized_pwd,
            envelope_b,
            server_b,
            ids_b,
        )->Some_0.client_s_sk,
        opened(randomized_pwd, envelope_a, server_a, ids_a)->Some_0.client_s_pk == opened(
            randomized_pwd,
            envelope_b,
            server_b,
            ids_b,
        )->Some_0.client_s_pk,
{
}

} // verus!
