//! The messages that client and server exchange, and their wire encodings.
//!
//! Every encoding has a fixed length. A message is read only from a byte
//! string of exactly that length whose group elements are canonical and not
//! the identity; every other input is refused as an invalid byte sequence.

use vstd::prelude::*;
use vstd::slice::slice_subrange;
use crate::bytes::{copy_of, cut, join};
use crate::envelope::{Envelope, EnvelopeView, ENVELOPE_LEN, NONCE_LEN};
use crate::errors::ProtocolError;
use crate::group::{encodes_element, is_element, is_point, valid_element, ELEM_LEN};
use crate::hash::HASH_LEN;
use crate::identifiers::{IdentifiersView, OwnedIdentifiers};
use crate::key_exchange::{
    Ke1Message, Ke1MessageView, Ke2Builder, Ke2BuilderView, Ke2Message, Ke2MessageView, Ke3Message,
    KE1_LEN, KE2_LEN, KE3_LEN,
};
use crate::login::{login_built, ServerLogin, ServerLoginStartResult};
use crate::keypair::{PublicKey, PK_LEN};
use crate::random::random_bytes;
use crate::secret::{duplicate, expose, guard, held, Secret};
use crate::setup::ServerSetup;

verus! {

/// The length in bytes of an encoded [`RegistrationRequest`].
pub const REGISTRATION_REQUEST_LEN: usize = ELEM_LEN;

/// The length in bytes of an encoded [`RegistrationResponse`].
pub const REGISTRATION_RESPONSE_LEN: usize = ELEM_LEN + PK_LEN;

/// The length in bytes of an encoded [`RegistrationUpload`].
pub const REGISTRATION_UPLOAD_LEN: usize = PK_LEN + HASH_LEN + ENVELOPE_LEN;

/// The length in bytes of an encoded [`CredentialRequest`].
pub const CREDENTIAL_REQUEST_LEN: usize = ELEM_LEN + KE1_LEN;

/// The length in bytes of the masked part of a [`CredentialResponse`]: the
/// server's public key and the envelope.
pub const MASKED_RESPONSE_LEN: usize = PK_LEN + ENVELOPE_LEN;

/// The length in bytes of a [`CredentialResponse`] without its key-exchange
/// message.
pub const CREDENTIAL_RESPONSE_WITHOUT_KE_LEN: usize = ELEM_LEN + NONCE_LEN + MASKED_RESPONSE_LEN;

/// The length in bytes of an encoded [`CredentialResponse`].
pub const CREDENTIAL_RESPONSE_LEN: usize = CREDENTIAL_RESPONSE_WITHOUT_KE_LEN + KE2_LEN;

/// The length in bytes of an encoded [`CredentialFinalization`].
pub const CREDENTIAL_FINALIZATION_LEN: usize = KE3_LEN;

/// The message sent by the client to the server, to initiate registration:
/// the blinded password.
#[derive(Debug, PartialEq, Eq)]
pub struct RegistrationRequest {
    pub(crate) blinded_element: Vec<u8>,
}

impl View for RegistrationRequest {
    type V = Seq<u8>;

    closed spec fn view(&self) -> Seq<u8> {
        self.blinded_element@
    }
}

impl Clone for RegistrationRequest {
    fn clone(&self) -> (out: Self)
        ensures
            out@ == self@,
    {
        proof {
            use_type_invariant(self);
        }
        RegistrationRequest { blinded_element: self.blinded_element.clone() }
    }
}

impl RegistrationRequest {
    /// What holds of every registration request.
    #[verifier::type_invariant]
    pub open spec fn inv(self) -> bool {
        valid_element(self@)
    }

    /// The request that carries a blinded element.
    pub(crate) fn new(blinded_element: Vec<u8>) -> (out: Self)
        requires
            valid_element(blinded_element@),
        ensures
            out@ == blinded_element@,
    {
        RegistrationRequest { blinded_element }
    }

    /// The blinded element.
    pub fn blinded_element(&self) -> (out: &[u8])
        ensures
            out@ == self@,
            valid_element(out@),
    {
        proof {
            use_type_invariant(self);
        }
        self.blinded_element.as_slice()
    }

    /// Serialization into bytes: the blinded element.
    pub fn serialize(&self) -> (out: Vec<u8>)
        ensures
            out@ == self@,
            out@.len() == REGISTRATION_REQUEST_LEN,
    {
        proof {
            use_type_invariant(self);
        }
        self.blinded_element.clone()
    }

    /// Deserialization from bytes.
    pub fn deserialize(input: &[u8]) -> (out: Result<Self, ProtocolError>)
        ensures
            out is Ok <==> valid_element(input@),
            out is Ok ==> out->Ok_0@ == input@,
            out is Err ==> out->Err_0 == ProtocolError::InvalidByteSequence,
    {
        if input.len() != REGISTRATION_REQUEST_LEN {
            return Err(ProtocolError::InvalidByteSequence);
        }
        if !is_element(input) {
            return Err(ProtocolError::InvalidByteSequence);
        }
        Ok(RegistrationRequest { blinded_element: copy_of(input) })
    }

    /// The blinded element of the request.
    pub fn get_blinded_element_for_testing(&self) -> (out: Vec<u8>)
        ensures
            out@ == self@,
    {
        self.blinded_element.clone()
    }
}

/// What a registration response holds.
pub struct RegistrationResponseView {
    /// The server's evaluation of the blinded password.
    pub evaluation_element: Seq<u8>,
    /// The server's static public key.
    pub server_s_pk: Seq<u8>,
}

/// The answer sent by the server to the user, upon reception of the
/// registration attempt.
#[derive(Debug, PartialEq, Eq)]
pub struct RegistrationResponse {
    pub(crate) evaluation_element: Vec<u8>,
    pub(crate) server_s_pk: PublicKey,
}

impl View for RegistrationResponse {
    type V = RegistrationResponseView;

    closed spec fn view(&self) -> RegistrationResponseView {
        RegistrationResponseView {
            evaluation_element: self.evaluation_element@,
            server_s_pk: self.server_s_pk@,
        }
    }
}

impl Clone for RegistrationResponse {
    fn clone(&self) -> (out: Self)
        ensures
            out@ == self@,
    {
        proof {
            use_type_invariant(self);
        }
        RegistrationResponse {
            evaluation_element: self.evaluation_element.clone(),
            server_s_pk: self.server_s_pk.clone(),
        }
    }
}

impl RegistrationResponse {
    /// What holds of every registration response.
    #[verifier::type_invariant]
    pub open spec fn inv(self) -> bool {
        Self::well_formed(self@)
    }

    /// That the evaluation encodes a group element, which may be the
    /// identity, and that the server's key is an element.
    pub open spec fn well_formed(v: RegistrationResponseView) -> bool {
        encodes_element(v.evaluation_element) && valid_element(v.server_s_pk)
    }

    /// That both fields are elements other than the identity: what the wire
    /// carries.
    pub open spec fn valid(v: RegistrationResponseView) -> bool {
        valid_element(v.evaluation_element) && valid_element(v.server_s_pk)
    }

    /// The response that carries an evaluation and the server's key.
    pub(crate) fn new(evaluation_element: Vec<u8>, server_s_pk: PublicKey) -> (out: Self)
        requires
            encodes_element(evaluation_element@),
        ensures
            out@ == (RegistrationResponseView {
                evaluation_element: evaluation_element@,
                server_s_pk: server_s_pk@,
            }),
    {
        proof {
            use_type_invariant(&server_s_pk);
        }
        RegistrationResponse { evaluation_element, server_s_pk }
    }

    /// The server's evaluation of the blinded password.
    pub fn evaluation_element(&self) -> (out: &[u8])
        ensures
            out@ == self@.evaluation_element,
            encodes_element(out@),
    {
        proof {
            use_type_invariant(self);
        }
        self.evaluation_element.as_slice()
    }

    /// The server's static public key.
    pub fn server_s_pk(&self) -> (out: &PublicKey)
        ensures
            out@ == self@.server_s_pk,
    {
        &self.server_s_pk
    }

    /// The wire encoding: the evaluation element, then the server's key.
    pub open spec fn encode(v: RegistrationResponseView) -> Seq<u8> {
        v.evaluation_element + v.server_s_pk
    }

    /// Which byte strings are read as a registration response.
    pub open spec fn decodable(b: Seq<u8>) -> bool {
        &&& b.len() == REGISTRATION_RESPONSE_LEN
        &&& valid_element(b.subrange(0, ELEM_LEN as int))
        &&& valid_element(b.subrange(ELEM_LEN as int, REGISTRATION_RESPONSE_LEN as int))
    }

    /// The registration response that a decodable byte string encodes.
    pub open spec fn decode(b: Seq<u8>) -> RegistrationResponseView {
        RegistrationResponseView {
            evaluation_element: b.subrange(0, ELEM_LEN as int),
            server_s_pk: b.subrange(ELEM_LEN as int, REGISTRATION_RESPONSE_LEN as int),
        }
    }

    /// Serialization into bytes.
    pub fn serialize(&self) -> (out: Vec<u8>)
        ensures
            out@ == Self::encode(self@),
            out@.len() == REGISTRATION_RESPONSE_LEN,
    {
        proof {
            use_type_invariant(self);
        }
        let pk = self.server_s_pk.serialize();
        join(self.evaluation_element.as_slice(), pk.as_slice())
    }

    /// Deserialization from bytes.
    pub fn deserialize(input: &[u8]) -> (out: Result<Self, ProtocolError>)
        ensures
            out is Ok <==> Self::decodable(input@),
            out is Ok ==> out->Ok_0@ == Self::decode(input@),
            out is Err ==> out->Err_0 == ProtocolError::InvalidByteSequence,
    {
        if input.len() != REGISTRATION_RESPONSE_LEN {
            return Err(ProtocolError::InvalidByteSequence);
        }
        let evaluation_element = cut(input, 0, ELEM_LEN);
        if !is_element(evaluation_element.as_slice()) {
            return Err(ProtocolError::InvalidByteSequence);
        }
        let pk_bytes = cut(input, ELEM_LEN, REGISTRATION_RESPONSE_LEN);
        match PublicKey::deserialize(pk_bytes.as_slice()) {
            Ok(server_s_pk) => Ok(RegistrationResponse { evaluation_element, server_s_pk }),
            Err(e) => Err(e),
        }
    }

    /// The same response with another evaluation element. Every encoding of
    /// a group element is taken, that of the identity too, which no response
    /// read from the wire carries; bytes that encode no element are refused.
    pub fn set_evaluation_element_for_testing(&self, beta: &[u8]) -> (out: Result<
        Self,
        ProtocolError,
    >)
        ensures
            out is Ok <==> encodes_element(beta@),
            out is Ok ==> out->Ok_0@ == (RegistrationResponseView {
                evaluation_element: beta@,
                server_s_pk: self@.server_s_pk,
            }),
            out is Err ==> out->Err_0 == ProtocolError::InvalidByteSequence,
    {
        proof {
            use_type_invariant(self);
        }
        if !is_point(beta) {
            return Err(ProtocolError::InvalidByteSequence);
        }
        Ok(
            RegistrationResponse {
                evaluation_element: copy_of(beta),
                server_s_pk: self.server_s_pk.clone(),
            },
        )
    }

    /// Reading back what was written gives the same message, and the
    /// encoding has the advertised length.
    pub proof fn lemma_round_trip(v: RegistrationResponseView)
        requires
            Self::valid(v),
        ensures
            Self::encode(v).len() == REGISTRATION_RESPONSE_LEN,
            Self::decodable(Self::encode(v)),
            Self::decode(Self::encode(v)) == v,
    {
        let b = Self::encode(v);
        assert(b.subrange(0, ELEM_LEN as int) =~= v.evaluation_element);
        assert(b.subrange(ELEM_LEN as int, REGISTRATION_RESPONSE_LEN as int) =~= v.server_s_pk);
    }

    /// Writing what was read gives the same bytes.
    pub proof fn lemma_decode_encode(b: Seq<u8>)
        requires
            Self::decodable(b),
        ensures
            Self::valid(Self::decode(b)),
            Self::encode(Self::decode(b)) == b,
    {
        assert(Self::encode(Self::decode(b)) =~= b);
    }
}

/// What a registration upload holds.
pub struct RegistrationUploadView {
    /// The envelope that the client sealed.
    pub envelope: EnvelopeView,
    /// The key that masks the envelope in a login answer.
    pub masking_key: Seq<u8>,
    /// The client's static public key.
    pub client_s_pk: Seq<u8>,
}

/// The final message from the client, containing sealed cryptographic
/// identifiers.
#[derive(Debug, PartialEq, Eq)]
pub struct RegistrationUpload {
    pub(crate) envelope: Envelope,
    pub(crate) masking_key: Secret,
    pub(crate) client_s_pk: PublicKey,
}

impl View for RegistrationUpload {
    type V = RegistrationUploadView;

    closed spec fn view(&self) -> RegistrationUploadView {
        RegistrationUploadView {
            envelope: self.envelope@,
            masking_key: held(self.masking_key),
            client_s_pk: self.client_s_pk@,
        }
    }
}

impl Clone for RegistrationUpload {
    fn clone(&self) -> (out: Self)
        ensures
            out@ == self@,
    {
        proof {
            use_type_invariant(self);
        }
        RegistrationUpload {
            envelope: self.envelope.clone(),
            masking_key: duplicate(&self.masking_key),
            client_s_pk: self.client_s_pk.clone(),
        }
    }
}

impl RegistrationUpload {
    /// What holds of every registration upload.
    #[verifier::type_invariant]
    pub open spec fn inv(self) -> bool {
        Self::valid(self@)
    }

    /// The field lengths of an upload, and that its key is an element.
    pub open spec fn valid(v: RegistrationUploadView) -> bool {
        &&& Envelope::valid(v.envelope)
        &&& v.masking_key.len() == HASH_LEN
        &&& valid_element(v.client_s_pk)
    }

    /// The upload that carries an envelope, a masking key and the client's
    /// key.
    pub(crate) fn new(envelope: Envelope, masking_key: Vec<u8>, client_s_pk: PublicKey) -> (out:
        Self)
        requires
            masking_key@.len() == HASH_LEN,
        ensures
            out@ == (RegistrationUploadView {
                envelope: envelope@,
                masking_key: masking_key@,
                client_s_pk: client_s_pk@,
            }),
    {
        proof {
            use_type_invariant(&envelope);
            use_type_invariant(&client_s_pk);
        }
        RegistrationUpload { envelope, masking_key: guard(masking_key), client_s_pk }
    }

    /// The envelope.
    pub fn envelope(&self) -> (out: &Envelope)
        ensures
            out@ == self@.envelope,
    {
        &self.envelope
    }

    /// The key that masks the envelope in a login answer.
    pub fn masking_key(&self) -> (out: &[u8])
        ensures
            out@ == self@.masking_key,
            out@.len() == HASH_LEN,
    {
        proof {
            use_type_invariant(self);
        }
        expose(&self.masking_key)
    }

    /// The client's static public key.
    pub fn client_s_pk(&self) -> (out: &PublicKey)
        ensures
            out@ == self@.client_s_pk,
    {
        &self.client_s_pk
    }

    /// The made-up record that answers a login for an unknown user: the
    /// all-zero envelope, a fresh masking key, and the setup's public key
    /// for such records.
    pub fn dummy<R: rand::RngCore + rand::CryptoRng, SK, OS>(
        rng: &mut R,
        server_setup: &ServerSetup<SK, OS>,
    ) -> (out: Self)
        ensures
            out@.envelope == Envelope::dummy_view(),
            out@.client_s_pk == server_setup.dummy_pk_view(),
    {
        let masking_key = random_bytes(rng, HASH_LEN);
        Self::dummy_with_masking_key(masking_key, server_setup)
    }

    /// The made-up record with a given masking key.
    pub fn dummy_with_masking_key<SK, OS>(
        masking_key: Vec<u8>,
        server_setup: &ServerSetup<SK, OS>,
    ) -> (out: Self)
        requires
            masking_key@.len() == HASH_LEN,
        ensures
            out@ == (RegistrationUploadView {
                envelope: Envelope::dummy_view(),
                masking_key: masking_key@,
                client_s_pk: server_setup.dummy_pk_view(),
            }),
    {
        Self::new(Envelope::dummy(), masking_key, server_setup.dummy_pk().clone())
    }

    /// The wire encoding: the client's key, the masking key, the envelope.
    pub open spec fn encode(v: RegistrationUploadView) -> Seq<u8> {
        v.client_s_pk + v.masking_key + Envelope::encode(v.envelope)
    }

    /// Which byte strings are read as a registration upload.
    pub open spec fn decodable(b: Seq<u8>) -> bool {
        b.len() == REGISTRATION_UPLOAD_LEN && valid_element(b.subrange(0, PK_LEN as int))
    }

    /// The registration upload that a decodable byte string encodes.
    pub open spec fn decode(b: Seq<u8>) -> RegistrationUploadView {
        RegistrationUploadView {
            envelope: Envelope::decode(
                b.subrange(PK_LEN + HASH_LEN, REGISTRATION_UPLOAD_LEN as int),
            ),
            masking_key: b.subrange(PK_LEN as int, PK_LEN + HASH_LEN),
            client_s_pk: b.subrange(0, PK_LEN as int),
        }
    }

    /// Serialization into bytes.
    pub fn serialize(&self) -> (out: Vec<u8>)
        ensures
            out@ == Self::encode(self@),
            out@.len() == REGISTRATION_UPLOAD_LEN,
    {
        proof {
            use_type_invariant(self);
        }
        let pk = self.client_s_pk.serialize();
        let envelope = self.envelope.serialize();
        let head = join(pk.as_slice(), expose(&self.masking_key));
        join(head.as_slice(), envelope.as_slice())
    }

    /// Deserialization from bytes.
    pub fn deserialize(input: &[u8]) -> (out: Result<Self, ProtocolError>)
        ensures
            out is Ok <==> Self::decodable(input@),
            out is Ok ==> out->Ok_0@ == Self::decode(input@),
            out is Err ==> out->Err_0 == ProtocolError::InvalidByteSequence,
    {
        if input.len() != REGISTRATION_UPLOAD_LEN {
            return Err(ProtocolError::InvalidByteSequence);
        }
        let pk_bytes = cut(input, 0, PK_LEN);
        let masking_key = cut(input, PK_LEN, PK_LEN + HASH_LEN);
        let envelope_bytes = cut(input, PK_LEN + HASH_LEN, REGISTRATION_UPLOAD_LEN);
        let client_s_pk = match PublicKey::deserialize(pk_bytes.as_slice()) {
            Ok(pk) => pk,
            Err(e) => {
                return Err(e);
            },
        };
        match Envelope::deserialize(envelope_bytes.as_slice()) {
            Ok(envelope) => Ok(
                RegistrationUpload { envelope, masking_key: guard(masking_key), client_s_pk },
            ),
            Err(e) => Err(e),
        }
    }

    /// Reading back what was written gives the same message, and the
    /// encoding has the advertised length.
    pub proof fn lemma_round_trip(v: RegistrationUploadView)
        requires
            Self::valid(v),
        ensures
            Self::encode(v).len() == REGISTRATION_UPLOAD_LEN,
            Self::decodable(Self::encode(v)),
            Self::decode(Self::encode(v)) == v,
    {
        let b = Self::encode(v);
        let e = Envelope::encode(v.envelope);
        Envelope::lemma_round_trip(v.envelope);
        assert(b.subrange(0, PK_LEN as int) =~= v.client_s_pk);
        assert(b.subrange(PK_LEN as int, PK_LEN + HASH_LEN) =~= v.masking_key);
        assert(b.subrange(PK_LEN + HASH_LEN, REGISTRATION_UPLOAD_LEN as int) =~= e);
    }

    /// Writing what was read gives the same bytes.
    pub proof fn lemma_decode_encode(b: Seq<u8>)
        requires
            Self::decodable(b),
        ensures
            Self::valid(Self::decode(b)),
            Self::encode(Self::decode(b)) == b,
    {
        let e = b.subrange(PK_LEN + HASH_LEN, REGISTRATION_UPLOAD_LEN as int);
        Envelope::lemma_decode_encode(e);
        assert(Self::encode(Self::decode(b)) =~= b);
    }
}

/// What a credential request holds.
pub struct CredentialRequestView {
    /// The blinded password.
    pub blinded_element: Seq<u8>,
    /// The first message of the key exchange.
    pub ke1_message: Ke1MessageView,
}

/// The message sent by the user to the server, to initiate login.
#[derive(Debug, PartialEq, Eq)]
pub struct CredentialRequest {
    pub(crate) blinded_element: Vec<u8>,
    pub(crate) ke1_message: Ke1Message,
}

impl View for CredentialRequest {
    type V = CredentialRequestView;

    closed spec fn view(&self) -> CredentialRequestView {
        CredentialRequestView {
            blinded_element: self.blinded_element@,
            ke1_message: self.ke1_message@,
        }
    }
}

impl Clone for CredentialRequest {
    fn clone(&self) -> (out: Self)
        ensures
            out@ == self@,
    {
        proof {
            use_type_invariant(self);
        }
        CredentialRequest {
            blinded_element: self.blinded_element.clone(),
            ke1_message: self.ke1_message.clone(),
        }
    }
}

impl CredentialRequest {
    /// What holds of every credential request.
    #[verifier::type_invariant]
    pub open spec fn inv(self) -> bool {
        Self::valid(self@)
    }

    /// That the blinded password is an element and the key-exchange message
    /// is well formed.
    pub open spec fn valid(v: CredentialRequestView) -> bool {
        valid_element(v.blinded_element) && Ke1Message::valid(v.ke1_message)
    }

    /// The request that carries a blinded element and a key-exchange
    /// message.
    pub(crate) fn new(blinded_element: Vec<u8>, ke1_message: Ke1Message) -> (out: Self)
        requires
            valid_element(blinded_element@),
        ensures
            out@ == (CredentialRequestView {
                blinded_element: blinded_element@,
                ke1_message: ke1_message@,
            }),
    {
        proof {
            use_type_invariant(&ke1_message);
        }
        CredentialRequest { blinded_element, ke1_message }
    }

    /// The blinded password.
    pub fn blinded_element(&self) -> (out: &[u8])
        ensures
            out@ == self@.blinded_element,
            valid_element(out@),
    {
        proof {
            use_type_invariant(self);
        }
        self.blinded_element.as_slice()
    }

    /// The first message of the key exchange.
    pub fn ke1_message(&self) -> (out: &Ke1Message)
        ensures
            out@ == self@.ke1_message,
    {
        &self.ke1_message
    }

    /// The wire encoding: the blinded element, then the key-exchange message.
    pub open spec fn encode(v: CredentialRequestView) -> Seq<u8> {
        v.blinded_element + Ke1Message::encode(v.ke1_message)
    }

    /// Which byte strings are read as a credential request.
    pub open spec fn decodable(b: Seq<u8>) -> bool {
        &&& b.len() == CREDENTIAL_REQUEST_LEN
        &&& valid_element(b.subrange(0, ELEM_LEN as int))
        &&& Ke1Message::decodable(b.subrange(ELEM_LEN as int, CREDENTIAL_REQUEST_LEN as int))
    }

    /// The credential request that a decodable byte string encodes.
    pub open spec fn decode(b: Seq<u8>) -> CredentialRequestView {
        CredentialRequestView {
            blinded_element: b.subrange(0, ELEM_LEN as int),
            ke1_message: Ke1Message::decode(
                b.subrange(ELEM_LEN as int, CREDENTIAL_REQUEST_LEN as int),
            ),
        }
    }

    /// Serialization into bytes.
    pub fn serialize(&self) -> (out: Vec<u8>)
        ensures
            out@ == Self::encode(self@),
            out@.len() == CREDENTIAL_REQUEST_LEN,
    {
        proof {
            use_type_invariant(self);
        }
        let ke1 = self.ke1_message.serialize();
        join(self.blinded_element.as_slice(), ke1.as_slice())
    }

    /// Deserialization from bytes.
    pub fn deserialize(input: &[u8]) -> (out: Result<Self, ProtocolError>)
        ensures
            out is Ok <==> Self::decodable(input@),
            out is Ok ==> out->Ok_0@ == Self::decode(input@),
            out is Err ==> out->Err_0 == ProtocolError::InvalidByteSequence,
    {
        if input.len() != CREDENTIAL_REQUEST_LEN {
            return Err(ProtocolError::InvalidByteSequence);
        }
        match Self::deserialize_take(input) {
            Ok((request, rest)) => {
                assert(input@.subrange(0, CREDENTIAL_REQUEST_LEN as int) =~= input@);
                Ok(request)
            },
            Err(e) => {
                assert(input@.subrange(0, CREDENTIAL_REQUEST_LEN as int) =~= input@);
                Err(e)
            },
        }
    }

    /// Reads a credential request from the front of `input` and hands back
    /// what follows it. The input is refused where it is shorter than a
    /// request or its front does not encode one.
    pub fn deserialize_take(input: &[u8]) -> (out: Result<(Self, &[u8]), ProtocolError>)
        ensures
            out is Ok <==> input@.len() >= CREDENTIAL_REQUEST_LEN && Self::decodable(
                input@.subrange(0, CREDENTIAL_REQUEST_LEN as int),
            ),
            out is Ok ==> out->Ok_0.0@ == Self::decode(
                input@.subrange(0, CREDENTIAL_REQUEST_LEN as int),
            ),
            out is Ok ==> out->Ok_0.1@ == input@.subrange(
                CREDENTIAL_REQUEST_LEN as int,
                input@.len() as int,
            ),
            out is Err ==> out->Err_0 == ProtocolError::InvalidByteSequence,
    {
        if input.len() < CREDENTIAL_REQUEST_LEN {
            return Err(ProtocolError::InvalidByteSequence);
        }
        let ghost front = input@.subrange(0, CREDENTIAL_REQUEST_LEN as int);
        let blinded_element = cut(input, 0, ELEM_LEN);
        let ke1_bytes = cut(input, ELEM_LEN, CREDENTIAL_REQUEST_LEN);
        let rest = slice_subrange(input, CREDENTIAL_REQUEST_LEN, input.len());
        assert(blinded_element@ =~= front.subrange(0, ELEM_LEN as int));
        assert(ke1_bytes@ =~= front.subrange(ELEM_LEN as int, CREDENTIAL_REQUEST_LEN as int));
        if !is_element(blinded_element.as_slice()) {
            return Err(ProtocolError::InvalidByteSequence);
        }
        match Ke1Message::deserialize(ke1_bytes.as_slice()) {
            Ok(ke1_message) => Ok((CredentialRequest { blinded_element, ke1_message }, rest)),
            Err(e) => Err(e),
        }
    }

    /// The part of the request that the key exchange binds into its
    /// transcript beside its own message: the encoded blinded element.
    pub fn to_parts(&self) -> (out: Vec<u8>)
        ensures
            out@ == self@.blinded_element,
    {
        self.blinded_element.clone()
    }

    /// The blinded element of the request.
    pub fn get_blinded_element_for_testing(&self) -> (out: Vec<u8>)
        ensures
            out@ == self@.blinded_element,
    {
        self.blinded_element.clone()
    }

    /// Reading back what was written gives the same message, and the
    /// encoding has the advertised length.
    pub proof fn lemma_round_trip(v: CredentialRequestView)
        requires
            Self::valid(v),
        ensures
            Self::encode(v).len() == CREDENTIAL_REQUEST_LEN,
            Self::decodable(Self::encode(v)),
            Self::decode(Self::encode(v)) == v,
    {
        let b = Self::encode(v);
        let k = Ke1Message::encode(v.ke1_message);
        Ke1Message::lemma_round_trip(v.ke1_message);
        assert(b.subrange(0, ELEM_LEN as int) =~= v.blinded_element);
        assert(b.subrange(ELEM_LEN as int, CREDENTIAL_REQUEST_LEN as int) =~= k);
    }

    /// Writing what was read gives the same bytes.
    pub proof fn lemma_decode_encode(b: Seq<u8>)
        requires
            Self::decodable(b),
        ensures
            Self::valid(Self::decode(b)),
            Self::encode(Self::decode(b)) == b,
    {
        let k = b.subrange(ELEM_LEN as int, CREDENTIAL_REQUEST_LEN as int);
        Ke1Message::lemma_decode_encode(k);
        assert(Self::encode(Self::decode(b)) =~= b);
    }
}

/// What a credential response holds.
pub struct CredentialResponseView {
    /// The server's evaluation of the blinded password.
    pub evaluation_element: Seq<u8>,
    /// The nonce that the mask was derived with.
    pub masking_nonce: Seq<u8>,
    /// The server's public key and the envelope, masked.
    pub masked_response: Seq<u8>,
    /// The second message of the key exchange.
    pub ke2_message: Ke2MessageView,
}

/// The answer sent by the server to the user, upon reception of the login
/// attempt.
#[derive(Debug, PartialEq, Eq)]
pub struct CredentialResponse {
    pub(crate) evaluation_element: Vec<u8>,
    pub(crate) masking_nonce: Vec<u8>,
    pub(crate) masked_response: Vec<u8>,
    pub(crate) ke2_message: Ke2Message,
}

impl View for CredentialResponse {
    type V = CredentialResponseView;

    closed spec fn view(&self) -> CredentialResponseView {
        CredentialResponseView {
            evaluation_element: self.evaluation_element@,
            masking_nonce: self.masking_nonce@,
            masked_response: self.masked_response@,
            ke2_message: self.ke2_message@,
        }
    }
}

impl Clone for CredentialResponse {
    fn clone(&self) -> (out: Self)
        ensures
            out@ == self@,
    {
        proof {
            use_type_invariant(self);
        }
        CredentialResponse {
            evaluation_element: self.evaluation_element.clone(),
            masking_nonce: self.masking_nonce.clone(),
            masked_response: self.masked_response.clone(),
            ke2_message: self.ke2_message.clone(),
        }
    }
}

impl CredentialResponse {
    /// What holds of every credential response.
    #[verifier::type_invariant]
    pub open spec fn inv(self) -> bool {
        Self::well_formed(self@)
    }

    /// The field lengths of a response, that its evaluation encodes a group
    /// element, which may be the identity, and that its key-exchange message
    /// is well formed.
    pub open spec fn well_formed(v: CredentialResponseView) -> bool {
        &&& encodes_element(v.evaluation_element)
        &&& v.masking_nonce.len() == NONCE_LEN
        &&& v.masked_response.len() == MASKED_RESPONSE_LEN
        &&& Ke2Message::valid(v.ke2_message)
    }

    /// The same with an evaluation other than the identity: what the wire
    /// carries.
    pub open spec fn valid(v: CredentialResponseView) -> bool {
        &&& valid_element(v.evaluation_element)
        &&& v.masking_nonce.len() == NONCE_LEN
        &&& v.masked_response.len() == MASKED_RESPONSE_LEN
        &&& Ke2Message::valid(v.ke2_message)
    }

    /// The response that carries these four parts.
    pub(crate) fn new(
        evaluation_element: Vec<u8>,
        masking_nonce: Vec<u8>,
        masked_response: Vec<u8>,
        ke2_message: Ke2Message,
    ) -> (out: Self)
        requires
            encodes_element(evaluation_element@),
            masking_nonce@.len() == NONCE_LEN,
            masked_response@.len() == MASKED_RESPONSE_LEN,
        ensures
            out@ == (CredentialResponseView {
                evaluation_element: evaluation_element@,
                masking_nonce: masking_nonce@,
                masked_response: masked_response@,
                ke2_message: ke2_message@,
            }),
    {
        proof {
            use_type_invariant(&ke2_message);
        }
        CredentialResponse { evaluation_element, masking_nonce, masked_response, ke2_message }
    }

    /// The server's evaluation of the blinded password.
    pub fn evaluation_element(&self) -> (out: &[u8])
        ensures
            out@ == self@.evaluation_element,
            encodes_element(out@),
    {
        proof {
            use_type_invariant(self);
        }
        self.evaluation_element.as_slice()
    }

    /// The nonce that the mask was derived with.
    pub fn masking_nonce(&self) -> (out: &[u8])
        ensures
            out@ == self@.masking_nonce,
            out@.len() == NONCE_LEN,
    {
        proof {
            use_type_invariant(self);
        }
        self.masking_nonce.as_slice()
    }

    /// The server's public key and the envelope, masked.
    pub fn masked_response(&self) -> (out: &[u8])
        ensures
            out@ == self@.masked_response,
            out@.len() == MASKED_RESPONSE_LEN,
    {
        proof {
            use_type_invariant(self);
        }
        self.masked_response.as_slice()
    }

    /// The second message of the key exchange.
    pub fn ke2_message(&self) -> (out: &Ke2Message)
        ensures
            out@ == self@.ke2_message,
    {
        &self.ke2_message
    }

    /// The encoding of a response without its key-exchange message: the
    /// evaluation element, the masking nonce, the masked response.
    pub open spec fn encode_without_ke(v: CredentialResponseView) -> Seq<u8> {
        v.evaluation_element + v.masking_nonce + v.masked_response
    }

    /// The wire encoding: the part above, then the key-exchange message.
    pub open spec fn encode(v: CredentialResponseView) -> Seq<u8> {
        Self::encode_without_ke(v) + Ke2Message::encode(v.ke2_message)
    }

    /// Which byte strings are read as a credential response.
    pub open spec fn decodable(b: Seq<u8>) -> bool {
        &&& b.len() == CREDENTIAL_RESPONSE_LEN
        &&& valid_element(b.subrange(0, ELEM_LEN as int))
        &&& Ke2Message::decodable(
            b.subrange(CREDENTIAL_RESPONSE_WITHOUT_KE_LEN as int, CREDENTIAL_RESPONSE_LEN as int),
        )
    }

    /// The credential response that a decodable byte string encodes.
    pub open spec fn decode(b: Seq<u8>) -> CredentialResponseView {
        CredentialResponseView {
            evaluation_element: b.subrange(0, ELEM_LEN as int),
            masking_nonce: b.subrange(ELEM_LEN as int, ELEM_LEN + NONCE_LEN),
            masked_response: b.subrange(
                ELEM_LEN + NONCE_LEN,
                CREDENTIAL_RESPONSE_WITHOUT_KE_LEN as int,
            ),
            ke2_message: Ke2Message::decode(
                b.subrange(
                    CREDENTIAL_RESPONSE_WITHOUT_KE_LEN as int,
                    CREDENTIAL_RESPONSE_LEN as int,
                ),
            ),
        }
    }

    /// Serialization into bytes.
    pub fn serialize(&self) -> (out: Vec<u8>)
        ensures
            out@ == Self::encode(self@),
            out@.len() == CREDENTIAL_RESPONSE_LEN,
    {
        proof {
            use_type_invariant(self);
        }
        let head = self.to_parts();
        let ke2 = self.ke2_message.serialize();
        join(head.as_slice(), ke2.as_slice())
    }

    /// Deserialization from bytes.
    pub fn deserialize(input: &[u8]) -> (out: Result<Self, ProtocolError>)
        ensures
            out is Ok <==> Self::decodable(input@),
            out is Ok ==> out->Ok_0@ == Self::decode(input@),
            out is Err ==> out->Err_0 == ProtocolError::InvalidByteSequence,
    {
        if input.len() != CREDENTIAL_RESPONSE_LEN {
            return Err(ProtocolError::InvalidByteSequence);
        }
        let evaluation_element = cut(input, 0, ELEM_LEN);
        if !is_element(evaluation_element.as_slice()) {
            return Err(ProtocolError::InvalidByteSequence);
        }
        let masking_nonce = cut(input, ELEM_LEN, ELEM_LEN + NONCE_LEN);
        let masked_response = cut(input, ELEM_LEN + NONCE_LEN, CREDENTIAL_RESPONSE_WITHOUT_KE_LEN);
        let ke2_bytes = cut(input, CREDENTIAL_RESPONSE_WITHOUT_KE_LEN, CREDENTIAL_RESPONSE_LEN);
        match Ke2Message::deserialize(ke2_bytes.as_slice()) {
            Ok(ke2_message) => Ok(
                CredentialResponse {
                    evaluation_element,
                    masking_nonce,
                    masked_response,
                    ke2_message,
                },
            ),
            Err(e) => Err(e),
        }
    }

    /// The part of the response that the key exchange binds into its
    /// transcript beside its own message: the encoding without the
    /// key-exchange message.
    pub fn to_parts(&self) -> (out: Vec<u8>)
        ensures
            out@ == Self::encode_without_ke(self@),
            out@.len() == CREDENTIAL_RESPONSE_WITHOUT_KE_LEN,
    {
        proof {
            use_type_invariant(self);
        }
        let head = join(self.evaluation_element.as_slice(), self.masking_nonce.as_slice());
        join(head.as_slice(), self.masked_response.as_slice())
    }

    /// The same response with another evaluation element. Every encoding of
    /// a group element is taken, that of the identity too, which no response
    /// read from the wire carries; bytes that encode no element are refused.
    pub fn set_evaluation_element_for_testing(&self, beta: &[u8]) -> (out: Result<
        Self,
        ProtocolError,
    >)
        ensures
            out is Ok <==> encodes_element(beta@),
            out is Ok ==> out->Ok_0@ == (CredentialResponseView {
                evaluation_element: beta@,
                masking_nonce: self@.masking_nonce,
                masked_response: self@.masked_response,
                ke2_message: self@.ke2_message,
            }),
            out is Err ==> out->Err_0 == ProtocolError::InvalidByteSequence,
    {
        proof {
            use_type_invariant(self);
        }
        if !is_point(beta) {
            return Err(ProtocolError::InvalidByteSequence);
        }
        Ok(
            CredentialResponse {
                evaluation_element: copy_of(beta),
                masking_nonce: self.masking_nonce.clone(),
                masked_response: self.masked_response.clone(),
                ke2_message: self.ke2_message.clone(),
            },
        )
    }

    /// Reading back what was written gives the same message, and the
    /// encoding has the advertised length.
    pub proof fn lemma_round_trip(v: CredentialResponseView)
        requires
            Self::valid(v),
        ensures
            Self::encode(v).len() == CREDENTIAL_RESPONSE_LEN,
            Self::decodable(Self::encode(v)),
            Self::decode(Self::encode(v)) == v,
    {
        let b = Self::encode(v);
        let k = Ke2Message::encode(v.ke2_message);
        Ke2Message::lemma_round_trip(v.ke2_message);
        assert(b.subrange(0, ELEM_LEN as int) =~= v.evaluation_element);
        assert(b.subrange(ELEM_LEN as int, ELEM_LEN + NONCE_LEN) =~= v.masking_nonce);
        assert(b.subrange(ELEM_LEN + NONCE_LEN, CREDENTIAL_RESPONSE_WITHOUT_KE_LEN as int)
            =~= v.masked_response);
        assert(b.subrange(
            CREDENTIAL_RESPONSE_WITHOUT_KE_LEN as int,
            CREDENTIAL_RESPONSE_LEN as int,
        ) =~= k);
    }

    /// Writing what was read gives the same bytes.
    pub proof fn lemma_decode_encode(b: Seq<u8>)
        requires
            Self::decodable(b),
        ensures
            Self::valid(Self::decode(b)),
            Self::encode(Self::decode(b)) == b,
    {
        let k = b.subrange(
            CREDENTIAL_RESPONSE_WITHOUT_KE_LEN as int,
            CREDENTIAL_RESPONSE_LEN as int,
        );
        Ke2Message::lemma_decode_encode(k);
        assert(Self::encode(Self::decode(b)) =~= b);
    }
}

/// The answer sent by the client to the server, upon reception of the sealed
/// envelope.
#[derive(Debug, PartialEq, Eq)]
pub struct CredentialFinalization {
    pub(crate) ke3_message: Ke3Message,
}

impl View for CredentialFinalization {
    type V = Seq<u8>;

    closed spec fn view(&self) -> Seq<u8> {
        self.ke3_message@
    }
}

impl Clone for CredentialFinalization {
    fn clone(&self) -> (out: Self)
        ensures
            out@ == self@,
    {
        CredentialFinalization { ke3_message: self.ke3_message.clone() }
    }
}

impl CredentialFinalization {
    /// The finalization that carries a key-exchange message.
    pub(crate) fn new(ke3_message: Ke3Message) -> (out: Self)
        ensures
            out@ == ke3_message@,
    {
        CredentialFinalization { ke3_message }
    }

    /// The third message of the key exchange.
    pub fn ke3_message(&self) -> (out: &Ke3Message)
        ensures
            out@ == self@,
    {
        &self.ke3_message
    }

    /// Serialization into bytes: the client's tag.
    pub fn serialize(&self) -> (out: Vec<u8>)
        ensures
            out@ == self@,
            out@.len() == CREDENTIAL_FINALIZATION_LEN,
    {
        self.ke3_message.serialize()
    }

    /// Deserialization from bytes.
    pub fn deserialize(input: &[u8]) -> (out: Result<Self, ProtocolError>)
        ensures
            out is Ok <==> input@.len() == CREDENTIAL_FINALIZATION_LEN,
            out is Ok ==> out->Ok_0@ == input@,
            out is Err ==> out->Err_0 == ProtocolError::InvalidByteSequence,
    {
        match Ke3Message::deserialize(input) {
            Ok(ke3_message) => Ok(CredentialFinalization { ke3_message }),
            Err(e) => Err(e),
        }
    }
}

/// What a server has prepared of a login before its long-term private key
/// is used.
pub struct PreparedLoginView {
    /// The server's evaluation of the blinded password.
    pub evaluation_element: Seq<u8>,
    /// The nonce that the mask was derived with.
    pub masking_nonce: Seq<u8>,
    /// The server's public key and the envelope, masked.
    pub masked_response: Seq<u8>,
    /// The key exchange, as far as it has come.
    pub ke2_builder: Ke2BuilderView,
    /// The context of the login.
    pub context: Seq<u8>,
    /// The identifiers of the login.
    pub identifiers: IdentifiersView,
}

/// What a builder of a server's login holds.
pub struct ServerLoginBuilderView<SK> {
    /// The server's long-term private key, or the handle to it.
    pub server_s_sk: SK,
    /// What has been prepared of the login.
    pub prepared: PreparedLoginView,
}

/// Builder for a server's login when using remote keys: the first step of
/// the login, stopped where the server's long-term private key is needed.
#[derive(Debug)]
pub struct ServerLoginBuilder<SK> {
    pub(crate) server_s_sk: SK,
    pub(crate) evaluation_element: Vec<u8>,
    pub(crate) masking_nonce: Vec<u8>,
    pub(crate) masked_response: Vec<u8>,
    pub(crate) ke2_builder: Ke2Builder,
    pub(crate) context: Vec<u8>,
    pub(crate) identifiers: OwnedIdentifiers,
}

/// The parts of a builder, without the private key.
pub(crate) struct ServerLoginBuilderParts {
    pub(crate) evaluation_element: Vec<u8>,
    pub(crate) masking_nonce: Vec<u8>,
    pub(crate) masked_response: Vec<u8>,
    pub(crate) ke2_builder: Ke2Builder,
    pub(crate) context: Vec<u8>,
    pub(crate) identifiers: OwnedIdentifiers,
}

impl<SK> View for ServerLoginBuilder<SK> {
    type V = ServerLoginBuilderView<SK>;

    closed spec fn view(&self) -> ServerLoginBuilderView<SK> {
        ServerLoginBuilderView {
            server_s_sk: self.server_s_sk,
            prepared: PreparedLoginView {
                evaluation_element: self.evaluation_element@,
                masking_nonce: self.masking_nonce@,
                masked_response: self.masked_response@,
                ke2_builder: self.ke2_builder@,
                context: self.context@,
                identifiers: self.identifiers@,
            },
        }
    }
}

impl<SK> ServerLoginBuilder<SK> {
    /// What holds of every builder.
    #[verifier::type_invariant]
    pub open spec fn inv(self) -> bool {
        &&& valid_element(self@.prepared.evaluation_element)
        &&& self@.prepared.masking_nonce.len() == NONCE_LEN
        &&& self@.prepared.masked_response.len() == MASKED_RESPONSE_LEN
    }

    /// The builder that carries these parts.
    pub(crate) fn new(
        server_s_sk: SK,
        evaluation_element: Vec<u8>,
        masking_nonce: Vec<u8>,
        masked_response: Vec<u8>,
        ke2_builder: Ke2Builder,
        context: Vec<u8>,
        identifiers: OwnedIdentifiers,
    ) -> (out: Self)
        requires
            valid_element(evaluation_element@),
            masking_nonce@.len() == NONCE_LEN,
            masked_response@.len() == MASKED_RESPONSE_LEN,
        ensures
            out@ == (ServerLoginBuilderView {
                server_s_sk,
                prepared: PreparedLoginView {
                    evaluation_element: evaluation_element@,
                    masking_nonce: masking_nonce@,
                    masked_response: masked_response@,
                    ke2_builder: ke2_builder@,
                    context: context@,
                    identifiers: identifiers@,
                },
            }),
    {
        ServerLoginBuilder {
            server_s_sk,
            evaluation_element,
            masking_nonce,
            masked_response,
            ke2_builder,
            context,
            identifiers,
        }
    }

    /// Takes the builder apart.
    pub(crate) fn into_parts(self) -> (out: ServerLoginBuilderParts)
        ensures
            self@.prepared == (PreparedLoginView {
                evaluation_element: out.evaluation_element@,
                masking_nonce: out.masking_nonce@,
                masked_response: out.masked_response@,
                ke2_builder: out.ke2_builder@,
                context: out.context@,
                identifiers: out.identifiers@,
            }),
            valid_element(out.evaluation_element@),
            out.masking_nonce@.len() == NONCE_LEN,
            out.masked_response@.len() == MASKED_RESPONSE_LEN,
    {
        proof {
            use_type_invariant(&self);
        }
        ServerLoginBuilderParts {
            evaluation_element: self.evaluation_element,
            masking_nonce: self.masking_nonce,
            masked_response: self.masked_response,
            ke2_builder: self.ke2_builder,
            context: self.context,
            identifiers: self.identifiers,
        }
    }

    /// The returned data here has to be processed and the result given as
    /// an input to [`ServerLoginBuilder::build()`]: it is the client's
    /// ephemeral public key, and the result is its Diffie-Hellman value with
    /// the server's long-term private key.
    pub fn data(&self) -> (out: &PublicKey)
        ensures
            out@ == self@.prepared.ke2_builder.client_e_pk,
    {
        self.ke2_builder.data()
    }

    /// The handle to the private key of the server's setup.
    pub fn private_key(&self) -> (out: &SK)
        ensures
            *out == self@.server_s_sk,
    {
        &self.server_s_sk
    }

    /// Build the server's login after attaining the input for the key
    /// exchange.
    pub fn build(self, input: &[u8]) -> (out: Result<ServerLoginStartResult, ProtocolError>)
        ensures
            out is Ok <==> input@.len() == PK_LEN,
            out is Ok ==> out->Ok_0.message@ == login_built(self@.prepared, input@).0,
            out is Ok ==> out->Ok_0.state@ == login_built(self@.prepared, input@).1,
            out is Err ==> out->Err_0 == ProtocolError::IncompatibleEnvironmentForRemoteKey,
    {
        ServerLogin::build(self, input)
    }
}

} // verus!
