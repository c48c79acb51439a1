//! Registration: the client blinds its password, the server evaluates the
//! blinded password under the user's key, the client seals an envelope under
//! the result and uploads it, and the server keeps the upload as the user's
//! password file.

use vstd::prelude::*;
use crate::bytes::{copy_of, join};
use crate::envelope::{seal_with_nonce, sealed_with_nonce, SealResult, NONCE_LEN};
use crate::errors::ProtocolError;
use crate::group::{
    derive_scalar, derived_scalar, is_element, is_scalar, random_scalar, valid_element,
    valid_scalar,
};
use crate::hash::{ct_eq, expand, extract, hkdf_expand, hkdf_extract, HASH_LEN};
use crate::identifiers::{Identifiers, IdentifiersView};
use crate::keypair::{PublicKey, SK_LEN};
use crate::ksf::{Identity, Ksf};
use crate::labels::{derive_key_pair_label, label_derive_key_pair, label_oprf_key, oprf_key_label};
use crate::messages::{
    RegistrationRequest, RegistrationResponse, RegistrationResponseView, RegistrationUpload,
    RegistrationUploadView, REGISTRATION_UPLOAD_LEN,
};
use crate::oprf::{blind_with, evaluate, finalize, oprf_blinded, oprf_evaluate, oprf_finalize};
use crate::random::random_bytes;
use crate::secret::{expose, guard, held, Secret};
use crate::setup::{OprfSeed, ServerSetup};

verus! {

/// The length in bytes of an encoded password file.
pub const SERVER_REGISTRATION_LEN: usize = REGISTRATION_UPLOAD_LEN;

/// The key material from which a user's key of the oblivious function is
/// derived: the seed expanded under the user's credential identifier.
pub open spec fn oprf_key_material(oprf_seed: Seq<u8>, credential_identifier: Seq<u8>) -> Seq<u8> {
    hkdf_expand(oprf_seed, credential_identifier + label_oprf_key(), SK_LEN as nat)
}

/// The key of the oblivious function that belongs to some key material, or
/// `None` where the group derives none from it.
pub open spec fn oprf_key_from_material(key_material: Seq<u8>) -> Option<Seq<u8>> {
    derived_scalar(key_material, label_derive_key_pair())
}

/// The key of the oblivious function for a user.
pub open spec fn oprf_key(oprf_seed: Seq<u8>, credential_identifier: Seq<u8>) -> Option<Seq<u8>> {
    oprf_key_from_material(oprf_key_material(oprf_seed, credential_identifier))
}

/// What a key-stretching function, or the identity where none is given,
/// makes of an input.
pub open spec fn stretched_by<K: Ksf>(ksf: Option<&K>, input: Seq<u8>) -> Option<Seq<u8>> {
    match ksf {
        Some(k) => k.stretched(input),
        None => Some(input),
    }
}

/// The randomized password: extracted, under the empty salt, from the
/// password followed by the stretched output of the oblivious function.
pub open spec fn randomized_password(password: Seq<u8>, stretched: Seq<u8>) -> Seq<u8> {
    hkdf_extract(Seq::empty(), password + stretched)
}

/// The randomized password that a client computes from its password, its
/// blind and the server's evaluation. An evaluation that is not an element
/// other than the identity is refused as an invalid byte sequence. The rest
/// is refused as a reflection where the evaluation is the client's own
/// blinded element, as a blinding failure where the oblivious function
/// refuses the password, and with the key-stretching function's error where
/// that refuses.
pub open spec fn recovered_password<K: Ksf>(
    blind: Seq<u8>,
    blinded_element: Seq<u8>,
    password: Seq<u8>,
    evaluation_element: Seq<u8>,
    ksf: Option<&K>,
) -> Result<Seq<u8>, ProtocolError> {
    if !valid_element(evaluation_element) {
        Err(ProtocolError::InvalidByteSequence)
    } else if evaluation_element == blinded_element {
        Err(ProtocolError::ReflectionError)
    } else {
        match oprf_finalize(password, blind, evaluation_element) {
            None => Err(ProtocolError::Blinding),
            Some(output) => match stretched_by(ksf, output) {
                None => Err(ProtocolError::KsfError),
                Some(stretched) => Ok(randomized_password(password, stretched)),
            },
        }
    }
}

/// Applies a key-stretching function, or the identity where none is given.
fn stretch<K: Ksf>(ksf: Option<&K>, input: Vec<u8>) -> (out: Result<Vec<u8>, ProtocolError>)
    ensures
        match out {
            Ok(o) => stretched_by(ksf, input@) == Some(o@) && o@.len() == input@.len(),
            Err(e) => stretched_by(ksf, input@) is None && e == ProtocolError::KsfError,
        },
{
    match ksf {
        Some(k) => k.hash(input),
        None => Ok(input),
    }
}

/// Computes the randomized password on the client. The result is exactly
/// [`recovered_password`].
pub(crate) fn recover_password<K: Ksf>(
    blind: &[u8],
    blinded_element: &[u8],
    password: &[u8],
    evaluation_element: &[u8],
    ksf: Option<&K>,
) -> (out: Result<Secret, ProtocolError>)
    requires
        valid_scalar(blind@),
        valid_element(blinded_element@),
    ensures
        match recovered_password(blind@, blinded_element@, password@, evaluation_element@, ksf) {
            Ok(v) => out is Ok && held(out->Ok_0) == v && v.len() == HASH_LEN,
            Err(e) => out is Err && out->Err_0 == e,
        },
{
    if !is_element(evaluation_element) {
        return Err(ProtocolError::InvalidByteSequence);
    }
    if ct_eq(evaluation_element, blinded_element) {
        return Err(ProtocolError::ReflectionError);
    }
    let output = match finalize(password, blind, evaluation_element) {
        Ok(o) => guard(o),
        Err(_) => {
            return Err(ProtocolError::Blinding);
        },
    };
    let stretched = match stretch(ksf, copy_of(expose(&output))) {
        Ok(s) => guard(s),
        Err(e) => {
            return Err(e);
        },
    };
    let ikm = guard(join(password, expose(&stretched)));
    let salt: Vec<u8> = Vec::new();
    assert(salt@ =~= Seq::<u8>::empty());
    Ok(guard(extract(salt.as_slice(), expose(&ikm))))
}

/// Derives the key of the oblivious function from key material.
pub(crate) fn derive_oprf_key(key_material: &[u8]) -> (out: Result<Secret, ProtocolError>)
    ensures
        match oprf_key_from_material(key_material@) {
            Some(k) => out is Ok && held(out->Ok_0) == k && valid_scalar(k),
            None => out is Err && out->Err_0 == ProtocolError::SerializationError,
        },
{
    match derive_scalar(key_material, derive_key_pair_label().as_slice()) {
        Ok(k) => Ok(guard(k)),
        Err(_) => Err(ProtocolError::SerializationError),
    }
}

/// Expands the seed to the key material of a user.
pub(crate) fn expand_oprf_key_material(oprf_seed: &OprfSeed, credential_identifier: &[u8]) -> (out:
    Secret)
    ensures
        held(out) == oprf_key_material(oprf_seed@, credential_identifier@),
{
    let seed = guard(oprf_seed.serialize());
    let info = join(credential_identifier, oprf_key_label().as_slice());
    guard(expand(expose(&seed), info.as_slice(), SK_LEN))
}

/// What a client keeps between the two legs of a registration.
pub struct ClientRegistrationView {
    /// The blind of the oblivious function.
    pub blind: Seq<u8>,
    /// The blinded password that was sent.
    pub blinded_element: Seq<u8>,
}

/// The state that the client keeps between the two legs of a registration.
/// It is used up by [`ClientRegistration::finish`].
#[derive(Debug)]
pub struct ClientRegistration {
    pub(crate) blind: Secret,
    pub(crate) blinded_element: Vec<u8>,
}

impl View for ClientRegistration {
    type V = ClientRegistrationView;

    closed spec fn view(&self) -> ClientRegistrationView {
        ClientRegistrationView { blind: held(self.blind), blinded_element: self.blinded_element@ }
    }
}

/// Optional parameters for the last step of a client's registration.
#[derive(Clone, Copy, Debug)]
pub struct ClientRegistrationFinishParameters<'a, K: Ksf = Identity> {
    /// Specifying the identifiers idU and idS
    pub identifiers: Identifiers<'a>,
    /// Specifying a configuration for the key stretching function
    pub ksf: Option<&'a K>,
}

impl<'a> Default for ClientRegistrationFinishParameters<'a, Identity> {
    fn default() -> (out: Self)
        ensures
            out.identifiers@ == (IdentifiersView { client: None, server: None }),
            out.ksf is None,
    {
        ClientRegistrationFinishParameters { identifiers: Identifiers::default(), ksf: None }
    }
}

impl<'a, K: Ksf> ClientRegistrationFinishParameters<'a, K> {
    /// Parameters with these identifiers and this key-stretching function.
    pub fn new(identifiers: Identifiers<'a>, ksf: Option<&'a K>) -> (out: Self)
        ensures
            out.identifiers == identifiers,
            out.ksf == ksf,
    {
        ClientRegistrationFinishParameters { identifiers, ksf }
    }
}

/// What the first step of a client's registration returns.
#[derive(Debug)]
pub struct ClientRegistrationStartResult {
    /// The registration request message to be sent to the server
    pub message: RegistrationRequest,
    /// The client state that must be persisted in order to complete
    /// registration
    pub state: ClientRegistration,
}

/// What the last step of a client's registration gives.
pub struct ClientRegistrationFinishView {
    /// The upload to send to the server.
    pub message: RegistrationUploadView,
    /// The key that the client exports.
    pub export_key: Seq<u8>,
    /// The server's static public key.
    pub server_s_pk: Seq<u8>,
}

/// What the last step of a client's registration returns.
#[derive(Debug)]
pub struct ClientRegistrationFinishResult {
    /// The registration upload message to be sent to the server
    pub message: RegistrationUpload,
    /// The export key output by client registration
    pub export_key: Vec<u8>,
    /// The server's static public key
    pub server_s_pk: PublicKey,
}

impl View for ClientRegistrationFinishResult {
    type V = ClientRegistrationFinishView;

    open spec fn view(&self) -> ClientRegistrationFinishView {
        ClientRegistrationFinishView {
            message: self.message@,
            export_key: self.export_key@,
            server_s_pk: self.server_s_pk@,
        }
    }
}

/// What the first step of a registration keeps for a password under a
/// blind: the blind, and the blinded password that is sent. It is a
/// blinding failure where the blind is not a scalar other than zero, where
/// the oblivious function refuses the password, and where the blinded
/// password is the identity.
pub open spec fn registration_started(password: Seq<u8>, blind: Seq<u8>) -> Result<
    ClientRegistrationView,
    ProtocolError,
> {
    if !valid_scalar(blind) {
        Err(ProtocolError::Blinding)
    } else {
        match oprf_blinded(password, blind) {
            None => Err(ProtocolError::Blinding),
            Some(blinded_element) => if valid_element(blinded_element) {
                Ok(ClientRegistrationView { blind, blinded_element })
            } else {
                Err(ProtocolError::Blinding)
            },
        }
    }
}

/// What a registration finished under `nonce` gives: the envelope sealed
/// under the recovered password, the server's key and the names, with the
/// client's public key and the masking key beside it. A nonce of the wrong
/// length is refused before anything is computed.
pub open spec fn registration_finished<K: Ksf>(
    state: ClientRegistrationView,
    password: Seq<u8>,
    response: RegistrationResponseView,
    identifiers: IdentifiersView,
    ksf: Option<&K>,
    nonce: Seq<u8>,
) -> Result<ClientRegistrationFinishView, ProtocolError> {
    if nonce.len() != NONCE_LEN {
        Err(ProtocolError::InvalidNonce)
    } else {
        match recovered_password(
            state.blind,
            state.blinded_element,
            password,
            response.evaluation_element,
            ksf,
        ) {
            Err(e) => Err(e),
            Ok(randomized_pwd) => match sealed_with_nonce(
                randomized_pwd,
                nonce,
                response.server_s_pk,
                identifiers,
            ) {
                Err(e) => Err(e),
                Ok(s) => Ok(
                    ClientRegistrationFinishView {
                        message: RegistrationUploadView {
                            envelope: s.envelope,
                            masking_key: s.masking_key,
                            client_s_pk: s.client_s_pk,
                        },
                        export_key: s.export_key,
                        server_s_pk: response.server_s_pk,
                    },
                ),
            },
        }
    }
}

impl ClientRegistration {
    /// What holds of every such state.
    #[verifier::type_invariant]
    pub open spec fn inv(self) -> bool {
        valid_scalar(self@.blind) && valid_element(self@.blinded_element)
    }

    /// Starts a registration under a given blind. The result is exactly
    /// [`registration_started`].
    pub fn start_with_blind(blind: Vec<u8>, password: &[u8]) -> (out: Result<
        ClientRegistrationStartResult,
        ProtocolError,
    >)
        ensures
            match registration_started(password@, blind@) {
                Ok(v) => out is Ok && out->Ok_0.state@ == v && out->Ok_0.message@
                    == v.blinded_element,
                Err(e) => out is Err && out->Err_0 == e,
            },
    {
        if !is_scalar(blind.as_slice()) {
            return Err(ProtocolError::Blinding);
        }
        let blinded_element = match blind_with(password, blind.as_slice()) {
            Ok(m) => m,
            Err(_) => {
                return Err(ProtocolError::Blinding);
            },
        };
        if !is_element(blinded_element.as_slice()) {
            return Err(ProtocolError::Blinding);
        }
        let message = RegistrationRequest::new(copy_of(blinded_element.as_slice()));
        let state = ClientRegistration { blind: guard(blind), blinded_element };
        Ok(ClientRegistrationStartResult { message, state })
    }

    /// Returns an initial "blinded" request to send to the server, as well as
    /// a state to keep for the second leg. Whatever blind was drawn, the
    /// result is what [`registration_started`] gives for the password under
    /// some scalar other than zero.
    pub fn start<R: rand::RngCore + rand::CryptoRng>(rng: &mut R, password: &[u8]) -> (out: Result<
        ClientRegistrationStartResult,
        ProtocolError,
    >)
        ensures
            exists|blind: Seq<u8>|
                valid_scalar(blind) && match #[trigger] registration_started(password@, blind) {
                    Ok(v) => out is Ok && out->Ok_0.state@ == v && out->Ok_0.message@
                        == v.blinded_element,
                    Err(e) => out is Err && out->Err_0 == e,
                },
    {
        let blind = random_scalar(rng);
        let ghost b = blind@;
        let out = Self::start_with_blind(blind, password);
        proof {
            assert(valid_scalar(b) && match registration_started(password@, b) {
                Ok(v) => out is Ok && out->Ok_0.state@ == v && out->Ok_0.message@
                    == v.blinded_element,
                Err(e) => out is Err && out->Err_0 == e,
            });
        }
        out
    }

    /// Finishes the registration under a given envelope nonce. The result is
    /// exactly [`registration_finished`].
    pub fn finish_with_nonce<K: Ksf>(
        self,
        nonce: Vec<u8>,
        password: &[u8],
        registration_response: RegistrationResponse,
        params: ClientRegistrationFinishParameters<K>,
    ) -> (out: Result<ClientRegistrationFinishResult, ProtocolError>)
        ensures
            match registration_finished(
                self@,
                password@,
                registration_response@,
                params.identifiers@,
                params.ksf,
                nonce@,
            ) {
                Ok(v) => out is Ok && out->Ok_0@ == v,
                Err(e) => out is Err && out->Err_0 == e,
            },
    {
        proof {
            use_type_invariant(&self);
        }
        if nonce.len() != NONCE_LEN {
            return Err(ProtocolError::InvalidNonce);
        }
        let randomized_pwd = match recover_password(
            expose(&self.blind),
            self.blinded_element.as_slice(),
            password,
            registration_response.evaluation_element(),
            params.ksf,
        ) {
            Ok(p) => p,
            Err(e) => {
                return Err(e);
            },
        };
        let sealed = match seal_with_nonce(
            nonce,
            expose(&randomized_pwd),
            registration_response.server_s_pk(),
            params.identifiers,
        ) {
            Ok(s) => s,
            Err(e) => {
                return Err(e);
            },
        };
        Ok(Self::finish_result(sealed, registration_response))
    }

    /// "Unblinds" the server's answer and returns a final message containing
    /// cryptographic identifiers, to be sent to the server on setup
    /// finalization. Whatever envelope nonce was drawn, the result is what
    /// [`registration_finished`] gives under the nonce that the upload's
    /// envelope carries; a failure is one that it gives under some nonce.
    pub fn finish<R: rand::RngCore + rand::CryptoRng, K: Ksf>(
        self,
        rng: &mut R,
        password: &[u8],
        registration_response: RegistrationResponse,
        params: ClientRegistrationFinishParameters<K>,
    ) -> (out: Result<ClientRegistrationFinishResult, ProtocolError>)
        ensures
            out is Ok ==> registration_finished(
                self@,
                password@,
                registration_response@,
                params.identifiers@,
                params.ksf,
                out->Ok_0.message@.envelope.nonce,
            ) == Ok::<ClientRegistrationFinishView, ProtocolError>(out->Ok_0@),
            out is Err ==> exists|nonce: Seq<u8>|
                nonce.len() == NONCE_LEN && #[trigger] registration_finished(
                    self@,
                    password@,
                    registration_response@,
                    params.identifiers@,
                    params.ksf,
                    nonce,
                ) == Err::<ClientRegistrationFinishView, ProtocolError>(out->Err_0),
    {
        let nonce = random_bytes(rng, NONCE_LEN);
        let ghost n = nonce@;
        let ghost state = self@;
        let out = self.finish_with_nonce(nonce, password, registration_response, params);
        proof {
            if out is Err {
                assert(registration_finished(
                    state,
                    password@,
                    registration_response@,
                    params.identifiers@,
                    params.ksf,
                    n,
                ) == Err::<ClientRegistrationFinishView, ProtocolError>(out->Err_0));
            }
        }
        out
    }

    /// Puts the result of sealing and the server's key together.
    fn finish_result(sealed: SealResult, registration_response: RegistrationResponse) -> (out:
        ClientRegistrationFinishResult)
        requires
            sealed.masking_key@.len() == HASH_LEN,
        ensures
            out@ == (ClientRegistrationFinishView {
                message: RegistrationUploadView {
                    envelope: sealed@.envelope,
                    masking_key: sealed@.masking_key,
                    client_s_pk: sealed@.client_s_pk,
                },
                export_key: sealed@.export_key,
                server_s_pk: registration_response@.server_s_pk,
            }),
    {
        let client_s_pk = sealed.client_key_pair.public().clone();
        let message = RegistrationUpload::new(sealed.envelope, sealed.masking_key, client_s_pk);
        let server_s_pk = registration_response.server_s_pk().clone();
        ClientRegistrationFinishResult { message, export_key: sealed.export_key, server_s_pk }
    }
}

/// What the first step of a server's registration returns.
#[derive(Debug)]
pub struct ServerRegistrationStartResult {
    /// The registration response message to send to the client
    pub message: RegistrationResponse,
}

/// The answer to a registration request under a user's key of the oblivious
/// function: the evaluation of the blinded password, and the server's
/// public key.
pub open spec fn registration_response(
    oprf_key: Option<Seq<u8>>,
    server_s_pk: Seq<u8>,
    blinded_element: Seq<u8>,
) -> Option<RegistrationResponseView> {
    match oprf_key {
        Some(k) => Some(
            RegistrationResponseView {
                evaluation_element: oprf_evaluate(k, blinded_element),
                server_s_pk,
            },
        ),
        None => None,
    }
}

/// The password file of a user: what the client uploaded at the end of its
/// registration.
#[derive(Debug, PartialEq, Eq)]
pub struct ServerRegistration(pub(crate) RegistrationUpload);

impl View for ServerRegistration {
    type V = RegistrationUploadView;

    closed spec fn view(&self) -> RegistrationUploadView {
        self.0@
    }
}

impl Clone for ServerRegistration {
    fn clone(&self) -> (out: Self)
        ensures
            out@ == self@,
    {
        ServerRegistration(self.0.clone())
    }
}

impl ServerRegistration {
    /// Answers a registration request with the key material of the user,
    /// for a server whose seed lives outside this library.
    pub fn start_with_key_material<SK, OS>(
        server_setup: &ServerSetup<SK, OS>,
        key_material: &[u8],
        message: RegistrationRequest,
    ) -> (out: Result<ServerRegistrationStartResult, ProtocolError>)
        ensures
            match registration_response(
                oprf_key_from_material(key_material@),
                server_setup.public_key_view(),
                message@,
            ) {
                Some(v) => out is Ok && out->Ok_0.message@ == v,
                None => out is Err && out->Err_0 == ProtocolError::SerializationError,
            },
    {
        let key = match derive_oprf_key(key_material) {
            Ok(k) => k,
            Err(e) => {
                return Err(e);
            },
        };
        let evaluation_element = evaluate(expose(&key), message.blinded_element());
        let server_s_pk = server_setup.public_key().clone();
        Ok(
            ServerRegistrationStartResult {
                message: RegistrationResponse::new(evaluation_element, server_s_pk),
            },
        )
    }

    /// From the client's "blinded" password, returns a response to be sent
    /// back to the client: the evaluation under the key of the user with
    /// this credential identifier, and the server's public key.
    pub fn start<SK>(
        server_setup: &ServerSetup<SK, OprfSeed>,
        message: RegistrationRequest,
        credential_identifier: &[u8],
    ) -> (out: Result<ServerRegistrationStartResult, ProtocolError>)
        ensures
            match registration_response(
                oprf_key(server_setup.oprf_seed_spec()@, credential_identifier@),
                server_setup.public_key_view(),
                message@,
            ) {
                Some(v) => out is Ok && out->Ok_0.message@ == v,
                None => out is Err && out->Err_0 == ProtocolError::SerializationError,
            },
    {
        let key_material = expand_oprf_key_material(
            server_setup.oprf_seed(),
            credential_identifier,
        );
        Self::start_with_key_material(server_setup, expose(&key_material), message)
    }

    /// From the client's cryptographic identifiers, fully populates and
    /// returns the password file.
    pub fn finish(message: RegistrationUpload) -> (out: Self)
        ensures
            out@ == message@,
    {
        ServerRegistration(message)
    }

    /// The upload that the file keeps, taken out of it.
    pub fn into_upload(self) -> (out: RegistrationUpload)
        ensures
            out@ == self@,
    {
        self.0
    }

    /// The upload that the file keeps.
    pub fn upload(&self) -> (out: &RegistrationUpload)
        ensures
            out@ == self@,
    {
        &self.0
    }

    /// Serialization into bytes.
    pub fn serialize(&self) -> (out: Vec<u8>)
        ensures
            out@ == RegistrationUpload::encode(self@),
            out@.len() == SERVER_REGISTRATION_LEN,
    {
        self.0.serialize()
    }

    /// Deserialization from bytes.
    pub fn deserialize(input: &[u8]) -> (out: Result<Self, ProtocolError>)
        ensures
            out is Ok <==> RegistrationUpload::decodable(input@),
            out is Ok ==> out->Ok_0@ == RegistrationUpload::decode(input@),
            out is Err ==> out->Err_0 == ProtocolError::InvalidByteSequence,
    {
        match RegistrationUpload::deserialize(input) {
            Ok(upload) => Ok(ServerRegistration(upload)),
            Err(e) => Err(e),
        }
    }
}

} // verus!
