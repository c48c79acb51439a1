//! Login: the client blinds its password and opens the key exchange; the
//! server evaluates the blinded password, masks the user's envelope and
//! answers the key exchange; the client recovers the envelope, opens it and
//! completes the key exchange; the server checks the client's tag.

use vstd::prelude::*;
use vstd::pervasive::cloned;
use crate::bytes::{copy_of, join, same_bytes};
use crate::envelope::{
    client_private_key, lemma_open_after_seal, masking_key, open, opened, sealed, Envelope,
    NONCE_LEN,
};
use crate::errors::ProtocolError;
use crate::group::{
    base_mult, is_element, is_scalar, random_scalar, scalar_mult, valid_element, valid_scalar,
};
use crate::hash::{expand, HASH_LEN};
use crate::identifiers::{
    bytes_or_empty, copy_or_empty, Identifiers, IdentifiersView, OwnedIdentifiers,
};
use crate::key_exchange::{
    client_finished, lemma_same_secrets_agree, server_built, server_finished, server_prepared,
    Ke1MessageView, Ke1State, Ke1StateView, Ke2Builder, Ke2State, Ke2StateView, MAX_FRAMED_LEN,
};
use crate::keypair::{PrivateKey, PublicKey, PK_LEN};
use crate::ksf::{Identity, Ksf};
use crate::labels::masking_key_label;
use crate::masking::{lemma_unmask_after_mask, mask, masked, unmask, unmasked};
use crate::messages::{
    CredentialFinalization, CredentialRequest, CredentialRequestView, CredentialResponse,
    CredentialResponseView, PreparedLoginView, RegistrationResponseView, RegistrationUpload,
    RegistrationUploadView, ServerLoginBuilder,
};
use crate::oprf::{blind_with, evaluate, oprf_evaluate};
use crate::random::random_bytes;
use crate::registration::{
    derive_oprf_key, expand_oprf_key_material, oprf_key_from_material, oprf_key_material,
    recover_password, recovered_password, registration_finished, registration_started,
    ClientRegistrationView, ServerRegistration,
};
use crate::secret::{expose, guard, held, Secret};
use crate::setup::{OprfSeed, ServerSetup};

verus! {

/// Optional parameters for the last step of a client's login.
#[derive(Clone, Copy, Debug)]
pub struct ClientLoginFinishParameters<'a, K: Ksf = Identity> {
    /// Specifying a context field that the server must agree on
    pub context: Option<&'a [u8]>,
    /// Specifying a user identifier and server identifier that will be
    /// matched against the server
    pub identifiers: Identifiers<'a>,
    /// Specifying a configuration for the key stretching function
    pub ksf: Option<&'a K>,
}

impl<'a> Default for ClientLoginFinishParameters<'a, Identity> {
    fn default() -> (out: Self)
        ensures
            out.context is None,
            out.identifiers@ == (IdentifiersView { client: None, server: None }),
            out.ksf is None,
    {
        ClientLoginFinishParameters {
            context: None,
            identifiers: Identifiers::default(),
            ksf: None,
        }
    }
}

impl<'a, K: Ksf> ClientLoginFinishParameters<'a, K> {
    /// Parameters with this context, these identifiers and this
    /// key-stretching function.
    pub fn new(context: Option<&'a [u8]>, identifiers: Identifiers<'a>, ksf: Option<&'a K>) -> (out:
        Self)
        ensures
            out.context == context,
            out.identifiers == identifiers,
            out.ksf == ksf,
    {
        ClientLoginFinishParameters { context, identifiers, ksf }
    }
}

/// Optional parameters for the steps of a server's login.
#[derive(Clone, Copy, Debug)]
pub struct ServerLoginParameters<'a> {
    /// Specifying a context field that the client must agree on
    pub context: Option<&'a [u8]>,
    /// Specifying a user identifier and server identifier that will be
    /// matched against the client
    pub identifiers: Identifiers<'a>,
}

impl<'a> Default for ServerLoginParameters<'a> {
    fn default() -> (out: Self)
        ensures
            out.context is None,
            out.identifiers@ == (IdentifiersView { client: None, server: None }),
    {
        ServerLoginParameters { context: None, identifiers: Identifiers::default() }
    }
}

/// What a client keeps between the two legs of a login.
pub struct ClientLoginView {
    /// The blind of the oblivious function.
    pub blind: Seq<u8>,
    /// The blinded password that was sent.
    pub blinded_element: Seq<u8>,
    /// The client's state of the key exchange.
    pub ke1_state: Ke1StateView,
    /// The encoded request that was sent.
    pub credential_request: Seq<u8>,
}

/// The state that the client keeps between the two legs of a login. It is
/// used up by [`ClientLogin::finish`].
#[derive(Debug)]
pub struct ClientLogin {
    pub(crate) blind: Secret,
    pub(crate) blinded_element: Vec<u8>,
    pub(crate) ke1_state: Ke1State,
    pub(crate) credential_request: Vec<u8>,
}

impl View for ClientLogin {
    type V = ClientLoginView;

    closed spec fn view(&self) -> ClientLoginView {
        ClientLoginView {
            blind: held(self.blind),
            blinded_element: self.blinded_element@,
            ke1_state: self.ke1_state@,
            credential_request: self.credential_request@,
        }
    }
}

/// What the first step of a client's login returns.
#[derive(Debug)]
pub struct ClientLoginStartResult {
    /// The message to send to the server to begin the login protocol
    pub message: CredentialRequest,
    /// The state that the client must keep in order to finish the protocol
    pub state: ClientLogin,
}

/// What the last step of a client's login gives.
pub struct ClientLoginFinishView {
    /// The client's tag, to send to the server.
    pub message: Seq<u8>,
    /// The session key.
    pub session_key: Seq<u8>,
    /// The key that the client exports.
    pub export_key: Seq<u8>,
    /// The server's static public key.
    pub server_s_pk: Seq<u8>,
}

/// What the last step of a client's login returns.
#[derive(Debug)]
pub struct ClientLoginFinishResult {
    /// The message to send to the server to complete the protocol
    pub message: CredentialFinalization,
    /// The session key
    pub session_key: Vec<u8>,
    /// The client-side export key
    pub export_key: Vec<u8>,
    /// The server's static public key
    pub server_s_pk: PublicKey,
}

impl View for ClientLoginFinishResult {
    type V = ClientLoginFinishView;

    open spec fn view(&self) -> ClientLoginFinishView {
        ClientLoginFinishView {
            message: self.message@,
            session_key: self.session_key@,
            export_key: self.export_key@,
            server_s_pk: self.server_s_pk@,
        }
    }
}

/// What the first step of a login sends and keeps for a password under a
/// blind, a nonce and an ephemeral key: the blinded password as in a
/// registration, and beside it the first message of the key exchange. The
/// state remembers the request as it is sent. A nonce of the wrong length
/// is refused before anything is computed.
pub open spec fn login_started(
    password: Seq<u8>,
    blind: Seq<u8>,
    client_nonce: Seq<u8>,
    client_e_sk: Seq<u8>,
) -> Result<(CredentialRequestView, ClientLoginView), ProtocolError> {
    if client_nonce.len() != NONCE_LEN {
        Err(ProtocolError::InvalidNonce)
    } else {
        match registration_started(password, blind) {
            Err(e) => Err(e),
            Ok(started) => {
                let request = CredentialRequestView {
                    blinded_element: started.blinded_element,
                    ke1_message: Ke1MessageView {
                        client_nonce,
                        client_e_pk: base_mult(client_e_sk),
                    },
                };
                Ok(
                    (
                        request,
                        ClientLoginView {
                            blind: started.blind,
                            blinded_element: started.blinded_element,
                            ke1_state: Ke1StateView { client_e_sk, client_nonce },
                            credential_request: CredentialRequest::encode(request),
                        },
                    ),
                )
            },
        }
    }
}

/// What a client's login gives for the server's answer: the password is
/// recovered as in a registration, the mask is taken off with the masking
/// key that the recovered password gives, the envelope is opened, and the
/// key exchange is completed with the client key from the envelope. A mask
/// that hides no public key, an envelope that does not open and a server
/// tag that does not match are each an invalid login.
pub open spec fn login_finished<K: Ksf>(
    state: ClientLoginView,
    password: Seq<u8>,
    response: CredentialResponseView,
    context: Seq<u8>,
    identifiers: IdentifiersView,
    ksf: Option<&K>,
) -> Result<ClientLoginFinishView, ProtocolError> {
    match recovered_password(
        state.blind,
        state.blinded_element,
        password,
        response.evaluation_element,
        ksf,
    ) {
        Err(e) => Err(e),
        Ok(randomized_pwd) => match unmasked(
            masking_key(randomized_pwd),
            response.masking_nonce,
            response.masked_response,
        ) {
            None => Err(ProtocolError::InvalidLogin),
            Some(plain) => match opened(randomized_pwd, plain.1, plain.0, identifiers) {
                None => Err(ProtocolError::InvalidLogin),
                Some(keys) => match client_finished(
                    state.ke1_state,
                    state.credential_request,
                    CredentialResponse::encode_without_ke(response),
                    response.ke2_message,
                    keys.client_s_sk,
                    plain.0,
                    identifiers.client_or(keys.client_s_pk),
                    identifiers.server_or(plain.0),
                    context,
                ) {
                    Err(e) => Err(e),
                    Ok(done) => Ok(
                        ClientLoginFinishView {
                            message: done.0,
                            session_key: done.1,
                            export_key: keys.export_key,
                            server_s_pk: plain.0,
                        },
                    ),
                },
            },
        },
    }
}

impl ClientLogin {
    /// What holds of every such state.
    #[verifier::type_invariant]
    pub open spec fn inv(self) -> bool {
        valid_scalar(self@.blind) && valid_element(self@.blinded_element)
    }

    /// Starts a login under a given blind, nonce and ephemeral key. The
    /// result is exactly [`login_started`].
    pub fn start_with(
        blind: Vec<u8>,
        password: &[u8],
        client_nonce: Vec<u8>,
        client_e_sk: PrivateKey,
    ) -> (out: Result<ClientLoginStartResult, ProtocolError>)
        ensures
            match login_started(password@, blind@, client_nonce@, client_e_sk@) {
                Ok(v) => out is Ok && out->Ok_0.message@ == v.0 && out->Ok_0.state@ == v.1,
                Err(e) => out is Err && out->Err_0 == e,
            },
    {
        if client_nonce.len() != NONCE_LEN {
            return Err(ProtocolError::InvalidNonce);
        }
        if !is_scalar(blind.as_slice()) {
            return Err(ProtocolError::Blinding);
        }
        let blinded_element = match blind_with(password, blind.as_slice()) {
            Ok(m) => m,
            Err(_) => {
                return Err(ProtocolError::Blinding);
            },
        };
        if !is_element(blinded_element.as_slice()) {
            return Err(ProtocolError::Blinding);
        }
        let (ke1_state, ke1_message) = Ke1State::start_with(client_nonce, client_e_sk);
        let message = CredentialRequest::new(copy_of(blinded_element.as_slice()), ke1_message);
        let credential_request = message.serialize();
        let state = ClientLogin {
            blind: guard(blind),
            blinded_element,
            ke1_state,
            credential_request,
        };
        Ok(ClientLoginStartResult { message, state })
    }

    /// Returns an initial "blinded" password request to send to the server,
    /// as well as a state to keep for the second leg. Whatever was drawn,
    /// the result is what [`login_started`] gives for the password under
    /// some blind, some nonce and some ephemeral key of the right forms.
    pub fn start<R: rand::RngCore + rand::CryptoRng>(rng: &mut R, password: &[u8]) -> (out: Result<
        ClientLoginStartResult,
        ProtocolError,
    >)
        ensures
            exists|blind: Seq<u8>, client_nonce: Seq<u8>, client_e_sk: Seq<u8>|
                valid_scalar(blind) && client_nonce.len() == NONCE_LEN && valid_scalar(client_e_sk)
                    && match #[trigger] login_started(password@, blind, client_nonce, client_e_sk) {
                    Ok(v) => out is Ok && out->Ok_0.message@ == v.0 && out->Ok_0.state@ == v.1,
                    Err(e) => out is Err && out->Err_0 == e,
                },
    {
        let blind = random_scalar(rng);
        let client_nonce = random_bytes(rng, NONCE_LEN);
        let client_e_sk = PrivateKey::random(rng);
        let ghost b = blind@;
        let ghost n = client_nonce@;
        let ghost e = client_e_sk@;
        let out = Self::start_with(blind, password, client_nonce, client_e_sk);
        proof {
            let started = login_started(password@, b, n, e);
            assert(valid_scalar(b) && n.len() == NONCE_LEN && valid_scalar(e) && match started {
                Ok(v) => out is Ok && out->Ok_0.message@ == v.0 && out->Ok_0.state@ == v.1,
                Err(e) => out is Err && out->Err_0 == e,
            });
        }
        out
    }

    /// "Unblinds" the server's answer and returns the decrypted assets. The
    /// generator is not drawn from. The result is exactly
    /// [`login_finished`].
    pub fn finish<R: rand::RngCore + rand::CryptoRng, K: Ksf>(
        self,
        rng: &mut R,
        password: &[u8],
        credential_response: CredentialResponse,
        params: ClientLoginFinishParameters<K>,
    ) -> (out: Result<ClientLoginFinishResult, ProtocolError>)
        ensures
            match login_finished(
                self@,
                password@,
                credential_response@,
                bytes_or_empty(params.context),
                params.identifiers@,
                params.ksf,
            ) {
                Ok(v) => out is Ok && out->Ok_0@ == v,
                Err(e) => out is Err && out->Err_0 == e,
            },
            out is Ok ==> out->Ok_0.session_key@.len() == HASH_LEN && out->Ok_0.export_key@.len()
                == HASH_LEN,
    {
        proof {
            use_type_invariant(&self);
        }
        let randomized_pwd = match recover_password(
            expose(&self.blind),
            self.blinded_element.as_slice(),
            password,
            credential_response.evaluation_element(),
            params.ksf,
        ) {
            Ok(p) => p,
            Err(e) => {
                return Err(e);
            },
        };
        let key = guard(
            expand(expose(&randomized_pwd), masking_key_label().as_slice(), HASH_LEN),
        );
        let (server_s_pk, envelope) = match unmask(
            expose(&key),
            credential_response.masking_nonce(),
            credential_response.masked_response(),
        ) {
            Ok(plain) => plain,
            Err(e) => {
                return Err(e);
            },
        };
        let keys = match open(
            expose(&randomized_pwd),
            &envelope,
            &server_s_pk,
            params.identifiers,
        ) {
            Ok(k) => k,
            Err(e) => {
                return Err(e);
            },
        };
        let client_pk_bytes = keys.client_key_pair.public().serialize();
        let server_pk_bytes = server_s_pk.serialize();
        let client_id = params.identifiers.client_or(client_pk_bytes.as_slice());
        let server_id = params.identifiers.server_or(server_pk_bytes.as_slice());
        let context = copy_or_empty(params.context);
        let parts = credential_response.to_parts();
        let (ke3, session_key) = match self.ke1_state.finish(
            self.credential_request.as_slice(),
            parts.as_slice(),
            credential_response.ke2_message(),
            keys.client_key_pair.private(),
            &server_s_pk,
            client_id.as_slice(),
            server_id.as_slice(),
            context.as_slice(),
        ) {
            Ok(done) => done,
            Err(e) => {
                return Err(e);
            },
        };
        Ok(
            ClientLoginFinishResult {
                message: CredentialFinalization::new(ke3),
                session_key,
                export_key: keys.export_key,
                server_s_pk,
            },
        )
    }
}

/// What a server draws for one login.
pub struct ServerLoginRandomnessView {
    /// The masking key of the made-up record, used where the user is
    /// unknown.
    pub masking_key: Seq<u8>,
    /// The nonce of the mask.
    pub masking_nonce: Seq<u8>,
    /// The server's nonce of the key exchange.
    pub server_nonce: Seq<u8>,
    /// The server's ephemeral private key.
    pub server_e_sk: Seq<u8>,
}

/// The random values of one login on the server.
#[derive(Debug)]
pub struct ServerLoginRandomness {
    pub(crate) masking_key: Vec<u8>,
    pub(crate) masking_nonce: Vec<u8>,
    pub(crate) server_nonce: Vec<u8>,
    pub(crate) server_e_sk: PrivateKey,
}

impl View for ServerLoginRandomness {
    type V = ServerLoginRandomnessView;

    closed spec fn view(&self) -> ServerLoginRandomnessView {
        ServerLoginRandomnessView {
            masking_key: self.masking_key@,
            masking_nonce: self.masking_nonce@,
            server_nonce: self.server_nonce@,
            server_e_sk: self.server_e_sk@,
        }
    }
}

impl ServerLoginRandomness {
    /// What holds of the values of every login.
    #[verifier::type_invariant]
    pub open spec fn inv(self) -> bool {
        Self::valid(self@)
    }

    /// The lengths of the values, and that the ephemeral key is a scalar.
    pub open spec fn valid(v: ServerLoginRandomnessView) -> bool {
        &&& v.masking_key.len() == HASH_LEN
        &&& v.masking_nonce.len() == NONCE_LEN
        &&& v.server_nonce.len() == NONCE_LEN
        &&& valid_scalar(v.server_e_sk)
    }

    /// These values, where their lengths are right.
    pub fn new(
        masking_key: Vec<u8>,
        masking_nonce: Vec<u8>,
        server_nonce: Vec<u8>,
        server_e_sk: PrivateKey,
    ) -> (out: Option<Self>)
        ensures
            out is Some <==> masking_key@.len() == HASH_LEN && masking_nonce@.len() == NONCE_LEN
                && server_nonce@.len() == NONCE_LEN,
            out is Some ==> out->Some_0@ == (ServerLoginRandomnessView {
                masking_key: masking_key@,
                masking_nonce: masking_nonce@,
                server_nonce: server_nonce@,
                server_e_sk: server_e_sk@,
            }),
    {
        proof {
            use_type_invariant(&server_e_sk);
        }
        if masking_key.len() != HASH_LEN || masking_nonce.len() != NONCE_LEN || server_nonce.len()
            != NONCE_LEN {
            return None;
        }
        Some(ServerLoginRandomness { masking_key, masking_nonce, server_nonce, server_e_sk })
    }

    /// Fresh values: whatever the generator gave, of the lengths in [`Self::valid`].
    pub fn draw<R: rand::RngCore + rand::CryptoRng>(rng: &mut R) -> (out: Self)
        ensures
            Self::valid(out@),
    {
        let masking_key = random_bytes(rng, HASH_LEN);
        let masking_nonce = random_bytes(rng, NONCE_LEN);
        let server_nonce = random_bytes(rng, NONCE_LEN);
        let server_e_sk = PrivateKey::random(rng);
        ServerLoginRandomness { masking_key, masking_nonce, server_nonce, server_e_sk }
    }
}

/// What a server keeps between the two legs of a login.
pub struct ServerLoginView {
    /// The server's state of the key exchange.
    pub ke2_state: Ke2StateView,
    /// The context that the login was started with.
    pub context: Seq<u8>,
    /// The identifiers that the login was started with.
    pub identifiers: IdentifiersView,
}

/// The state that the server keeps between the two legs of a login. It is
/// used up by [`ServerLogin::finish`].
#[derive(Debug)]
pub struct ServerLogin {
    pub(crate) ke2_state: Ke2State,
    pub(crate) context: Vec<u8>,
    pub(crate) identifiers: OwnedIdentifiers,
}

impl View for ServerLogin {
    type V = ServerLoginView;

    closed spec fn view(&self) -> ServerLoginView {
        ServerLoginView {
            ke2_state: self.ke2_state@,
            context: self.context@,
            identifiers: self.identifiers@,
        }
    }
}

/// What the first step of a server's login returns.
#[derive(Debug)]
pub struct ServerLoginStartResult {
    /// The message to send back to the client
    pub message: CredentialResponse,
    /// The state that the server must keep in order to finish the protocol
    pub state: ServerLogin,
}

/// What the last step of a server's login returns.
#[derive(Debug)]
pub struct ServerLoginFinishResult {
    /// The session key between client and server
    pub session_key: Vec<u8>,
}

/// What a password file holds, where one is given.
pub open spec fn file_view(password_file: Option<ServerRegistration>) -> Option<
    RegistrationUploadView,
> {
    match password_file {
        Some(f) => Some(f@),
        None => None,
    }
}

/// The record that a login is answered from: the user's password file, or
/// for an unknown user the made-up record with the all-zero envelope, the
/// drawn masking key and the setup's public key for such records.
pub open spec fn record_or_dummy(
    password_file: Option<RegistrationUploadView>,
    dummy_pk: Seq<u8>,
    masking_key: Seq<u8>,
) -> RegistrationUploadView {
    match password_file {
        Some(record) => record,
        None => RegistrationUploadView {
            envelope: Envelope::dummy_view(),
            masking_key,
            client_s_pk: dummy_pk,
        },
    }
}

/// What a server holds of a login before its long-term private key has been
/// used: the evaluation of the blinded password under the user's key, the
/// record's envelope and the server's public key under a mask, and the key
/// exchange up to that point, over a transcript that binds the request and
/// the answer so far.
pub open spec fn login_prepared(
    oprf_key: Option<Seq<u8>>,
    server_s_pk: Seq<u8>,
    dummy_pk: Seq<u8>,
    password_file: Option<RegistrationUploadView>,
    request: CredentialRequestView,
    context: Seq<u8>,
    identifiers: IdentifiersView,
    randomness: ServerLoginRandomnessView,
) -> Result<PreparedLoginView, ProtocolError> {
    match oprf_key {
        None => Err(ProtocolError::SerializationError),
        Some(key) => {
            let record = record_or_dummy(password_file, dummy_pk, randomness.masking_key);
            let evaluation_element = oprf_evaluate(key, request.blinded_element);
            let masked_response = masked(
                record.masking_key,
                randomness.masking_nonce,
                server_s_pk,
                record.envelope,
            );
            match server_prepared(
                randomness.server_nonce,
                randomness.server_e_sk,
                record.client_s_pk,
                request.ke1_message,
                CredentialRequest::encode(request),
                evaluation_element + randomness.masking_nonce + masked_response,
                identifiers.client_or(record.client_s_pk),
                identifiers.server_or(server_s_pk),
                context,
            ) {
                Err(e) => Err(e),
                Ok(ke2_builder) => Ok(
                    PreparedLoginView {
                        evaluation_element,
                        masking_nonce: randomness.masking_nonce,
                        masked_response,
                        ke2_builder,
                        context,
                        identifiers,
                    },
                ),
            }
        },
    }
}

/// The answer and the state of a login, once the Diffie-Hellman value of
/// the server's long-term key and the client's ephemeral key is known.
pub open spec fn login_built(builder: PreparedLoginView, dh2: Seq<u8>) -> (
    CredentialResponseView,
    ServerLoginView,
) {
    let built = server_built(builder.ke2_builder, dh2);
    (
        CredentialResponseView {
            evaluation_element: builder.evaluation_element,
            masking_nonce: builder.masking_nonce,
            masked_response: builder.masked_response,
            ke2_message: built.0,
        },
        ServerLoginView {
            ke2_state: built.1,
            context: builder.context,
            identifiers: builder.identifiers,
        },
    )
}

/// What the last step of a server's login gives: an invalid login where the
/// context or the identifiers are not those that the login was started
/// with, or where the client's tag is not the expected one; the session key
/// otherwise.
pub open spec fn login_verified(
    state: ServerLoginView,
    finalization: Seq<u8>,
    context: Seq<u8>,
    identifiers: IdentifiersView,
) -> Result<Seq<u8>, ProtocolError> {
    if context != state.context || identifiers != state.identifiers {
        Err(ProtocolError::InvalidLogin)
    } else {
        server_finished(state.ke2_state, finalization)
    }
}

impl ServerLogin {
    /// The first step of a login up to the use of the server's long-term
    /// private key, from the key material of the user and the random values
    /// of the login. The result is exactly [`login_prepared`].
    pub fn builder_with<SK: Clone, OS>(
        randomness: ServerLoginRandomness,
        server_setup: &ServerSetup<SK, OS>,
        key_material: &[u8],
        password_file: Option<ServerRegistration>,
        credential_request: CredentialRequest,
        params: ServerLoginParameters,
    ) -> (out: Result<ServerLoginBuilder<SK>, ProtocolError>)
        ensures
            match login_prepared(
                oprf_key_from_material(key_material@),
                server_setup.public_key_view(),
                server_setup.dummy_pk_view(),
                file_view(password_file),
                credential_request@,
                bytes_or_empty(params.context),
                params.identifiers@,
                randomness@,
            ) {
                Ok(v) => out is Ok && out->Ok_0@.prepared == v && cloned(
                    server_setup.private_key_spec(),
                    out->Ok_0@.server_s_sk,
                ),
                Err(e) => out is Err && out->Err_0 == e,
            },
    {
        proof {
            use_type_invariant(&randomness);
        }
        let key = match derive_oprf_key(key_material) {
            Ok(k) => k,
            Err(e) => {
                return Err(e);
            },
        };
        let evaluation_element = evaluate(expose(&key), credential_request.blinded_element());
        let record = match password_file {
            Some(file) => file.into_upload(),
            None => RegistrationUpload::dummy_with_masking_key(
                randomness.masking_key,
                server_setup,
            ),
        };
        let masked_response = mask(
            record.masking_key(),
            randomness.masking_nonce.as_slice(),
            server_setup.public_key(),
            record.envelope(),
        );
        let head = join(evaluation_element.as_slice(), randomness.masking_nonce.as_slice());
        let parts = join(head.as_slice(), masked_response.as_slice());
        let request_bytes = credential_request.serialize();
        let client_pk_bytes = record.client_s_pk().serialize();
        let server_pk_bytes = server_setup.public_key().serialize();
        let client_id = params.identifiers.client_or(client_pk_bytes.as_slice());
        let server_id = params.identifiers.server_or(server_pk_bytes.as_slice());
        let context = copy_or_empty(params.context);
        let ke2_builder = match Ke2Builder::start_with(
            randomness.server_nonce,
            &randomness.server_e_sk,
            record.client_s_pk(),
            credential_request.ke1_message(),
            request_bytes.as_slice(),
            parts.as_slice(),
            client_id.as_slice(),
            server_id.as_slice(),
            context.as_slice(),
        ) {
            Ok(b) => b,
            Err(e) => {
                return Err(e);
            },
        };
        let server_s_sk = server_setup.keypair().private().clone();
        Ok(
            ServerLoginBuilder::new(
                server_s_sk,
                evaluation_element,
                randomness.masking_nonce,
                masked_response,
                ke2_builder,
                context,
                OwnedIdentifiers::from_identifiers(params.identifiers),
            ),
        )
    }

    /// Create a [`ServerLoginBuilder`] to use with remote keys and a remote
    /// seed. Whatever was drawn, the result is what [`login_prepared`]
    /// gives for some random values of the right lengths.
    pub fn builder_with_key_material<R: rand::RngCore + rand::CryptoRng, SK: Clone, OS>(
        rng: &mut R,
        server_setup: &ServerSetup<SK, OS>,
        key_material: &[u8],
        password_file: Option<ServerRegistration>,
        credential_request: CredentialRequest,
        params: ServerLoginParameters,
    ) -> (out: Result<ServerLoginBuilder<SK>, ProtocolError>)
        ensures
            exists|r: ServerLoginRandomnessView|
                ServerLoginRandomness::valid(r) && match #[trigger] login_prepared(
                    oprf_key_from_material(key_material@),
                    server_setup.public_key_view(),
                    server_setup.dummy_pk_view(),
                    file_view(password_file),
                    credential_request@,
                    bytes_or_empty(params.context),
                    params.identifiers@,
                    r,
                ) {
                    Ok(v) => out is Ok && out->Ok_0@.prepared == v && cloned(
                        server_setup.private_key_spec(),
                        out->Ok_0@.server_s_sk,
                    ),
                    Err(e) => out is Err && out->Err_0 == e,
                },
    {
        let randomness = ServerLoginRandomness::draw(rng);
        let ghost r = randomness@;
        let ghost file = file_view(password_file);
        proof {
            use_type_invariant(&randomness);
        }
        let out = Self::builder_with(
            randomness,
            server_setup,
            key_material,
            password_file,
            credential_request,
            params,
        );
        proof {
            let p = login_prepared(
                oprf_key_from_material(key_material@),
                server_setup.public_key_view(),
                server_setup.dummy_pk_view(),
                file,
                credential_request@,
                bytes_or_empty(params.context),
                params.identifiers@,
                r,
            );
            assert(ServerLoginRandomness::valid(r) && match p {
                Ok(v) => out is Ok && out->Ok_0@.prepared == v && cloned(
                    server_setup.private_key_spec(),
                    out->Ok_0@.server_s_sk,
                ),
                Err(e) => out is Err && out->Err_0 == e,
            });
        }
        out
    }

    /// Create a [`ServerLoginBuilder`] to use with remote keys. The key
    /// material of the user is expanded from the seed under the credential
    /// identifier.
    pub fn builder<R: rand::RngCore + rand::CryptoRng, SK: Clone>(
        rng: &mut R,
        server_setup: &ServerSetup<SK, OprfSeed>,
        password_file: Option<ServerRegistration>,
        credential_request: CredentialRequest,
        credential_identifier: &[u8],
        params: ServerLoginParameters,
    ) -> (out: Result<ServerLoginBuilder<SK>, ProtocolError>)
        ensures
            exists|r: ServerLoginRandomnessView|
                ServerLoginRandomness::valid(r) && match #[trigger] login_prepared(
                    oprf_key_from_material(
                        oprf_key_material(
                            server_setup.oprf_seed_spec()@,
                            credential_identifier@,
                        ),
                    ),
                    server_setup.public_key_view(),
                    server_setup.dummy_pk_view(),
                    file_view(password_file),
                    credential_request@,
                    bytes_or_empty(params.context),
                    params.identifiers@,
                    r,
                ) {
                    Ok(v) => out is Ok && out->Ok_0@.prepared == v && cloned(
                        server_setup.private_key_spec(),
                        out->Ok_0@.server_s_sk,
                    ),
                    Err(e) => out is Err && out->Err_0 == e,
                },
    {
        let key_material = expand_oprf_key_material(
            server_setup.oprf_seed(),
            credential_identifier,
        );
        Self::builder_with_key_material(
            rng,
            server_setup,
            expose(&key_material),
            password_file,
            credential_request,
            params,
        )
    }

    /// Build [`ServerLogin`] from a [`ServerLoginBuilder`] and the
    /// Diffie-Hellman value of the server's long-term private key and the
    /// client's ephemeral public key, which the holder of the key computed.
    /// A value that does not have the length of an element shows that the
    /// holder computes in another group, and is refused; the result is else
    /// exactly [`login_built`].
    pub fn build<SK>(builder: ServerLoginBuilder<SK>, input: &[u8]) -> (out: Result<
        ServerLoginStartResult,
        ProtocolError,
    >)
        ensures
            out is Ok <==> input@.len() == PK_LEN,
            out is Ok ==> out->Ok_0.message@ == login_built(builder@.prepared, input@).0,
            out is Ok ==> out->Ok_0.state@ == login_built(builder@.prepared, input@).1,
            out is Err ==> out->Err_0 == ProtocolError::IncompatibleEnvironmentForRemoteKey,
    {
        if input.len() != PK_LEN {
            return Err(ProtocolError::IncompatibleEnvironmentForRemoteKey);
        }
        let parts = builder.into_parts();
        let (ke2_message, ke2_state) = parts.ke2_builder.build(input);
        let message = CredentialResponse::new(
            parts.evaluation_element,
            parts.masking_nonce,
            parts.masked_response,
            ke2_message,
        );
        let state = ServerLogin {
            ke2_state,
            context: parts.context,
            identifiers: parts.identifiers,
        };
        Ok(ServerLoginStartResult { message, state })
    }

    /// From the client's "blinded" password, returns a challenge to be sent
    /// back to the client, as well as a state to keep for the second leg.
    /// Whatever was drawn, the result is what [`login_prepared`] and then
    /// [`login_built`] give for some random values of the right lengths,
    /// with the Diffie-Hellman value of the server's private key and the
    /// client's ephemeral public key.
    pub fn start<R: rand::RngCore + rand::CryptoRng>(
        rng: &mut R,
        server_setup: &ServerSetup<PrivateKey, OprfSeed>,
        password_file: Option<ServerRegistration>,
        credential_request: CredentialRequest,
        credential_identifier: &[u8],
        params: ServerLoginParameters,
    ) -> (out: Result<ServerLoginStartResult, ProtocolError>)
        ensures
            exists|r: ServerLoginRandomnessView|
                ServerLoginRandomness::valid(r) && match #[trigger] login_prepared(
                    oprf_key_from_material(
                        oprf_key_material(
                            server_setup.oprf_seed_spec()@,
                            credential_identifier@,
                        ),
                    ),
                    server_setup.public_key_view(),
                    server_setup.dummy_pk_view(),
                    file_view(password_file),
                    credential_request@,
                    bytes_or_empty(params.context),
                    params.identifiers@,
                    r,
                ) {
                    Ok(v) => out is Ok && out->Ok_0.message@ == login_built(
                        v,
                        scalar_mult(
                            server_setup.private_key_spec()@,
                            credential_request@.ke1_message.client_e_pk,
                        ),
                    ).0 && out->Ok_0.state@ == login_built(
                        v,
                        scalar_mult(
                            server_setup.private_key_spec()@,
                            credential_request@.ke1_message.client_e_pk,
                        ),
                    ).1,
                    Err(e) => out is Err && out->Err_0 == e,
                },
    {
        let ghost client_e_pk = credential_request@.ke1_message.client_e_pk;
        let builder = match Self::builder(
            rng,
            server_setup,
            password_file,
            credential_request,
            credential_identifier,
            params,
        ) {
            Ok(b) => b,
            Err(e) => {
                return Err(e);
            },
        };
        let shared = guard(server_setup.keypair().private().diffie_hellman(builder.data()));
        Self::build(builder, expose(&shared))
    }

    /// From the client's second and final message, check the client's
    /// authentication and produce a message transport. The result is exactly
    /// [`login_verified`].
    pub fn finish(self, message: CredentialFinalization, params: ServerLoginParameters) -> (out:
        Result<ServerLoginFinishResult, ProtocolError>)
        ensures
            match login_verified(
                self@,
                message@,
                bytes_or_empty(params.context),
                params.identifiers@,
            ) {
                Ok(v) => out is Ok && out->Ok_0.session_key@ == v && v.len() == HASH_LEN,
                Err(e) => out is Err && out->Err_0 == e,
            },
    {
        let context = copy_or_empty(params.context);
        if !same_bytes(context.as_slice(), self.context.as_slice()) {
            return Err(ProtocolError::InvalidLogin);
        }
        if !self.identifiers.same_as(params.identifiers) {
            return Err(ProtocolError::InvalidLogin);
        }
        match self.ke2_state.finish(message.ke3_message()) {
            Ok(session_key) => Ok(ServerLoginFinishResult { session_key }),
            Err(e) => Err(e),
        }
    }
}

/// A login that is finished under a context or under identifiers other than
/// those it was started with is an invalid login, whatever the client sent.
pub proof fn lemma_finish_binds_parameters(
    state: ServerLoginView,
    finalization: Seq<u8>,
    context: Seq<u8>,
    identifiers: IdentifiersView,
)
    requires
        context != state.context || identifiers != state.identifiers,
    ensures
        login_verified(state, finalization, context, identifiers) == Err::<
            Seq<u8>,
            ProtocolError,
        >(ProtocolError::InvalidLogin),
{
}

/// A login after a registration, where the client recovers at login the
/// randomized password of the registration and the Diffie-Hellman values of
/// both sides agree: the client's login succeeds, the server accepts the
/// client's tag, both hold the same session key, and the client finds again
/// the export key and the server's public key of the registration.
///
/// The two conditions are what the group and the oblivious function give
/// for a client that uses one password: they are stated here as conditions
/// because nothing in this library computes in the group.
pub proof fn lemma_login_after_registration<K: Ksf>(
    password: Seq<u8>,
    ksf: Option<&K>,
    identifiers: IdentifiersView,
    context: Seq<u8>,
    oprf_key: Seq<u8>,
    server_s_sk: Seq<u8>,
    server_s_pk: Seq<u8>,
    dummy_pk: Seq<u8>,
    registration: ClientRegistrationView,
    envelope_nonce: Seq<u8>,
    login: ClientLoginView,
    request: CredentialRequestView,
    randomness: ServerLoginRandomnessView,
)
    requires
        valid_element(server_s_pk),
        registration_finished(
            registration,
            password,
            RegistrationResponseView {
                evaluation_element: oprf_evaluate(oprf_key, registration.blinded_element),
                server_s_pk,
            },
            identifiers,
            ksf,
            envelope_nonce,
        ) is Ok,
        RegistrationUpload::valid(
            registration_finished(
                registration,
                password,
                RegistrationResponseView {
                    evaluation_element: oprf_evaluate(oprf_key, registration.blinded_element),
                    server_s_pk,
                },
                identifiers,
                ksf,
                envelope_nonce,
            )->Ok_0.message,
        ),
        request == (CredentialRequestView {
            blinded_element: login.blinded_element,
            ke1_message: Ke1MessageView {
                client_nonce: login.ke1_state.client_nonce,
                client_e_pk: base_mult(login.ke1_state.client_e_sk),
            },
        }),
        login.credential_request == CredentialRequest::encode(request),
        context.len() <= MAX_FRAMED_LEN,
        identifiers.client_or(
            registration_finished(
                registration,
                password,
                RegistrationResponseView {
                    evaluation_element: oprf_evaluate(oprf_key, registration.blinded_element),
                    server_s_pk,
                },
                identifiers,
                ksf,
                envelope_nonce,
            )->Ok_0.message.client_s_pk,
        ).len() <= MAX_FRAMED_LEN,
        identifiers.server_or(server_s_pk).len() <= MAX_FRAMED_LEN,
        // The client recovers the randomized password of the registration.
        recovered_password(
            login.blind,
            login.blinded_element,
            password,
            oprf_evaluate(oprf_key, login.blinded_element),
            ksf,
        ) == recovered_password(
            registration.blind,
            registration.blinded_element,
            password,
            oprf_evaluate(oprf_key, registration.blinded_element),
            ksf,
        ),
        // The Diffie-Hellman values of both sides agree.
        server_s_pk == base_mult(server_s_sk),
        scalar_mult(login.ke1_state.client_e_sk, base_mult(randomness.server_e_sk)) == scalar_mult(
            randomness.server_e_sk,
            base_mult(login.ke1_state.client_e_sk),
        ),
        scalar_mult(login.ke1_state.client_e_sk, base_mult(server_s_sk)) == scalar_mult(
            server_s_sk,
            base_mult(login.ke1_state.client_e_sk),
        ),
        ({
            let randomized_pwd = recovered_password(
                registration.blind,
                registration.blinded_element,
                password,
                oprf_evaluate(oprf_key, registration.blinded_element),
                ksf,
            )->Ok_0;
            let client_s_sk = client_private_key(
                randomized_pwd,
                envelope_nonce,
            )->Some_0;
            scalar_mult(client_s_sk, base_mult(randomness.server_e_sk)) == scalar_mult(
                randomness.server_e_sk,
                base_mult(client_s_sk),
            )
        }),
    ensures
        ({
            let registered = registration_finished(
                registration,
                password,
                RegistrationResponseView {
                    evaluation_element: oprf_evaluate(oprf_key, registration.blinded_element),
                    server_s_pk,
                },
                identifiers,
                ksf,
                envelope_nonce,
            )->Ok_0;
            let prepared = login_prepared(
                Some(oprf_key),
                server_s_pk,
                dummy_pk,
                Some(registered.message),
                request,
                context,
                identifiers,
                randomness,
            );
            let built = login_built(
                prepared->Ok_0,
                scalar_mult(server_s_sk, request.ke1_message.client_e_pk),
            );
            let finished = login_finished(login, password, built.0, context, identifiers, ksf);
            &&& prepared is Ok
            &&& finished is Ok
            &&& login_verified(built.1, finished->Ok_0.message, context, identifiers) == Ok::<
                Seq<u8>,
                ProtocolError,
            >(finished->Ok_0.session_key)
            &&& finished->Ok_0.export_key == registered.export_key
            &&& finished->Ok_0.server_s_pk == registered.server_s_pk
            &&& finished->Ok_0.server_s_pk == server_s_pk
        }),
{
    let response_r = RegistrationResponseView {
        evaluation_element: oprf_evaluate(oprf_key, registration.blinded_element),
        server_s_pk,
    };
    let registered = registration_finished(
        registration,
        password,
        response_r,
        identifiers,
        ksf,
        envelope_nonce,
    )->Ok_0;
    let recovered = recovered_password(
        registration.blind,
        registration.blinded_element,
        password,
        response_r.evaluation_element,
        ksf,
    );
    assert(recovered is Ok);
    let randomized_pwd = recovered->Ok_0;
    let s = sealed(randomized_pwd, envelope_nonce, server_s_pk, identifiers);
    assert(s is Some);
    let sealed = s->Some_0;
    assert(registered.message.envelope == sealed.envelope);
    assert(registered.message.masking_key == masking_key(randomized_pwd));
    assert(registered.message.client_s_pk == sealed.client_s_pk);
    lemma_open_after_seal(randomized_pwd, envelope_nonce, server_s_pk, identifiers);
    lemma_unmask_after_mask(
        registered.message.masking_key,
        randomness.masking_nonce,
        server_s_pk,
        registered.message.envelope,
    );
    let prepared = login_prepared(
        Some(oprf_key),
        server_s_pk,
        dummy_pk,
        Some(registered.message),
        request,
        context,
        identifiers,
        randomness,
    );
    assert(prepared is Ok);
    let b = prepared->Ok_0;
    let dh2 = scalar_mult(server_s_sk, request.ke1_message.client_e_pk);
    let built = login_built(b, dh2);
    assert(CredentialResponse::encode_without_ke(built.0) =~= b.evaluation_element
        + b.masking_nonce + b.masked_response);
    assert(unmasked(
        masking_key(randomized_pwd),
        built.0.masking_nonce,
        built.0.masked_response,
    ) == Some((server_s_pk, registered.message.envelope)));
    assert(opened(randomized_pwd, registered.message.envelope, server_s_pk, identifiers)
        is Some);
    let keys = opened(
        randomized_pwd,
        registered.message.envelope,
        server_s_pk,
        identifiers,
    )->Some_0;
    assert(keys.client_s_pk == base_mult(keys.client_s_sk));
    lemma_same_secrets_agree(
        login.ke1_state,
        b.ke2_builder,
        dh2,
        login.credential_request,
        CredentialResponse::encode_without_ke(built.0),
        keys.client_s_sk,
        server_s_pk,
        identifiers.client_or(keys.client_s_pk),
        identifiers.server_or(server_s_pk),
        context,
    );
}

} // verus!
