//! The core of the OPAQUE augmented password-authenticated key exchange,
//! instantiated for ristretto255 with SHA-512.
//!
//! Every executable function carries a contract over byte sequences. What the
//! cryptographic primitives compute is not restated here: each primitive is
//! called through a small trusted function and its result is given a name that
//! the contracts of the protocol logic speak of.

pub mod errors;
pub mod bytes;
pub mod labels;
pub mod group;
pub mod hash;
pub mod random;
pub mod secret;
pub mod oprf;
pub mod ksf;
pub mod keypair;
pub mod identifiers;
pub mod envelope;
pub mod key_exchange;
pub mod messages;
pub mod masking;
pub mod setup;
pub mod registration;
pub mod login;

pub use rand;

pub use crate::identifiers::Identifiers;
pub use crate::login::{
    ClientLogin, ClientLoginFinishParameters, ClientLoginFinishResult, ClientLoginStartResult,
    ServerLogin, ServerLoginFinishResult, ServerLoginParameters, ServerLoginStartResult,
};
pub use crate::messages::{
    CredentialFinalization, CredentialRequest, CredentialResponse, RegistrationRequest,
    RegistrationResponse, RegistrationUpload, ServerLoginBuilder,
};
pub use crate::registration::{
    ClientRegistration, ClientRegistrationFinishParameters, ClientRegistrationFinishResult,
    ClientRegistrationStartResult, ServerRegistration, ServerRegistrationStartResult,
};
pub use crate::setup::{KeyMaterialInfo, ServerSetup};
