//! The errors that the protocol functions return.

use vstd::prelude::*;

verus! {

/// Why a protocol step was refused.
#[derive(Clone, Copy, Debug, PartialEq, Eq, Structural)]
pub enum ProtocolError {
    /// A cryptographic verification failed: the envelope tag, a key-exchange
    /// tag, or an identifier or context that differs between the parties.
    InvalidLogin,
    /// A wire encoding has the wrong length, or holds a group element that
    /// is not canonical or is the identity.
    InvalidByteSequence,
    /// A nonce that the caller chose does not have the length of a nonce.
    InvalidNonce,
    /// The oblivious function refused to blind or to finalize its input.
    Blinding,
    /// A primitive refused the lengths of what it was asked to encode.
    SerializationError,
    /// The key-stretching function reported a parameter or resource problem.
    KsfError,
    /// A peer's group element equals the caller's own.
    ReflectionError,
    /// What the outside holder of a key or a seed computed cannot be used
    /// here.
    IncompatibleEnvironmentForRemoteKey,
}

} // verus!
