//! Long-term and ephemeral keys of the key exchange.
//!
//! A public key is an encoded group element, a private key an encoded scalar.
//! The private half of a pair may instead be a handle to a key that lives
//! outside this library: the pair is generic in it and never looks inside.

use vstd::prelude::*;
use crate::bytes::copy_of;
use crate::errors::ProtocolError;
use crate::group::{
    base_mult, is_element, is_scalar, multiply, multiply_base, random_scalar, scalar_mult,
    valid_element, valid_scalar, ELEM_LEN, SCALAR_LEN,
};
use crate::secret::{duplicate, expose, guard, held, Secret};

verus! {

/// The length in bytes of an encoded public key.
pub const PK_LEN: usize = ELEM_LEN;

/// The length in bytes of an encoded private key.
pub const SK_LEN: usize = SCALAR_LEN;

/// A public key: a group element other than the identity.
#[derive(Debug, PartialEq, Eq)]
pub struct PublicKey {
    pub(crate) bytes: Vec<u8>,
}

impl View for PublicKey {
    type V = Seq<u8>;

    closed spec fn view(&self) -> Seq<u8> {
        self.bytes@
    }
}

impl Clone for PublicKey {
    fn clone(&self) -> (out: Self)
        ensures
            out@ == self@,
    {
        proof {
            use_type_invariant(self);
        }
        PublicKey { bytes: self.bytes.clone() }
    }
}

impl PublicKey {
    /// What holds of every public key.
    #[verifier::type_invariant]
    pub open spec fn inv(self) -> bool {
        valid_element(self@)
    }

    /// The key with a given encoding.
    pub(crate) fn from_element(bytes: Vec<u8>) -> (out: Self)
        requires
            valid_element(bytes@),
        ensures
            out@ == bytes@,
    {
        PublicKey { bytes }
    }

    /// The encoding of the key.
    pub fn serialize(&self) -> (out: Vec<u8>)
        ensures
            out@ == self@,
            out@.len() == PK_LEN,
            valid_element(out@),
    {
        proof {
            use_type_invariant(self);
        }
        self.bytes.clone()
    }

    /// Reads a key from its encoding. The input is refused unless it is
    /// exactly the canonical encoding of an element other than the identity.
    pub fn deserialize(input: &[u8]) -> (out: Result<Self, ProtocolError>)
        ensures
            out is Ok <==> valid_element(input@),
            out is Ok ==> out->Ok_0@ == input@,
            out is Err ==> out->Err_0 == ProtocolError::InvalidByteSequence,
    {
        if input.len() != PK_LEN {
            return Err(ProtocolError::InvalidByteSequence);
        }
        if !is_element(input) {
            return Err(ProtocolError::InvalidByteSequence);
        }
        Ok(PublicKey { bytes: copy_of(input) })
    }
}

/// A private key: a scalar other than zero. Its bytes are overwritten when
/// the key is dropped.
#[derive(Debug, PartialEq, Eq)]
pub struct PrivateKey {
    pub(crate) bytes: Secret,
}

impl View for PrivateKey {
    type V = Seq<u8>;

    closed spec fn view(&self) -> Seq<u8> {
        held(self.bytes)
    }
}

impl Clone for PrivateKey {
    fn clone(&self) -> (out: Self)
        ensures
            out@ == self@,
    {
        proof {
            use_type_invariant(self);
        }
        PrivateKey { bytes: duplicate(&self.bytes) }
    }
}

impl PrivateKey {
    /// What holds of every private key.
    #[verifier::type_invariant]
    pub open spec fn inv(self) -> bool {
        valid_scalar(self@)
    }

    /// The key with a given encoding.
    pub(crate) fn from_scalar(bytes: Vec<u8>) -> (out: Self)
        requires
            valid_scalar(bytes@),
        ensures
            out@ == bytes@,
    {
        PrivateKey { bytes: guard(bytes) }
    }

    /// The encoding of the key.
    pub fn serialize(&self) -> (out: Vec<u8>)
        ensures
            out@ == self@,
            out@.len() == SK_LEN,
            valid_scalar(out@),
    {
        proof {
            use_type_invariant(self);
        }
        copy_of(expose(&self.bytes))
    }

    /// Reads a key from its encoding. The input is refused unless it is
    /// exactly the canonical encoding of a scalar other than zero.
    pub fn deserialize(input: &[u8]) -> (out: Result<Self, ProtocolError>)
        ensures
            out is Ok <==> valid_scalar(input@),
            out is Ok ==> out->Ok_0@ == input@,
            out is Err ==> out->Err_0 == ProtocolError::InvalidByteSequence,
    {
        if input.len() != SK_LEN {
            return Err(ProtocolError::InvalidByteSequence);
        }
        if !is_scalar(input) {
            return Err(ProtocolError::InvalidByteSequence);
        }
        Ok(PrivateKey { bytes: guard(copy_of(input)) })
    }

    /// A fresh private key: whatever the generator gave, a scalar other than zero.
    pub fn random<R: rand::RngCore + rand::CryptoRng>(rng: &mut R) -> (out: Self)
        ensures
            valid_scalar(out@),
    {
        PrivateKey { bytes: guard(random_scalar(rng)) }
    }

    /// The public key that belongs to this private key.
    pub fn public_key(&self) -> (out: PublicKey)
        ensures
            out@ == base_mult(self@),
    {
        proof {
            use_type_invariant(self);
        }
        PublicKey { bytes: multiply_base(expose(&self.bytes)) }
    }

    /// The Diffie-Hellman value of this key with a peer's public key.
    pub fn diffie_hellman(&self, peer: &PublicKey) -> (out: Vec<u8>)
        ensures
            out@ == scalar_mult(self@, peer@),
            valid_element(out@),
    {
        proof {
            use_type_invariant(self);
            use_type_invariant(peer);
        }
        multiply(expose(&self.bytes), peer.bytes.as_slice())
    }
}

/// A public key together with its private half, or with a handle to it.
#[derive(Debug, PartialEq, Eq)]
pub struct KeyPair<SK = PrivateKey> {
    pub(crate) pk: PublicKey,
    pub(crate) sk: SK,
}

impl<SK> KeyPair<SK> {
    /// The pair of a private half, or a handle to one, and the public key that
    /// the caller says belongs to it.
    pub fn new(sk: SK, pk: PublicKey) -> (out: Self)
        ensures
            out.public_view() == pk@,
            out.private_spec() == sk,
    {
        KeyPair { pk, sk }
    }

    /// The public key of the pair, as bytes.
    pub closed spec fn public_view(self) -> Seq<u8> {
        self.pk@
    }

    /// The private half of the pair.
    pub closed spec fn private_spec(self) -> SK {
        self.sk
    }

    /// The public key of the pair.
    pub fn public(&self) -> (out: &PublicKey)
        ensures
            out@ == self.public_view(),
    {
        &self.pk
    }

    /// The private half of the pair.
    pub fn private(&self) -> (out: &SK)
        ensures
            *out == self.private_spec(),
    {
        &self.sk
    }
}

impl KeyPair<PrivateKey> {
    /// The pair that belongs to a private key.
    pub fn from_private_key(sk: PrivateKey) -> (out: Self)
        ensures
            out.private_spec() == sk,
            out.public_view() == base_mult(sk@),
    {
        let pk = sk.public_key();
        KeyPair { pk, sk }
    }

    /// A fresh pair.
    pub fn derive_random<R: rand::RngCore + rand::CryptoRng>(rng: &mut R) -> (out: Self)
        ensures
            out.public_view() == base_mult(out.private_spec()@),
    {
        let sk = PrivateKey::random(rng);
        KeyPair::from_private_key(sk)
    }
}

} // verus!
