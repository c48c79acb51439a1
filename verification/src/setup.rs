//! The long-term state of a server.

use vstd::prelude::*;
use vstd::pervasive::cloned;
use crate::bytes::{copy_of, cut, join};
use crate::errors::ProtocolError;
use crate::group::{base_mult, valid_element, valid_scalar};
use crate::hash::HASH_LEN;
use crate::keypair::{KeyPair, PrivateKey, PublicKey, PK_LEN, SK_LEN};
use crate::labels::{label_oprf_key, oprf_key_label};
use crate::random::random_bytes;
use crate::secret::{duplicate, expose, guard, held, Secret};

verus! {

/// The length in bytes of the seed of the oblivious function.
pub const OPRF_SEED_LEN: usize = HASH_LEN;

/// The length in bytes of an encoded [`ServerSetup`] whose key and seed are
/// held here.
pub const SERVER_SETUP_LEN: usize = SK_LEN + PK_LEN + OPRF_SEED_LEN + PK_LEN;

/// The seed from which the server derives one key of the oblivious
/// function for each user. Its bytes are overwritten when the seed is
/// dropped.
#[derive(Debug, PartialEq, Eq)]
pub struct OprfSeed {
    pub(crate) bytes: Secret,
}

impl View for OprfSeed {
    type V = Seq<u8>;

    closed spec fn view(&self) -> Seq<u8> {
        held(self.bytes)
    }
}

impl Clone for OprfSeed {
    fn clone(&self) -> (out: Self)
        ensures
            out@ == self@,
    {
        proof {
            use_type_invariant(self);
        }
        OprfSeed { bytes: duplicate(&self.bytes) }
    }
}

impl OprfSeed {
    /// What holds of every seed.
    #[verifier::type_invariant]
    pub open spec fn inv(self) -> bool {
        self@.len() == OPRF_SEED_LEN
    }

    /// A fresh seed: whatever the generator gave, as many bytes as a seed has.
    pub fn random<R: rand::RngCore + rand::CryptoRng>(rng: &mut R) -> (out: Self)
        ensures
            out@.len() == OPRF_SEED_LEN,
    {
        OprfSeed { bytes: guard(random_bytes(rng, OPRF_SEED_LEN)) }
    }

    /// The bytes of the seed.
    pub fn serialize(&self) -> (out: Vec<u8>)
        ensures
            out@ == self@,
            out@.len() == OPRF_SEED_LEN,
    {
        proof {
            use_type_invariant(self);
        }
        copy_of(expose(&self.bytes))
    }

    /// Reads a seed. The input is refused unless it has exactly the length
    /// of a seed.
    pub fn deserialize(input: &[u8]) -> (out: Result<Self, ProtocolError>)
        ensures
            out is Ok <==> input@.len() == OPRF_SEED_LEN,
            out is Ok ==> out->Ok_0@ == input@,
            out is Err ==> out->Err_0 == ProtocolError::InvalidByteSequence,
    {
        if input.len() != OPRF_SEED_LEN {
            return Err(ProtocolError::InvalidByteSequence);
        }
        Ok(OprfSeed { bytes: guard(copy_of(input)) })
    }
}

/// What the holder of a seed is to feed its key derivation for one user:
/// the seed, or the handle to it, and the two parts of the info.
pub struct KeyMaterialInfo<OS> {
    /// The seed, or the handle to it.
    pub ikm: OS,
    /// The parts of the info: the user's credential identifier, then a fixed
    /// label.
    pub info: (Vec<u8>, Vec<u8>),
}

/// What a server setup with its key and seed held here holds.
pub struct ServerSetupView {
    /// The server's private key.
    pub server_s_sk: Seq<u8>,
    /// The server's public key.
    pub server_s_pk: Seq<u8>,
    /// The seed of the oblivious function.
    pub oprf_seed: Seq<u8>,
    /// The public key that stands in for the client's in the answer for an
    /// unknown user.
    pub dummy_pk: Seq<u8>,
}

/// The state that a server keeps for as long as it operates: its key pair,
/// the seed of the oblivious function, and the public key of the made-up
/// record that answers a login for an unknown user. The private key and the
/// seed may each be a handle to a value that lives outside this library.
#[derive(Debug, PartialEq, Eq)]
pub struct ServerSetup<SK = PrivateKey, OS = OprfSeed> {
    pub(crate) oprf_seed: OS,
    pub(crate) keypair: KeyPair<SK>,
    pub(crate) dummy_pk: PublicKey,
}

impl<SK, OS> ServerSetup<SK, OS> {
    /// The server's public key, as bytes.
    pub closed spec fn public_key_view(self) -> Seq<u8> {
        self.keypair.public_view()
    }

    /// The server's private key, or the handle to it.
    pub closed spec fn private_key_spec(self) -> SK {
        self.keypair.private_spec()
    }

    /// The seed, or the handle to it.
    pub closed spec fn oprf_seed_spec(self) -> OS {
        self.oprf_seed
    }

    /// The public key of the made-up record, as bytes.
    pub closed spec fn dummy_pk_view(self) -> Seq<u8> {
        self.dummy_pk@
    }

    /// A setup around a key pair and a seed that the caller holds, with a
    /// fresh public key for the made-up record.
    pub fn new_with_key_pair_and_seed<R: rand::RngCore + rand::CryptoRng>(
        rng: &mut R,
        keypair: KeyPair<SK>,
        oprf_seed: OS,
    ) -> (out: Self)
        ensures
            out.public_key_view() == keypair.public_view(),
            out.private_key_spec() == keypair.private_spec(),
            out.oprf_seed_spec() == oprf_seed,
            valid_element(out.dummy_pk_view()),
    {
        let dummy = KeyPair::derive_random(rng);
        let dummy_pk = dummy.public().clone();
        proof {
            use_type_invariant(&dummy_pk);
        }
        ServerSetup { oprf_seed, keypair, dummy_pk }
    }

    /// The server's key pair.
    pub fn keypair(&self) -> (out: &KeyPair<SK>)
        ensures
            out.public_view() == self.public_key_view(),
            out.private_spec() == self.private_key_spec(),
    {
        &self.keypair
    }

    /// The server's public key.
    pub fn public_key(&self) -> (out: &PublicKey)
        ensures
            out@ == self.public_key_view(),
    {
        self.keypair.public()
    }

    /// The public key of the made-up record.
    pub fn dummy_pk(&self) -> (out: &PublicKey)
        ensures
            out@ == self.dummy_pk_view(),
    {
        &self.dummy_pk
    }

    /// The seed, or the handle to it.
    pub fn oprf_seed(&self) -> (out: &OS)
        ensures
            *out == self.oprf_seed_spec(),
    {
        &self.oprf_seed
    }
}

impl<SK> ServerSetup<SK, OprfSeed> {
    /// A setup around a key pair that the caller holds, with a fresh seed.
    pub fn new_with_key_pair<R: rand::RngCore + rand::CryptoRng>(
        rng: &mut R,
        keypair: KeyPair<SK>,
    ) -> (out: Self)
        ensures
            out.public_key_view() == keypair.public_view(),
            out.private_key_spec() == keypair.private_spec(),
    {
        let oprf_seed = OprfSeed::random(rng);
        ServerSetup::new_with_key_pair_and_seed(rng, keypair, oprf_seed)
    }
}

impl<SK, OS: Clone> ServerSetup<SK, OS> {
    /// What the holder of the seed is to feed its key derivation for the
    /// user with this credential identifier.
    pub fn key_material_info(&self, credential_identifier: &[u8]) -> (out: KeyMaterialInfo<OS>)
        ensures
            cloned(self.oprf_seed_spec(), out.ikm),
            out.info.0@ == credential_identifier@,
            out.info.1@ == label_oprf_key(),
    {
        KeyMaterialInfo {
            ikm: self.oprf_seed.clone(),
            info: (copy_of(credential_identifier), oprf_key_label()),
        }
    }
}

impl ServerSetup<PrivateKey, OprfSeed> {
    /// What the setup holds.
    pub closed spec fn view(self) -> ServerSetupView {
        ServerSetupView {
            server_s_sk: self.keypair.private_spec()@,
            server_s_pk: self.keypair.public_view(),
            oprf_seed: self.oprf_seed@,
            dummy_pk: self.dummy_pk@,
        }
    }

    /// The field lengths of a setup, and that its keys decode.
    pub open spec fn valid(v: ServerSetupView) -> bool {
        &&& valid_scalar(v.server_s_sk)
        &&& valid_element(v.server_s_pk)
        &&& v.oprf_seed.len() == OPRF_SEED_LEN
        &&& valid_element(v.dummy_pk)
    }

    /// The encoding: the private key, the public key, the seed, the public
    /// key of the made-up record.
    pub open spec fn encode(v: ServerSetupView) -> Seq<u8> {
        v.server_s_sk + v.server_s_pk + v.oprf_seed + v.dummy_pk
    }

    /// Which byte strings are read as a setup.
    pub open spec fn decodable(b: Seq<u8>) -> bool {
        &&& b.len() == SERVER_SETUP_LEN
        &&& valid_scalar(b.subrange(0, SK_LEN as int))
        &&& valid_element(b.subrange(SK_LEN as int, SK_LEN + PK_LEN))
        &&& valid_element(b.subrange(SK_LEN + PK_LEN + OPRF_SEED_LEN, SERVER_SETUP_LEN as int))
    }

    /// The setup that a decodable byte string encodes.
    pub open spec fn decode(b: Seq<u8>) -> ServerSetupView {
        ServerSetupView {
            server_s_sk: b.subrange(0, SK_LEN as int),
            server_s_pk: b.subrange(SK_LEN as int, SK_LEN + PK_LEN),
            oprf_seed: b.subrange(SK_LEN + PK_LEN, SK_LEN + PK_LEN + OPRF_SEED_LEN),
            dummy_pk: b.subrange(SK_LEN + PK_LEN + OPRF_SEED_LEN, SERVER_SETUP_LEN as int),
        }
    }

    /// A fresh setup: a fresh key pair, a fresh seed, and a fresh public key
    /// for the made-up record.
    pub fn new<R: rand::RngCore + rand::CryptoRng>(rng: &mut R) -> (out: Self)
        ensures
            Self::valid(out.view()),
            out.public_key_view() == base_mult(out.private_key_spec()@),
    {
        let keypair = KeyPair::derive_random(rng);
        let out = ServerSetup::new_with_key_pair(rng, keypair);
        let sk = out.keypair.private();
        let pk = out.keypair.public();
        proof {
            use_type_invariant(sk);
            use_type_invariant(pk);
            use_type_invariant(&out.oprf_seed);
            use_type_invariant(&out.dummy_pk);
        }
        out
    }

    /// Serialization into bytes.
    pub fn serialize(&self) -> (out: Vec<u8>)
        ensures
            out@ == Self::encode(self.view()),
            out@.len() == SERVER_SETUP_LEN,
    {
        let sk = self.keypair.private().serialize();
        let pk = self.keypair.public().serialize();
        let seed = self.oprf_seed.serialize();
        let dummy = self.dummy_pk.serialize();
        let a = join(sk.as_slice(), pk.as_slice());
        let b = join(a.as_slice(), seed.as_slice());
        join(b.as_slice(), dummy.as_slice())
    }

    /// Deserialization from bytes. The input is refused unless it has
    /// exactly the length of a setup and its three keys decode.
    pub fn deserialize(input: &[u8]) -> (out: Result<Self, ProtocolError>)
        ensures
            out is Ok <==> Self::decodable(input@),
            out is Ok ==> out->Ok_0.view() == Self::decode(input@),
            out is Err ==> out->Err_0 == ProtocolError::InvalidByteSequence,
    {
        if input.len() != SERVER_SETUP_LEN {
            return Err(ProtocolError::InvalidByteSequence);
        }
        let sk_bytes = cut(input, 0, SK_LEN);
        let pk_bytes = cut(input, SK_LEN, SK_LEN + PK_LEN);
        let seed_bytes = cut(input, SK_LEN + PK_LEN, SK_LEN + PK_LEN + OPRF_SEED_LEN);
        let dummy_bytes = cut(input, SK_LEN + PK_LEN + OPRF_SEED_LEN, SERVER_SETUP_LEN);
        let sk = match PrivateKey::deserialize(sk_bytes.as_slice()) {
            Ok(sk) => sk,
            Err(e) => {
                return Err(e);
            },
        };
        let pk = match PublicKey::deserialize(pk_bytes.as_slice()) {
            Ok(pk) => pk,
            Err(e) => {
                return Err(e);
            },
        };
        let dummy_pk = match PublicKey::deserialize(dummy_bytes.as_slice()) {
            Ok(pk) => pk,
            Err(e) => {
                return Err(e);
            },
        };
        match OprfSeed::deserialize(seed_bytes.as_slice()) {
            Ok(oprf_seed) => Ok(ServerSetup { oprf_seed, keypair: KeyPair::new(sk, pk), dummy_pk }),
            Err(e) => Err(e),
        }
    }

    /// Reading back what was written gives the same setup, and the encoding
    /// has the advertised length.
    pub proof fn lemma_round_trip(v: ServerSetupView)
        requires
            Self::valid(v),
        ensures
            Self::encode(v).len() == SERVER_SETUP_LEN,
            Self::decodable(Self::encode(v)),
            Self::decode(Self::encode(v)) == v,
    {
        let b = Self::encode(v);
        assert(b.subrange(0, SK_LEN as int) =~= v.server_s_sk);
        assert(b.subrange(SK_LEN as int, SK_LEN + PK_LEN) =~= v.server_s_pk);
        assert(b.subrange(SK_LEN + PK_LEN, SK_LEN + PK_LEN + OPRF_SEED_LEN) =~= v.oprf_seed);
        assert(b.subrange(SK_LEN + PK_LEN + OPRF_SEED_LEN, SERVER_SETUP_LEN as int)
            =~= v.dummy_pk);
    }

    /// Writing what was read gives the same bytes.
    pub proof fn lemma_decode_encode(b: Seq<u8>)
        requires
            Self::decodable(b),
        ensures
            Self::valid(Self::decode(b)),
            Self::encode(Self::decode(b)) == b,
    {
        assert(Self::encode(Self::decode(b)) =~= b);
    }
}

} // verus!
