//! The key exchange that a login runs: three Diffie-Hellman values between
//! the long-term and the ephemeral keys of both sides, bound to the
//! transcript of the login.

use vstd::prelude::*;
use crate::bytes::{copy_of, cut, frame, framed, i2osp1, i2osp2, join, length_byte, length_bytes};
use crate::envelope::NONCE_LEN;
use crate::errors::ProtocolError;
use crate::group::{base_mult, scalar_mult, valid_element, valid_scalar};
use crate::hash::{
    ct_eq, expand, extract, hash, hkdf_expand, hkdf_extract, hmac, mac, sha512, HASH_LEN,
};
use crate::keypair::{PrivateKey, PublicKey, PK_LEN};
use crate::labels::{
    client_mac_label, handshake_secret_label, label_client_mac, label_handshake_secret,
    label_prefix, label_protocol, label_server_mac, label_session_key, prefix_label, protocol_label,
    server_mac_label, session_key_label,
};
use crate::random::random_bytes;
use crate::secret::{expose, guard, held, Secret};

verus! {

/// The length in bytes of the first message of the key exchange.
pub const KE1_LEN: usize = NONCE_LEN + PK_LEN;

/// The length in bytes of the second message of the key exchange.
pub const KE2_LEN: usize = NONCE_LEN + PK_LEN + HASH_LEN;

/// The length in bytes of the third message of the key exchange.
pub const KE3_LEN: usize = HASH_LEN;

/// What the first message of the key exchange holds.
pub struct Ke1MessageView {
    /// The client's nonce.
    pub client_nonce: Seq<u8>,
    /// The client's ephemeral public key.
    pub client_e_pk: Seq<u8>,
}

/// The first message of the key exchange, from the client.
#[derive(Debug, PartialEq, Eq)]
pub struct Ke1Message {
    pub(crate) client_nonce: Vec<u8>,
    pub(crate) client_e_pk: PublicKey,
}

impl View for Ke1Message {
    type V = Ke1MessageView;

    closed spec fn view(&self) -> Ke1MessageView {
        Ke1MessageView { client_nonce: self.client_nonce@, client_e_pk: self.client_e_pk@ }
    }
}

impl Clone for Ke1Message {
    fn clone(&self) -> (out: Self)
        ensures
            out@ == self@,
    {
        proof {
            use_type_invariant(self);
        }
        Ke1Message {
            client_nonce: self.client_nonce.clone(),
            client_e_pk: self.client_e_pk.clone(),
        }
    }
}

impl Ke1Message {
    /// What holds of every first message.
    #[verifier::type_invariant]
    pub open spec fn inv(self) -> bool {
        Self::valid(self@)
    }

    /// The field lengths of a first message, and that its key is an element.
    pub open spec fn valid(v: Ke1MessageView) -> bool {
        v.client_nonce.len() == NONCE_LEN && valid_element(v.client_e_pk)
    }

    /// The wire encoding: the nonce, then the ephemeral key.
    pub open spec fn encode(v: Ke1MessageView) -> Seq<u8> {
        v.client_nonce + v.client_e_pk
    }

    /// Which byte strings are read as a first message.
    pub open spec fn decodable(b: Seq<u8>) -> bool {
        b.len() == KE1_LEN && valid_element(b.subrange(NONCE_LEN as int, KE1_LEN as int))
    }

    /// The first message that a decodable byte string encodes.
    pub open spec fn decode(b: Seq<u8>) -> Ke1MessageView {
        Ke1MessageView {
            client_nonce: b.subrange(0, NONCE_LEN as int),
            client_e_pk: b.subrange(NONCE_LEN as int, KE1_LEN as int),
        }
    }

    /// The wire encoding of the message.
    pub fn serialize(&self) -> (out: Vec<u8>)
        ensures
            out@ == Self::encode(self@),
            out@.len() == KE1_LEN,
    {
        proof {
            use_type_invariant(self);
        }
        let pk = self.client_e_pk.serialize();
        join(self.client_nonce.as_slice(), pk.as_slice())
    }

    /// Reads a first message. The input is refused unless it has exactly the
    /// length of one and its key is a canonical element other than the
    /// identity.
    pub fn deserialize(input: &[u8]) -> (out: Result<Self, ProtocolError>)
        ensures
            out is Ok <==> Self::decodable(input@),
            out is Ok ==> out->Ok_0@ == Self::decode(input@),
            out is Err ==> out->Err_0 == ProtocolError::InvalidByteSequence,
    {
        if input.len() != KE1_LEN {
            return Err(ProtocolError::InvalidByteSequence);
        }
        let client_nonce = cut(input, 0, NONCE_LEN);
        let pk_bytes = cut(input, NONCE_LEN, KE1_LEN);
        match PublicKey::deserialize(pk_bytes.as_slice()) {
            Ok(client_e_pk) => Ok(Ke1Message { client_nonce, client_e_pk }),
            Err(e) => Err(e),
        }
    }

    /// The client's ephemeral public key.
    pub fn client_e_pk(&self) -> (out: &PublicKey)
        ensures
            out@ == self@.client_e_pk,
    {
        &self.client_e_pk
    }

    /// Reading back what was written gives the same message, and the
    /// encoding has the advertised length.
    pub proof fn lemma_round_trip(v: Ke1MessageView)
        requires
            Self::valid(v),
        ensures
            Self::encode(v).len() == KE1_LEN,
            Self::decodable(Self::encode(v)),
            Self::decode(Self::encode(v)) == v,
    {
        let b = Self::encode(v);
        assert(b.subrange(0, NONCE_LEN as int) =~= v.client_nonce);
        assert(b.subrange(NONCE_LEN as int, KE1_LEN as int) =~= v.client_e_pk);
    }

    /// Writing what was read gives the same bytes.
    pub proof fn lemma_decode_encode(b: Seq<u8>)
        requires
            Self::decodable(b),
        ensures
            Self::valid(Self::decode(b)),
            Self::encode(Self::decode(b)) == b,
    {
        assert(Self::encode(Self::decode(b)) =~= b);
    }
}

/// What the second message of the key exchange holds.
pub struct Ke2MessageView {
    /// The server's nonce.
    pub server_nonce: Seq<u8>,
    /// The server's ephemeral public key.
    pub server_e_pk: Seq<u8>,
    /// The server's tag over the transcript.
    pub mac: Seq<u8>,
}

/// The second message of the key exchange, from the server.
#[derive(Debug, PartialEq, Eq)]
pub struct Ke2Message {
    pub(crate) server_nonce: Vec<u8>,
    pub(crate) server_e_pk: PublicKey,
    pub(crate) mac: Vec<u8>,
}

impl View for Ke2Message {
    type V = Ke2MessageView;

    closed spec fn view(&self) -> Ke2MessageView {
        Ke2MessageView {
            server_nonce: self.server_nonce@,
            server_e_pk: self.server_e_pk@,
            mac: self.mac@,
        }
    }
}

impl Clone for Ke2Message {
    fn clone(&self) -> (out: Self)
        ensures
            out@ == self@,
    {
        proof {
            use_type_invariant(self);
        }
        Ke2Message {
            server_nonce: self.server_nonce.clone(),
            server_e_pk: self.server_e_pk.clone(),
            mac: self.mac.clone(),
        }
    }
}

impl Ke2Message {
    /// What holds of every second message.
    #[verifier::type_invariant]
    pub open spec fn inv(self) -> bool {
        Self::valid(self@)
    }

    /// The field lengths of a second message, and that its key is an element.
    pub open spec fn valid(v: Ke2MessageView) -> bool {
        &&& v.server_nonce.len() == NONCE_LEN
        &&& valid_element(v.server_e_pk)
        &&& v.mac.len() == HASH_LEN
    }

    /// The wire encoding: the nonce, the ephemeral key, the tag.
    pub open spec fn encode(v: Ke2MessageView) -> Seq<u8> {
        v.server_nonce + v.server_e_pk + v.mac
    }

    /// Which byte strings are read as a second message.
    pub open spec fn decodable(b: Seq<u8>) -> bool {
        b.len() == KE2_LEN && valid_element(
            b.subrange(NONCE_LEN as int, NONCE_LEN + PK_LEN),
        )
    }

    /// The second message that a decodable byte string encodes.
    pub open spec fn decode(b: Seq<u8>) -> Ke2MessageView {
        Ke2MessageView {
            server_nonce: b.subrange(0, NONCE_LEN as int),
            server_e_pk: b.subrange(NONCE_LEN as int, NONCE_LEN + PK_LEN),
            mac: b.subrange(NONCE_LEN + PK_LEN, KE2_LEN as int),
        }
    }

    /// The wire encoding of the message.
    pub fn serialize(&self) -> (out: Vec<u8>)
        ensures
            out@ == Self::encode(self@),
            out@.len() == KE2_LEN,
    {
        proof {
            use_type_invariant(self);
        }
        let pk = self.server_e_pk.serialize();
        let head = join(self.server_nonce.as_slice(), pk.as_slice());
        join(head.as_slice(), self.mac.as_slice())
    }

    /// Reads a second message. The input is refused unless it has exactly the
    /// length of one and its key is a canonical element other than the
    /// identity.
    pub fn deserialize(input: &[u8]) -> (out: Result<Self, ProtocolError>)
        ensures
            out is Ok <==> Self::decodable(input@),
            out is Ok ==> out->Ok_0@ == Self::decode(input@),
            out is Err ==> out->Err_0 == ProtocolError::InvalidByteSequence,
    {
        if input.len() != KE2_LEN {
            return Err(ProtocolError::InvalidByteSequence);
        }
        let server_nonce = cut(input, 0, NONCE_LEN);
        let pk_bytes = cut(input, NONCE_LEN, NONCE_LEN + PK_LEN);
        let mac = cut(input, NONCE_LEN + PK_LEN, KE2_LEN);
        match PublicKey::deserialize(pk_bytes.as_slice()) {
            Ok(server_e_pk) => Ok(Ke2Message { server_nonce, server_e_pk, mac }),
            Err(e) => Err(e),
        }
    }

    /// Reading back what was written gives the same message, and the
    /// encoding has the advertised length.
    pub proof fn lemma_round_trip(v: Ke2MessageView)
        requires
            Self::valid(v),
        ensures
            Self::encode(v).len() == KE2_LEN,
            Self::decodable(Self::encode(v)),
            Self::decode(Self::encode(v)) == v,
    {
        let b = Self::encode(v);
        assert(b.subrange(0, NONCE_LEN as int) =~= v.server_nonce);
        assert(b.subrange(NONCE_LEN as int, NONCE_LEN + PK_LEN) =~= v.server_e_pk);
        assert(b.subrange(NONCE_LEN + PK_LEN, KE2_LEN as int) =~= v.mac);
    }

    /// Writing what was read gives the same bytes.
    pub proof fn lemma_decode_encode(b: Seq<u8>)
        requires
            Self::decodable(b),
        ensures
            Self::valid(Self::decode(b)),
            Self::encode(Self::decode(b)) == b,
    {
        assert(Self::encode(Self::decode(b)) =~= b);
    }
}

/// The third message of the key exchange, from the client: its tag over the
/// transcript.
#[derive(Debug, PartialEq, Eq)]
pub struct Ke3Message {
    pub(crate) mac: Vec<u8>,
}

impl View for Ke3Message {
    type V = Seq<u8>;

    closed spec fn view(&self) -> Seq<u8> {
        self.mac@
    }
}

impl Clone for Ke3Message {
    fn clone(&self) -> (out: Self)
        ensures
            out@ == self@,
    {
        proof {
            use_type_invariant(self);
        }
        Ke3Message { mac: self.mac.clone() }
    }
}

impl Ke3Message {
    /// What holds of every third message.
    #[verifier::type_invariant]
    pub open spec fn inv(self) -> bool {
        self@.len() == KE3_LEN
    }

    /// The wire encoding of the message: the tag.
    pub fn serialize(&self) -> (out: Vec<u8>)
        ensures
            out@ == self@,
            out@.len() == KE3_LEN,
    {
        proof {
            use_type_invariant(self);
        }
        self.mac.clone()
    }

    /// Reads a third message. The input is refused unless it has exactly the
    /// length of a tag.
    pub fn deserialize(input: &[u8]) -> (out: Result<Self, ProtocolError>)
        ensures
            out is Ok <==> input@.len() == KE3_LEN,
            out is Ok ==> out->Ok_0@ == input@,
            out is Err ==> out->Err_0 == ProtocolError::InvalidByteSequence,
    {
        if input.len() != KE3_LEN {
            return Err(ProtocolError::InvalidByteSequence);
        }
        Ok(Ke3Message { mac: cut(input, 0, KE3_LEN) })
    }
}

/// The longest context or name that the transcript frames.
pub const MAX_FRAMED_LEN: usize = 0xffff;

/// The transcript that both sides bind their keys to: a fixed head, the
/// context, the client's name, the client's request, the server's name,
/// the server's answer up to its key-exchange message, the server's nonce
/// and the server's ephemeral key. Context and names are headed by their
/// lengths.
pub open spec fn preamble(
    context: Seq<u8>,
    client_id: Seq<u8>,
    credential_request: Seq<u8>,
    server_id: Seq<u8>,
    credential_response: Seq<u8>,
    server_nonce: Seq<u8>,
    server_e_pk: Seq<u8>,
) -> Seq<u8> {
    label_protocol() + framed(context) + framed(client_id) + credential_request + framed(
        server_id,
    ) + credential_response + server_nonce + server_e_pk
}

/// The info under which a key of `len` bytes is expanded for a label and a
/// context: the length, then the prefixed label and the context, each headed
/// by its length in one byte.
pub open spec fn custom_label(label: Seq<u8>, context: Seq<u8>, len: nat) -> Seq<u8> {
    i2osp2(len) + i2osp1(label_prefix().len() + label.len()) + label_prefix() + label + i2osp1(
        context.len(),
    ) + context
}

/// The key of `len` bytes that a secret gives for a label and a context.
pub open spec fn expand_label(secret: Seq<u8>, label: Seq<u8>, context: Seq<u8>, len: nat) -> Seq<
    u8,
> {
    hkdf_expand(secret, custom_label(label, context, len), len)
}

/// The input of the key schedule: the three Diffie-Hellman values in order.
pub open spec fn key_material(dh1: Seq<u8>, dh2: Seq<u8>, dh3: Seq<u8>) -> Seq<u8> {
    dh1 + dh2 + dh3
}

/// The secret from which both tags are keyed.
pub open spec fn handshake_secret(ikm: Seq<u8>, transcript: Seq<u8>) -> Seq<u8> {
    expand_label(
        hkdf_extract(Seq::empty(), ikm),
        label_handshake_secret(),
        sha512(transcript),
        HASH_LEN as nat,
    )
}

/// The session key.
pub open spec fn session_key(ikm: Seq<u8>, transcript: Seq<u8>) -> Seq<u8> {
    expand_label(
        hkdf_extract(Seq::empty(), ikm),
        label_session_key(),
        sha512(transcript),
        HASH_LEN as nat,
    )
}

/// The server's tag over the transcript.
pub open spec fn server_mac(ikm: Seq<u8>, transcript: Seq<u8>) -> Seq<u8> {
    hmac(
        expand_label(
            handshake_secret(ikm, transcript),
            label_server_mac(),
            Seq::empty(),
            HASH_LEN as nat,
        ),
        sha512(transcript),
    )
}

/// The client's tag over the transcript and the server's tag.
pub open spec fn client_mac(ikm: Seq<u8>, transcript: Seq<u8>) -> Seq<u8> {
    hmac(
        expand_label(
            handshake_secret(ikm, transcript),
            label_client_mac(),
            Seq::empty(),
            HASH_LEN as nat,
        ),
        sha512(transcript + server_mac(ikm, transcript)),
    )
}

/// The keys and tags of one run of the key exchange.
pub struct DerivedKeys {
    /// The session key.
    pub session_key: Vec<u8>,
    /// The server's tag.
    pub server_mac: Vec<u8>,
    /// The client's tag.
    pub client_mac: Vec<u8>,
}

/// Expands a key of a hash output's length for a label and a context.
fn expand_for_label(secret: &[u8], label: &[u8], context: &[u8]) -> (out: Vec<u8>)
    requires
        secret@.len() >= HASH_LEN,
        label@.len() <= 64,
        context@.len() <= HASH_LEN,
    ensures
        out@ == expand_label(secret@, label@, context@, HASH_LEN as nat),
        out@.len() == HASH_LEN,
{
    let prefix = prefix_label();
    let a = length_bytes(HASH_LEN);
    let b = length_byte(prefix.len() + label.len());
    let c = length_byte(context.len());
    let ab = join(a.as_slice(), b.as_slice());
    let abp = join(ab.as_slice(), prefix.as_slice());
    let abpl = join(abp.as_slice(), label);
    let abplc = join(abpl.as_slice(), c.as_slice());
    let info = join(abplc.as_slice(), context);
    assert(info@ =~= custom_label(label@, context@, HASH_LEN as nat));
    expand(secret, info.as_slice(), HASH_LEN)
}

/// Runs the key schedule on the three Diffie-Hellman values and the
/// transcript.
pub fn derive_keys(ikm: &[u8], transcript: &[u8]) -> (out: DerivedKeys)
    ensures
        out.session_key@ == session_key(ikm@, transcript@),
        out.server_mac@ == server_mac(ikm@, transcript@),
        out.client_mac@ == client_mac(ikm@, transcript@),
        out.session_key@.len() == HASH_LEN,
        out.server_mac@.len() == HASH_LEN,
        out.client_mac@.len() == HASH_LEN,
{
    let empty: Vec<u8> = Vec::new();
    assert(empty@ =~= Seq::<u8>::empty());
    let prk = guard(extract(empty.as_slice(), ikm));
    let hashed = hash(transcript);
    let secret = guard(
        expand_for_label(expose(&prk), handshake_secret_label().as_slice(), hashed.as_slice()),
    );
    let session_key = expand_for_label(
        expose(&prk),
        session_key_label().as_slice(),
        hashed.as_slice(),
    );
    let km2 = guard(
        expand_for_label(expose(&secret), server_mac_label().as_slice(), empty.as_slice()),
    );
    let km3 = guard(
        expand_for_label(expose(&secret), client_mac_label().as_slice(), empty.as_slice()),
    );
    let server_mac = mac(expose(&km2), hashed.as_slice());
    let with_tag = join(transcript, server_mac.as_slice());
    let hashed_with_tag = hash(with_tag.as_slice());
    let client_mac = mac(expose(&km3), hashed_with_tag.as_slice());
    DerivedKeys { session_key, server_mac, client_mac }
}

/// Writes the transcript.
fn write_preamble(
    context: &[u8],
    client_id: &[u8],
    credential_request: &[u8],
    server_id: &[u8],
    credential_response: &[u8],
    server_nonce: &[u8],
    server_e_pk: &[u8],
) -> (out: Vec<u8>)
    requires
        context@.len() <= MAX_FRAMED_LEN,
        client_id@.len() <= MAX_FRAMED_LEN,
        server_id@.len() <= MAX_FRAMED_LEN,
    ensures
        out@ == preamble(
            context@,
            client_id@,
            credential_request@,
            server_id@,
            credential_response@,
            server_nonce@,
            server_e_pk@,
        ),
{
    let head = protocol_label();
    let fc = frame(context);
    let fu = frame(client_id);
    let fs = frame(server_id);
    let a = join(head.as_slice(), fc.as_slice());
    let b = join(a.as_slice(), fu.as_slice());
    let c = join(b.as_slice(), credential_request);
    let d = join(c.as_slice(), fs.as_slice());
    let e = join(d.as_slice(), credential_response);
    let f = join(e.as_slice(), server_nonce);
    join(f.as_slice(), server_e_pk)
}

/// What the client keeps of the key exchange between the two legs.
pub struct Ke1StateView {
    /// The client's ephemeral private key.
    pub client_e_sk: Seq<u8>,
    /// The client's nonce.
    pub client_nonce: Seq<u8>,
}

/// The client's state of the key exchange between the two legs of a login.
#[derive(Debug)]
pub struct Ke1State {
    pub(crate) client_e_sk: PrivateKey,
    pub(crate) client_nonce: Vec<u8>,
}

impl View for Ke1State {
    type V = Ke1StateView;

    closed spec fn view(&self) -> Ke1StateView {
        Ke1StateView { client_e_sk: self.client_e_sk@, client_nonce: self.client_nonce@ }
    }
}

/// What the client's last step of the key exchange gives for a second
/// message: the server's tag must be the one that the client's own key
/// schedule gives, and then the client answers with its tag and holds the
/// session key. Context and names that are too long to be framed are
/// refused before anything is computed.
pub open spec fn client_finished(
    state: Ke1StateView,
    credential_request: Seq<u8>,
    credential_response: Seq<u8>,
    ke2: Ke2MessageView,
    client_s_sk: Seq<u8>,
    server_s_pk: Seq<u8>,
    client_id: Seq<u8>,
    server_id: Seq<u8>,
    context: Seq<u8>,
) -> Result<(Seq<u8>, Seq<u8>), ProtocolError> {
    if context.len() > MAX_FRAMED_LEN || client_id.len() > MAX_FRAMED_LEN || server_id.len()
        > MAX_FRAMED_LEN {
        Err(ProtocolError::SerializationError)
    } else {
        let ikm = key_material(
            scalar_mult(state.client_e_sk, ke2.server_e_pk),
            scalar_mult(state.client_e_sk, server_s_pk),
            scalar_mult(client_s_sk, ke2.server_e_pk),
        );
        let transcript = preamble(
            context,
            client_id,
            credential_request,
            server_id,
            credential_response,
            ke2.server_nonce,
            ke2.server_e_pk,
        );
        if server_mac(ikm, transcript) == ke2.mac {
            Ok((client_mac(ikm, transcript), session_key(ikm, transcript)))
        } else {
            Err(ProtocolError::InvalidLogin)
        }
    }
}

impl Ke1State {
    /// What holds of every such state.
    #[verifier::type_invariant]
    pub open spec fn inv(self) -> bool {
        valid_scalar(self@.client_e_sk) && self@.client_nonce.len() == NONCE_LEN
    }

    /// The first message of the key exchange and the state to keep, from a
    /// nonce and an ephemeral key.
    pub fn start_with(client_nonce: Vec<u8>, client_e_sk: PrivateKey) -> (out: (Self, Ke1Message))
        requires
            client_nonce@.len() == NONCE_LEN,
        ensures
            out.0@ == (Ke1StateView { client_e_sk: client_e_sk@, client_nonce: client_nonce@ }),
            out.1@ == (Ke1MessageView {
                client_nonce: client_nonce@,
                client_e_pk: base_mult(client_e_sk@),
            }),
    {
        proof {
            use_type_invariant(&client_e_sk);
        }
        let client_e_pk = client_e_sk.public_key();
        proof {
            use_type_invariant(&client_e_pk);
        }
        let message = Ke1Message { client_nonce: copy_of(client_nonce.as_slice()), client_e_pk };
        (Ke1State { client_e_sk, client_nonce }, message)
    }

    /// The first message of the key exchange and the state to keep, with a
    /// fresh nonce and a fresh ephemeral key. Whatever was drawn, the
    /// message carries the nonce and the public half of the key that the
    /// state remembers.
    pub fn start<R: rand::RngCore + rand::CryptoRng>(rng: &mut R) -> (out: (Self, Ke1Message))
        ensures
            out.1@ == (Ke1MessageView {
                client_nonce: out.0@.client_nonce,
                client_e_pk: base_mult(out.0@.client_e_sk),
            }),
    {
        let client_nonce = random_bytes(rng, NONCE_LEN);
        let client_e_sk = PrivateKey::random(rng);
        Self::start_with(client_nonce, client_e_sk)
    }

    /// The client's last step of the key exchange. The result is exactly
    /// [`client_finished`].
    pub fn finish(
        &self,
        credential_request: &[u8],
        credential_response: &[u8],
        ke2: &Ke2Message,
        client_s_sk: &PrivateKey,
        server_s_pk: &PublicKey,
        client_id: &[u8],
        server_id: &[u8],
        context: &[u8],
    ) -> (out: Result<(Ke3Message, Vec<u8>), ProtocolError>)
        ensures
            match client_finished(
                self@,
                credential_request@,
                credential_response@,
                ke2@,
                client_s_sk@,
                server_s_pk@,
                client_id@,
                server_id@,
                context@,
            ) {
                Ok(v) => out is Ok && out->Ok_0.0@ == v.0 && out->Ok_0.1@ == v.1,
                Err(e) => out is Err && out->Err_0 == e,
            },
            out is Ok ==> out->Ok_0.1@.len() == HASH_LEN,
    {
        proof {
            use_type_invariant(self);
            use_type_invariant(ke2);
        }
        if context.len() > MAX_FRAMED_LEN || client_id.len() > MAX_FRAMED_LEN || server_id.len()
            > MAX_FRAMED_LEN {
            return Err(ProtocolError::SerializationError);
        }
        let dh1 = guard(self.client_e_sk.diffie_hellman(&ke2.server_e_pk));
        let dh2 = guard(self.client_e_sk.diffie_hellman(server_s_pk));
        let dh3 = guard(client_s_sk.diffie_hellman(&ke2.server_e_pk));
        let dh12 = guard(join(expose(&dh1), expose(&dh2)));
        let ikm = guard(join(expose(&dh12), expose(&dh3)));
        let server_e_pk = ke2.server_e_pk.serialize();
        let transcript = write_preamble(
            context,
            client_id,
            credential_request,
            server_id,
            credential_response,
            ke2.server_nonce.as_slice(),
            server_e_pk.as_slice(),
        );
        let keys = derive_keys(expose(&ikm), transcript.as_slice());
        if !ct_eq(keys.server_mac.as_slice(), ke2.mac.as_slice()) {
            return Err(ProtocolError::InvalidLogin);
        }
        Ok((Ke3Message { mac: keys.client_mac }, keys.session_key))
    }
}

/// What a server holds of the key exchange before its long-term private
/// key has been used.
pub struct Ke2BuilderView {
    /// The server's nonce.
    pub server_nonce: Seq<u8>,
    /// The server's ephemeral public key.
    pub server_e_pk: Seq<u8>,
    /// The client's ephemeral public key.
    pub client_e_pk: Seq<u8>,
    /// The Diffie-Hellman value of both ephemeral keys.
    pub dh1: Seq<u8>,
    /// The Diffie-Hellman value of the server's ephemeral key and the
    /// client's static key.
    pub dh3: Seq<u8>,
    /// The transcript.
    pub transcript: Seq<u8>,
}

/// The server's second step of the key exchange, stopped where it needs
/// the Diffie-Hellman value of the server's long-term private key and the
/// client's ephemeral public key.
#[derive(Debug)]
pub struct Ke2Builder {
    pub(crate) server_nonce: Vec<u8>,
    pub(crate) server_e_pk: PublicKey,
    pub(crate) client_e_pk: PublicKey,
    pub(crate) dh1: Secret,
    pub(crate) dh3: Secret,
    pub(crate) transcript: Vec<u8>,
}

impl View for Ke2Builder {
    type V = Ke2BuilderView;

    closed spec fn view(&self) -> Ke2BuilderView {
        Ke2BuilderView {
            server_nonce: self.server_nonce@,
            server_e_pk: self.server_e_pk@,
            client_e_pk: self.client_e_pk@,
            dh1: held(self.dh1),
            dh3: held(self.dh3),
            transcript: self.transcript@,
        }
    }
}

/// What the server keeps of the key exchange between the two legs.
pub struct Ke2StateView {
    /// The tag that the client must answer with.
    pub expected_mac: Seq<u8>,
    /// The session key.
    pub session_key: Seq<u8>,
}

/// The server's state of the key exchange between the two legs of a login.
#[derive(Debug)]
pub struct Ke2State {
    pub(crate) expected_mac: Vec<u8>,
    pub(crate) session_key: Secret,
}

impl View for Ke2State {
    type V = Ke2StateView;

    closed spec fn view(&self) -> Ke2StateView {
        Ke2StateView { expected_mac: self.expected_mac@, session_key: held(self.session_key) }
    }
}

/// What the server holds after its second step up to the use of its
/// long-term key, for a nonce and an ephemeral key. Context and names that
/// are too long to be framed are refused.
pub open spec fn server_prepared(
    server_nonce: Seq<u8>,
    server_e_sk: Seq<u8>,
    client_s_pk: Seq<u8>,
    ke1: Ke1MessageView,
    credential_request: Seq<u8>,
    credential_response: Seq<u8>,
    client_id: Seq<u8>,
    server_id: Seq<u8>,
    context: Seq<u8>,
) -> Result<Ke2BuilderView, ProtocolError> {
    if context.len() > MAX_FRAMED_LEN || client_id.len() > MAX_FRAMED_LEN || server_id.len()
        > MAX_FRAMED_LEN {
        Err(ProtocolError::SerializationError)
    } else {
        Ok(
            Ke2BuilderView {
                server_nonce,
                server_e_pk: base_mult(server_e_sk),
                client_e_pk: ke1.client_e_pk,
                dh1: scalar_mult(server_e_sk, ke1.client_e_pk),
                dh3: scalar_mult(server_e_sk, client_s_pk),
                transcript: preamble(
                    context,
                    client_id,
                    credential_request,
                    server_id,
                    credential_response,
                    server_nonce,
                    base_mult(server_e_sk),
                ),
            },
        )
    }
}

/// The second message and the server's state, once the Diffie-Hellman value
/// of the server's long-term key is known.
pub open spec fn server_built(builder: Ke2BuilderView, dh2: Seq<u8>) -> (
    Ke2MessageView,
    Ke2StateView,
) {
    let ikm = key_material(builder.dh1, dh2, builder.dh3);
    (
        Ke2MessageView {
            server_nonce: builder.server_nonce,
            server_e_pk: builder.server_e_pk,
            mac: server_mac(ikm, builder.transcript),
        },
        Ke2StateView {
            expected_mac: client_mac(ikm, builder.transcript),
            session_key: session_key(ikm, builder.transcript),
        },
    )
}

impl Ke2Builder {
    /// What holds of every such builder.
    #[verifier::type_invariant]
    pub open spec fn inv(self) -> bool {
        &&& self@.server_nonce.len() == NONCE_LEN
        &&& valid_element(self@.server_e_pk)
        &&& valid_element(self@.client_e_pk)
    }

    /// The server's second step up to the use of its long-term key. The
    /// result is exactly [`server_prepared`].
    pub fn start_with(
        server_nonce: Vec<u8>,
        server_e_sk: &PrivateKey,
        client_s_pk: &PublicKey,
        ke1: &Ke1Message,
        credential_request: &[u8],
        credential_response: &[u8],
        client_id: &[u8],
        server_id: &[u8],
        context: &[u8],
    ) -> (out: Result<Self, ProtocolError>)
        requires
            server_nonce@.len() == NONCE_LEN,
        ensures
            match server_prepared(
                server_nonce@,
                server_e_sk@,
                client_s_pk@,
                ke1@,
                credential_request@,
                credential_response@,
                client_id@,
                server_id@,
                context@,
            ) {
                Ok(v) => out is Ok && out->Ok_0@ == v,
                Err(e) => out is Err && out->Err_0 == e,
            },
    {
        proof {
            use_type_invariant(ke1);
        }
        if context.len() > MAX_FRAMED_LEN || client_id.len() > MAX_FRAMED_LEN || server_id.len()
            > MAX_FRAMED_LEN {
            return Err(ProtocolError::SerializationError);
        }
        let server_e_pk = server_e_sk.public_key();
        let dh1 = guard(server_e_sk.diffie_hellman(&ke1.client_e_pk));
        let dh3 = guard(server_e_sk.diffie_hellman(client_s_pk));
        let e_pk_bytes = server_e_pk.serialize();
        let transcript = write_preamble(
            context,
            client_id,
            credential_request,
            server_id,
            credential_response,
            server_nonce.as_slice(),
            e_pk_bytes.as_slice(),
        );
        let client_e_pk = ke1.client_e_pk.clone();
        proof {
            use_type_invariant(&server_e_pk);
            use_type_invariant(&client_e_pk);
        }
        Ok(Ke2Builder { server_nonce, server_e_pk, client_e_pk, dh1, dh3, transcript })
    }

    /// The client's ephemeral public key: what the holder of the server's
    /// long-term private key is to combine with it.
    pub fn data(&self) -> (out: &PublicKey)
        ensures
            out@ == self@.client_e_pk,
    {
        &self.client_e_pk
    }

    /// Completes the second step with the Diffie-Hellman value of the
    /// server's long-term key and the client's ephemeral key. The result is
    /// exactly [`server_built`].
    pub fn build(self, dh2: &[u8]) -> (out: (Ke2Message, Ke2State))
        ensures
            out.0@ == server_built(self@, dh2@).0,
            out.1@ == server_built(self@, dh2@).1,
    {
        proof {
            use_type_invariant(&self);
        }
        let dh12 = guard(join(expose(&self.dh1), dh2));
        let ikm = guard(join(expose(&dh12), expose(&self.dh3)));
        let keys = derive_keys(expose(&ikm), self.transcript.as_slice());
        let message = Ke2Message {
            server_nonce: self.server_nonce,
            server_e_pk: self.server_e_pk,
            mac: keys.server_mac,
        };
        let state = Ke2State {
            expected_mac: keys.client_mac,
            session_key: guard(keys.session_key),
        };
        (message, state)
    }
}

/// What the server's last step gives for a third message: the session key
/// where the message carries the expected tag, an invalid login otherwise.
pub open spec fn server_finished(state: Ke2StateView, ke3: Seq<u8>) -> Result<
    Seq<u8>,
    ProtocolError,
> {
    if ke3 == state.expected_mac {
        Ok(state.session_key)
    } else {
        Err(ProtocolError::InvalidLogin)
    }
}

impl Ke2State {
    /// What holds of every such state.
    #[verifier::type_invariant]
    pub open spec fn inv(self) -> bool {
        self@.expected_mac.len() == HASH_LEN && self@.session_key.len() == HASH_LEN
    }

    /// The server's last step of the key exchange. The tags are compared in
    /// time that does not depend on them. The result is exactly
    /// [`server_finished`].
    pub fn finish(self, ke3: &Ke3Message) -> (out: Result<Vec<u8>, ProtocolError>)
        ensures
            match server_finished(self@, ke3@) {
                Ok(v) => out is Ok && out->Ok_0@ == v && v.len() == HASH_LEN,
                Err(e) => out is Err && out->Err_0 == e,
            },
    {
        proof {
            use_type_invariant(&self);
            use_type_invariant(ke3);
        }
        if !ct_eq(ke3.mac.as_slice(), self.expected_mac.as_slice()) {
            return Err(ProtocolError::InvalidLogin);
        }
        Ok(copy_of(expose(&self.session_key)))
    }
}

/// Where client and server hold the same three Diffie-Hellman values and
/// the same transcript, the server's tag is the one the client expects, the
/// client's tag is the one the server expects, and both hold the same
/// session key.
pub proof fn lemma_same_secrets_agree(
    client: Ke1StateView,
    builder: Ke2BuilderView,
    dh2: Seq<u8>,
    credential_request: Seq<u8>,
    credential_response: Seq<u8>,
    client_s_sk: Seq<u8>,
    server_s_pk: Seq<u8>,
    client_id: Seq<u8>,
    server_id: Seq<u8>,
    context: Seq<u8>,
)
    requires
        context.len() <= MAX_FRAMED_LEN,
        client_id.len() <= MAX_FRAMED_LEN,
        server_id.len() <= MAX_FRAMED_LEN,
        builder.dh1 == scalar_mult(client.client_e_sk, builder.server_e_pk),
        dh2 == scalar_mult(client.client_e_sk, server_s_pk),
        builder.dh3 == scalar_mult(client_s_sk, builder.server_e_pk),
        builder.transcript == preamble(
            context,
            client_id,
            credential_request,
            server_id,
            credential_response,
            builder.server_nonce,
            builder.server_e_pk,
        ),
    ensures
        ({
            let built = server_built(builder, dh2);
            let finished = client_finished(
                client,
                credential_request,
                credential_response,
                built.0,
                client_s_sk,
                server_s_pk,
                client_id,
                server_id,
                context,
            );
            &&& finished is Ok
            &&& server_finished(built.1, finished->Ok_0.0) == Ok::<Seq<u8>, ProtocolError>(
                finished->Ok_0.1,
            )
        }),
{
}

} // verus!
