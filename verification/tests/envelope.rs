use hkdf::Hkdf;
use hmac::{Hmac, Mac};
use opaque_ke::envelope::{open, seal, seal_with_nonce, Envelope, ENVELOPE_LEN, NONCE_LEN};
use opaque_ke::errors::ProtocolError;
use opaque_ke::keypair::{PrivateKey, PublicKey};
use opaque_ke::Identifiers;
use rand::rngs::OsRng;
use sha2::Sha512;

fn server_key() -> PublicKey {
    PrivateKey::random(&mut OsRng).public_key()
}

fn expand(prk: &[u8], info: &[u8], len: usize) -> Vec<u8> {
    let mut out = vec![0u8; len];
    Hkdf::<Sha512>::from_prk(prk).unwrap().expand(info, &mut out).unwrap();
    out
}

fn no_ids() -> Identifiers<'static> {
    Identifiers { client: None, server: None }
}

#[test]
fn envelope_lengths() {
    assert_eq!(NONCE_LEN, 32);
    assert_eq!(ENVELOPE_LEN, 96);
}

#[test]
fn envelope_round_trip() {
    let mut bytes = vec![1u8; 32];
    bytes.extend_from_slice(&[2u8; 64]);
    let envelope = Envelope::deserialize(&bytes).unwrap();
    assert_eq!(envelope.serialize(), bytes);
    assert_eq!(Envelope::deserialize(&envelope.serialize()).unwrap(), envelope);
    assert_eq!(envelope.clone(), envelope);
}

#[test]
fn envelope_refuses_other_lengths() {
    assert_eq!(
        Envelope::deserialize(&[0u8; 95]).err(),
        Some(ProtocolError::InvalidByteSequence)
    );
    assert_eq!(
        Envelope::deserialize(&[0u8; 97]).err(),
        Some(ProtocolError::InvalidByteSequence)
    );
    assert_eq!(Envelope::deserialize(&[]).err(), Some(ProtocolError::InvalidByteSequence));
}

#[test]
fn dummy_envelope_is_all_zero() {
    assert_eq!(Envelope::dummy().serialize(), vec![0u8; 96]);
}

#[test]
fn sealed_envelope_carries_the_derived_tag_and_keys() {
    let randomized_pwd = [7u8; 64];
    let nonce = vec![3u8; 32];
    let server = server_key();
    let sealed = seal_with_nonce(nonce.clone(), &randomized_pwd, &server, no_ids()).unwrap();

    let mut info = nonce.clone();
    info.extend_from_slice(b"ExportKey");
    assert_eq!(sealed.export_key, expand(&randomized_pwd, &info, 64));
    assert_eq!(sealed.masking_key, expand(&randomized_pwd, b"MaskingKey", 64));

    let mut info = nonce.clone();
    info.extend_from_slice(b"PrivateKey");
    let seed = expand(&randomized_pwd, &info, 32);
    let derived = voprf::OprfServer::<voprf::Ristretto255>::new_from_seed(
        &seed,
        b"OPAQUE-DeriveDiffieHellmanKeyPair",
    )
    .unwrap()
    .serialize()
    .to_vec();
    assert_eq!(sealed.client_key_pair.private().serialize(), derived);
    assert_ne!(derived, seed);
    assert_eq!(
        sealed.client_key_pair.public(),
        &sealed.client_key_pair.private().public_key()
    );

    let mut info = nonce.clone();
    info.extend_from_slice(b"AuthKey");
    let auth_key = expand(&randomized_pwd, &info, 64);
    let mut message = nonce.clone();
    message.extend_from_slice(&server.serialize());
    message.extend_from_slice(&server.serialize());
    message.extend_from_slice(&sealed.client_key_pair.public().serialize());
    let mut mac = Hmac::<Sha512>::new_from_slice(&auth_key).unwrap();
    mac.update(&message);
    let tag = mac.finalize().into_bytes().to_vec();
    let mut expected = nonce.clone();
    expected.extend_from_slice(&tag);
    assert_eq!(sealed.envelope.serialize(), expected);
}

#[test]
fn tag_covers_the_names_in_place_of_the_keys() {
    let randomized_pwd = [7u8; 64];
    let nonce = vec![3u8; 32];
    let server = server_key();
    let ids = Identifiers { client: Some(b"Alice"), server: Some(b"Facebook") };
    let sealed = seal_with_nonce(nonce.clone(), &randomized_pwd, &server, ids).unwrap();
    let mut info = nonce.clone();
    info.extend_from_slice(b"AuthKey");
    let auth_key = expand(&randomized_pwd, &info, 64);
    let mut message = nonce.clone();
    message.extend_from_slice(&server.serialize());
    message.extend_from_slice(b"Facebook");
    message.extend_from_slice(b"Alice");
    let mut mac = Hmac::<Sha512>::new_from_slice(&auth_key).unwrap();
    mac.update(&message);
    let tag = mac.finalize().into_bytes().to_vec();
    assert_eq!(sealed.envelope.serialize()[32..].to_vec(), tag);
}

#[test]
fn envelope_opens_under_what_sealed_it() {
    let randomized_pwd = [9u8; 64];
    let server = server_key();
    let ids = Identifiers { client: Some(b"Alice"), server: None };
    let sealed = seal(&mut OsRng, &randomized_pwd, &server, ids).unwrap();
    let opened = open(&randomized_pwd, &sealed.envelope, &server, ids).unwrap();
    assert_eq!(opened.export_key, sealed.export_key);
    assert_eq!(opened.client_key_pair, sealed.client_key_pair);
    let again = open(&randomized_pwd, &sealed.envelope, &server, ids).unwrap();
    assert_eq!(again.client_key_pair, opened.client_key_pair);
}

#[test]
fn envelope_does_not_open_under_anything_else() {
    let randomized_pwd = [9u8; 64];
    let server = server_key();
    let sealed = seal(&mut OsRng, &randomized_pwd, &server, no_ids()).unwrap();
    let invalid = Some(ProtocolError::InvalidLogin);
    assert_eq!(open(&[8u8; 64], &sealed.envelope, &server, no_ids()).err(), invalid);
    assert_eq!(open(&randomized_pwd, &sealed.envelope, &server_key(), no_ids()).err(), invalid);
    let ids = Identifiers { client: Some(b"Alice"), server: None };
    assert_eq!(open(&randomized_pwd, &sealed.envelope, &server, ids).err(), invalid);
    let mut bytes = sealed.envelope.serialize();
    bytes[95] ^= 1;
    let forged = Envelope::deserialize(&bytes).unwrap();
    assert_eq!(open(&randomized_pwd, &forged, &server, no_ids()).err(), invalid);
    assert_eq!(open(&randomized_pwd, &Envelope::dummy(), &server, no_ids()).err(), invalid);
}

#[test]
fn sealing_refuses_a_nonce_of_the_wrong_length() {
    let sealed = seal_with_nonce(vec![3u8; 33], &[7u8; 64], &server_key(), no_ids());
    assert_eq!(sealed.err(), Some(ProtocolError::InvalidNonce));
}

#[test]
fn fresh_nonces_differ() {
    let randomized_pwd = [9u8; 64];
    let server = server_key();
    let a = seal(&mut OsRng, &randomized_pwd, &server, no_ids()).unwrap();
    let b = seal(&mut OsRng, &randomized_pwd, &server, no_ids()).unwrap();
    assert_ne!(a.envelope.serialize()[..32], b.envelope.serialize()[..32]);
    assert_eq!(a.masking_key, b.masking_key);
}
