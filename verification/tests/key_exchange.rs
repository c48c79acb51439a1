use hkdf::Hkdf;
use hmac::{Hmac, Mac};
use opaque_ke::errors::ProtocolError;
use opaque_ke::key_exchange::{
    derive_keys, Ke1Message, Ke1State, Ke2Builder, Ke2Message, Ke3Message, KE1_LEN, KE2_LEN,
    KE3_LEN,
};
use opaque_ke::keypair::PrivateKey;
use rand::rngs::OsRng;
use sha2::{Digest, Sha512};

fn expand_label(secret: &[u8], label: &[u8], context: &[u8]) -> Vec<u8> {
    let mut info = vec![0u8, 64u8];
    info.push((7 + label.len()) as u8);
    info.extend_from_slice(b"OPAQUE-");
    info.extend_from_slice(label);
    info.push(context.len() as u8);
    info.extend_from_slice(context);
    let mut out = vec![0u8; 64];
    Hkdf::<Sha512>::from_prk(secret).unwrap().expand(&info, &mut out).unwrap();
    out
}

fn tag(key: &[u8], message: &[u8]) -> Vec<u8> {
    let mut mac = Hmac::<Sha512>::new_from_slice(key).unwrap();
    mac.update(message);
    mac.finalize().into_bytes().to_vec()
}

#[test]
fn key_exchange_lengths() {
    assert_eq!(KE1_LEN, 64);
    assert_eq!(KE2_LEN, 128);
    assert_eq!(KE3_LEN, 64);
}

#[test]
fn key_schedule_follows_the_labels() {
    let ikm = [4u8; 96];
    let transcript = b"transcript".to_vec();
    let keys = derive_keys(&ikm, &transcript);

    let prk = Hkdf::<Sha512>::extract(Some(&[]), &ikm).0.to_vec();
    let hashed = Sha512::digest(&transcript).to_vec();
    let secret = expand_label(&prk, b"HandshakeSecret", &hashed);
    let session_key = expand_label(&prk, b"SessionKey", &hashed);
    let km2 = expand_label(&secret, b"ServerMAC", b"");
    let km3 = expand_label(&secret, b"ClientMAC", b"");
    let server_mac = tag(&km2, &hashed);
    let mut with_tag = transcript.clone();
    with_tag.extend_from_slice(&server_mac);
    let client_mac = tag(&km3, &Sha512::digest(&with_tag));

    assert_eq!(keys.session_key, session_key);
    assert_eq!(keys.server_mac, server_mac);
    assert_eq!(keys.client_mac, client_mac);
    assert_eq!(keys.session_key.len(), 64);
}

#[test]
fn first_message_round_trip() {
    let (_, message) = Ke1State::start(&mut OsRng);
    let bytes = message.serialize();
    assert_eq!(bytes.len(), 64);
    assert_eq!(Ke1Message::deserialize(&bytes).unwrap(), message);
    assert_eq!(message.clone(), message);
    assert_eq!(bytes[32..].to_vec(), message.client_e_pk().serialize());
}

#[test]
fn first_message_refuses_bad_key_and_length() {
    let (_, message) = Ke1State::start(&mut OsRng);
    let mut bytes = message.serialize();
    assert_eq!(
        Ke1Message::deserialize(&bytes[..63]).err(),
        Some(ProtocolError::InvalidByteSequence)
    );
    for b in bytes[32..].iter_mut() {
        *b = 0;
    }
    assert_eq!(Ke1Message::deserialize(&bytes).err(), Some(ProtocolError::InvalidByteSequence));
}

#[test]
fn first_message_carries_the_given_nonce_and_key() {
    let sk = PrivateKey::random(&mut OsRng);
    let (_, message) = Ke1State::start_with(vec![8u8; 32], sk.clone());
    let mut expected = vec![8u8; 32];
    expected.extend_from_slice(&sk.public_key().serialize());
    assert_eq!(message.serialize(), expected);
}

#[test]
fn third_message_round_trip() {
    let bytes = vec![3u8; 64];
    let message = Ke3Message::deserialize(&bytes).unwrap();
    assert_eq!(message.serialize(), bytes);
    assert_eq!(message.clone(), message);
    assert_eq!(Ke3Message::deserialize(&[3u8; 65]).err(), Some(ProtocolError::InvalidByteSequence));
}

#[test]
fn both_sides_of_the_exchange_agree() {
    let client_s = PrivateKey::random(&mut OsRng);
    let server_s = PrivateKey::random(&mut OsRng);
    let server_e = PrivateKey::random(&mut OsRng);
    let (state, ke1) = Ke1State::start(&mut OsRng);
    let request = b"request".to_vec();
    let response = b"response".to_vec();
    let builder = Ke2Builder::start_with(
        vec![1u8; 32],
        &server_e,
        &client_s.public_key(),
        &ke1,
        &request,
        &response,
        b"client",
        b"server",
        b"context",
    )
    .unwrap();
    assert_eq!(builder.data(), ke1.client_e_pk());
    let shared = server_s.diffie_hellman(builder.data());
    let (ke2, server_state) = builder.build(&shared);

    let bytes = ke2.serialize();
    assert_eq!(bytes.len(), 128);
    assert_eq!(bytes[..32].to_vec(), vec![1u8; 32]);
    assert_eq!(bytes[32..64].to_vec(), server_e.public_key().serialize());
    assert_eq!(Ke2Message::deserialize(&bytes).unwrap(), ke2);

    let (ke3, session_key) = state
        .finish(
            &request,
            &response,
            &ke2,
            &client_s,
            &server_s.public_key(),
            b"client",
            b"server",
            b"context",
        )
        .unwrap();
    assert_eq!(server_state.finish(&ke3).unwrap(), session_key);
}

#[test]
fn client_refuses_another_transcript() {
    let client_s = PrivateKey::random(&mut OsRng);
    let server_s = PrivateKey::random(&mut OsRng);
    let server_e = PrivateKey::random(&mut OsRng);
    let (state, ke1) = Ke1State::start(&mut OsRng);
    let builder = Ke2Builder::start_with(
        vec![1u8; 32],
        &server_e,
        &client_s.public_key(),
        &ke1,
        b"request",
        b"response",
        b"client",
        b"server",
        b"context",
    )
    .unwrap();
    let shared = server_s.diffie_hellman(builder.data());
    let (ke2, _) = builder.build(&shared);
    let finished = state.finish(
        b"request",
        b"response",
        &ke2,
        &client_s,
        &server_s.public_key(),
        b"client",
        b"server",
        b"other",
    );
    assert_eq!(finished.err(), Some(ProtocolError::InvalidLogin));
}

#[test]
fn names_too_long_to_frame_are_refused() {
    let client_s = PrivateKey::random(&mut OsRng);
    let server_e = PrivateKey::random(&mut OsRng);
    let (_, ke1) = Ke1State::start(&mut OsRng);
    let long = vec![0u8; 0x10000];
    let builder = Ke2Builder::start_with(
        vec![1u8; 32],
        &server_e,
        &client_s.public_key(),
        &ke1,
        b"request",
        b"response",
        &long,
        b"server",
        b"context",
    );
    assert_eq!(builder.err(), Some(ProtocolError::SerializationError));
}
