use curve25519_dalek::constants::RISTRETTO_BASEPOINT_POINT;
use curve25519_dalek::ristretto::CompressedRistretto;
use curve25519_dalek::scalar::Scalar;
use opaque_ke::errors::ProtocolError;
use opaque_ke::keypair::{KeyPair, PrivateKey, PublicKey, PK_LEN, SK_LEN};
use rand::rngs::OsRng;

fn scalar_of(n: u8) -> Vec<u8> {
    let mut bytes = vec![0u8; 32];
    bytes[0] = n;
    bytes
}

#[test]
fn key_lengths() {
    assert_eq!(PK_LEN, 32);
    assert_eq!(SK_LEN, 32);
}

#[test]
fn public_key_of_one_is_the_base_point() {
    let sk = PrivateKey::deserialize(&scalar_of(1)).unwrap();
    let expected = RISTRETTO_BASEPOINT_POINT.compress().to_bytes().to_vec();
    assert_eq!(sk.public_key().serialize(), expected);
    assert_ne!(sk.public_key().serialize(), sk.serialize());
}

#[test]
fn public_key_is_the_base_point_times_the_scalar() {
    let sk = PrivateKey::random(&mut OsRng);
    let bytes: [u8; 32] = sk.serialize().try_into().unwrap();
    let scalar = Option::<Scalar>::from(Scalar::from_canonical_bytes(bytes)).unwrap();
    let expected = (RISTRETTO_BASEPOINT_POINT * scalar).compress().to_bytes().to_vec();
    assert_eq!(sk.public_key().serialize(), expected);
}

#[test]
fn diffie_hellman_is_the_point_times_the_scalar() {
    let a = PrivateKey::random(&mut OsRng);
    let b = PrivateKey::random(&mut OsRng);
    let bytes: [u8; 32] = a.serialize().try_into().unwrap();
    let scalar = Option::<Scalar>::from(Scalar::from_canonical_bytes(bytes)).unwrap();
    let point = CompressedRistretto::from_slice(&b.public_key().serialize())
        .unwrap()
        .decompress()
        .unwrap();
    let expected = (point * scalar).compress().to_bytes().to_vec();
    assert_eq!(a.diffie_hellman(&b.public_key()), expected);
}

#[test]
fn diffie_hellman_agrees_on_both_sides() {
    let a = PrivateKey::random(&mut OsRng);
    let b = PrivateKey::random(&mut OsRng);
    let left = a.diffie_hellman(&b.public_key());
    let right = b.diffie_hellman(&a.public_key());
    assert_eq!(left, right);
    assert_eq!(left.len(), 32);
    assert!(PublicKey::deserialize(&left).is_ok());
}

#[test]
fn private_key_refuses_zero_and_non_canonical_and_wrong_length() {
    assert_eq!(
        PrivateKey::deserialize(&scalar_of(0)).err(),
        Some(ProtocolError::InvalidByteSequence)
    );
    assert_eq!(
        PrivateKey::deserialize(&[0xffu8; 32]).err(),
        Some(ProtocolError::InvalidByteSequence)
    );
    assert_eq!(
        PrivateKey::deserialize(&[1u8; 31]).err(),
        Some(ProtocolError::InvalidByteSequence)
    );
    assert_eq!(
        PrivateKey::deserialize(&[1u8; 33]).err(),
        Some(ProtocolError::InvalidByteSequence)
    );
}

#[test]
fn private_key_round_trip() {
    let sk = PrivateKey::random(&mut OsRng);
    let bytes = sk.serialize();
    assert_eq!(bytes.len(), 32);
    assert_eq!(PrivateKey::deserialize(&bytes).unwrap(), sk);
    assert_eq!(sk.clone(), sk);
}

#[test]
fn public_key_round_trip() {
    let pk = PrivateKey::random(&mut OsRng).public_key();
    let bytes = pk.serialize();
    assert_eq!(PublicKey::deserialize(&bytes).unwrap(), pk);
    assert_eq!(pk.clone(), pk);
    assert_eq!(
        PublicKey::deserialize(&[0u8; 32]).err(),
        Some(ProtocolError::InvalidByteSequence)
    );
    assert_eq!(
        PublicKey::deserialize(&bytes[..31]).err(),
        Some(ProtocolError::InvalidByteSequence)
    );
}

#[test]
fn key_pair_holds_what_it_was_given() {
    let sk = PrivateKey::random(&mut OsRng);
    let pair = KeyPair::from_private_key(sk.clone());
    assert_eq!(pair.private(), &sk);
    assert_eq!(pair.public(), &sk.public_key());
    let other = PrivateKey::random(&mut OsRng).public_key();
    let pair = KeyPair::new(7u32, other.clone());
    assert_eq!(*pair.private(), 7u32);
    assert_eq!(pair.public(), &other);
    let fresh = KeyPair::derive_random(&mut OsRng);
    assert_eq!(fresh.public(), &fresh.private().public_key());
}
