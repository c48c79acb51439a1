use hkdf::Hkdf;
use opaque_ke::envelope::Envelope;
use opaque_ke::errors::ProtocolError;
use opaque_ke::keypair::PrivateKey;
use opaque_ke::masking::{mask, unmask};
use opaque_ke::messages::MASKED_RESPONSE_LEN;
use rand::rngs::OsRng;
use sha2::Sha512;

fn envelope() -> Envelope {
    let mut bytes = vec![5u8; 32];
    bytes.extend_from_slice(&[6u8; 64]);
    Envelope::deserialize(&bytes).unwrap()
}

#[test]
fn mask_is_the_plain_bytes_under_the_derived_pad() {
    let key = [1u8; 64];
    let nonce = [2u8; 32];
    let pk = PrivateKey::random(&mut OsRng).public_key();
    let masked = mask(&key, &nonce, &pk, &envelope());
    assert_eq!(masked.len(), MASKED_RESPONSE_LEN);
    assert_eq!(MASKED_RESPONSE_LEN, 128);

    let mut info = nonce.to_vec();
    info.extend_from_slice(b"CredentialResponsePad");
    let mut pad = vec![0u8; 128];
    Hkdf::<Sha512>::from_prk(&key).unwrap().expand(&info, &mut pad).unwrap();
    let mut plain = pk.serialize();
    plain.extend_from_slice(&envelope().serialize());
    let expected: Vec<u8> = plain.iter().zip(pad.iter()).map(|(a, b)| a ^ b).collect();
    assert_eq!(masked, expected);
    assert_ne!(masked, plain);
}

#[test]
fn unmask_gives_back_what_was_masked() {
    let key = [1u8; 64];
    let nonce = [2u8; 32];
    let pk = PrivateKey::random(&mut OsRng).public_key();
    let masked = mask(&key, &nonce, &pk, &envelope());
    let (pk_again, envelope_again) = unmask(&key, &nonce, &masked).unwrap();
    assert_eq!(pk_again, pk);
    assert_eq!(envelope_again, envelope());
}

#[test]
fn unmask_with_another_nonce_gives_something_else() {
    let key = [1u8; 64];
    let pk = PrivateKey::random(&mut OsRng).public_key();
    let masked = mask(&key, &[2u8; 32], &pk, &envelope());
    match unmask(&key, &[3u8; 32], &masked) {
        Ok((other, _)) => assert_ne!(other, pk),
        Err(e) => assert_eq!(e, ProtocolError::InvalidLogin),
    }
}

#[test]
fn unmask_refuses_what_hides_no_public_key() {
    let key = [1u8; 64];
    let nonce = [2u8; 32];
    let mut info = nonce.to_vec();
    info.extend_from_slice(b"CredentialResponsePad");
    let mut pad = vec![0u8; 128];
    Hkdf::<Sha512>::from_prk(&key).unwrap().expand(&info, &mut pad).unwrap();
    // Under the pad itself lies the all-zero string, which begins with the
    // encoding of the identity.
    assert_eq!(unmask(&key, &nonce, &pad).err(), Some(ProtocolError::InvalidLogin));
}
