use opaque_ke::errors::ProtocolError;
use opaque_ke::keypair::{PrivateKey, PublicKey};
use opaque_ke::messages::{
    CredentialFinalization, RegistrationRequest, RegistrationResponse, CREDENTIAL_FINALIZATION_LEN,
    REGISTRATION_REQUEST_LEN, REGISTRATION_RESPONSE_LEN,
};
use rand::rngs::OsRng;

fn element() -> Vec<u8> {
    PrivateKey::random(&mut OsRng).public_key().serialize()
}

#[test]
fn registration_request_round_trip() {
    let bytes = element();
    assert_eq!(bytes.len(), REGISTRATION_REQUEST_LEN);
    let request = RegistrationRequest::deserialize(&bytes).unwrap();
    assert_eq!(request.serialize(), bytes);
    let again = RegistrationRequest::deserialize(&request.serialize()).unwrap();
    assert_eq!(again, request);
}

#[test]
fn registration_request_refuses_identity_and_wrong_length() {
    let identity = vec![0u8; 32];
    assert_eq!(
        RegistrationRequest::deserialize(&identity),
        Err(ProtocolError::InvalidByteSequence)
    );
    let mut long = element();
    long.push(0);
    assert_eq!(
        RegistrationRequest::deserialize(&long),
        Err(ProtocolError::InvalidByteSequence)
    );
    assert_eq!(
        RegistrationRequest::deserialize(&[]),
        Err(ProtocolError::InvalidByteSequence)
    );
}

#[test]
fn registration_request_refuses_non_canonical_element() {
    let bytes = vec![0xffu8; 32];
    assert_eq!(
        RegistrationRequest::deserialize(&bytes),
        Err(ProtocolError::InvalidByteSequence)
    );
    assert!(PublicKey::deserialize(&bytes).is_err());
}

#[test]
fn registration_response_round_trip() {
    let mut bytes = element();
    bytes.extend_from_slice(&element());
    assert_eq!(bytes.len(), REGISTRATION_RESPONSE_LEN);
    let response = RegistrationResponse::deserialize(&bytes).unwrap();
    assert_eq!(response.serialize(), bytes);
}

#[test]
fn credential_finalization_round_trip() {
    let bytes = vec![7u8; CREDENTIAL_FINALIZATION_LEN];
    let message = CredentialFinalization::deserialize(&bytes).unwrap();
    assert_eq!(message.serialize(), bytes);
    assert_eq!(
        CredentialFinalization::deserialize(&bytes[1..]),
        Err(ProtocolError::InvalidByteSequence)
    );
}
