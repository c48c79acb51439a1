use curve25519_dalek::ristretto::CompressedRistretto;
use curve25519_dalek::scalar::Scalar;
use hkdf::Hkdf;
use opaque_ke::errors::ProtocolError;
use opaque_ke::ksf::{Identity, Ksf};
use opaque_ke::messages::{
    RegistrationUpload, CREDENTIAL_REQUEST_LEN, CREDENTIAL_RESPONSE_LEN,
    CREDENTIAL_RESPONSE_WITHOUT_KE_LEN, REGISTRATION_UPLOAD_LEN,
};
use opaque_ke::registration::SERVER_REGISTRATION_LEN;
use opaque_ke::{
    ClientLogin, ClientRegistration, ClientRegistrationFinishParameters, CredentialRequest,
    CredentialResponse, Identifiers, ServerLogin, ServerLoginParameters, ServerRegistration,
    ServerSetup,
};
use rand::rngs::OsRng;
use sha2::{Digest, Sha512};

struct Reverse;

impl Ksf for Reverse {
    fn hash(&self, input: Vec<u8>) -> Result<Vec<u8>, ProtocolError> {
        Ok(input.into_iter().rev().collect())
    }
}

struct Broken;

impl Ksf for Broken {
    fn hash(&self, _input: Vec<u8>) -> Result<Vec<u8>, ProtocolError> {
        Err(ProtocolError::KsfError)
    }
}

fn no_ids() -> Identifiers<'static> {
    Identifiers { client: None, server: None }
}

#[test]
fn identity_gives_its_input_back() {
    assert_eq!(Identity.hash(vec![1, 2, 3]), Ok(vec![1, 2, 3]));
    assert_eq!(Identity.hash(vec![]), Ok(vec![]));
}

#[test]
fn registration_under_one_nonce_does_not_depend_on_the_blind() {
    let setup = ServerSetup::new(&mut OsRng);
    let mut uploads = Vec::new();
    let mut export_keys = Vec::new();
    for _ in 0..2 {
        let start = ClientRegistration::start(&mut OsRng, b"password").unwrap();
        let response = ServerRegistration::start(&setup, start.message, b"user").unwrap();
        let finish = start
            .state
            .finish_with_nonce(
                vec![4u8; 32],
                b"password",
                response.message,
                ClientRegistrationFinishParameters::default(),
            )
            .unwrap();
        uploads.push(finish.message.serialize());
        export_keys.push(finish.export_key);
    }
    assert_eq!(uploads[0], uploads[1]);
    assert_eq!(export_keys[0], export_keys[1]);
    assert_eq!(uploads[0][96..128].to_vec(), vec![4u8; 32]);
}

#[test]
fn registration_depends_on_password_user_and_stretching() {
    let setup = ServerSetup::new(&mut OsRng);
    let run = |password: &[u8], user: &[u8], reverse: bool| {
        let start = ClientRegistration::start(&mut OsRng, password).unwrap();
        let response = ServerRegistration::start(&setup, start.message, user).unwrap();
        let finish = if reverse {
            start.state.finish_with_nonce(
                vec![4u8; 32],
                password,
                response.message,
                ClientRegistrationFinishParameters::new(no_ids(), Some(&Reverse)),
            )
        } else {
            start.state.finish_with_nonce(
                vec![4u8; 32],
                password,
                response.message,
                ClientRegistrationFinishParameters::<Identity>::new(no_ids(), None),
            )
        };
        finish.unwrap().export_key
    };
    let base = run(b"password", b"user", false);
    assert_eq!(run(b"password", b"user", false), base);
    assert_ne!(run(b"passwore", b"user", false), base);
    assert_ne!(run(b"password", b"uses", false), base);
    assert_ne!(run(b"password", b"user", true), base);
}

#[test]
fn nonce_of_the_wrong_length_is_refused() {
    let setup = ServerSetup::new(&mut OsRng);
    let start = ClientRegistration::start(&mut OsRng, b"password").unwrap();
    let response = ServerRegistration::start(&setup, start.message, b"user").unwrap();
    let finish = start.state.finish_with_nonce(
        vec![4u8; 31],
        b"password",
        response.message,
        ClientRegistrationFinishParameters::default(),
    );
    assert_eq!(finish.err(), Some(ProtocolError::InvalidNonce));
}

#[test]
fn failing_key_stretching_is_reported() {
    let setup = ServerSetup::new(&mut OsRng);
    let start = ClientRegistration::start(&mut OsRng, b"password").unwrap();
    let response = ServerRegistration::start(&setup, start.message, b"user").unwrap();
    let finish = start.state.finish(
        &mut OsRng,
        b"password",
        response.message,
        ClientRegistrationFinishParameters::new(no_ids(), Some(&Broken)),
    );
    assert_eq!(finish.err(), Some(ProtocolError::KsfError));
}

#[test]
fn start_with_blind_gives_the_password_under_the_blind() {
    let mut one = vec![0u8; 32];
    one[0] = 1;
    let mut two = vec![0u8; 32];
    two[0] = 2;
    let under_one = ClientRegistration::start_with_blind(one.clone(), b"password").unwrap();
    let under_two = ClientRegistration::start_with_blind(two, b"password").unwrap();
    let again = ClientRegistration::start_with_blind(one.clone(), b"password").unwrap();
    assert_eq!(again.message, under_one.message);
    let other = ClientRegistration::start_with_blind(one, b"passwore").unwrap();
    assert_ne!(other.message, under_one.message);

    let point = CompressedRistretto::from_slice(&under_one.message.serialize())
        .unwrap()
        .decompress()
        .unwrap();
    let doubled = (point * Scalar::from(2u8)).compress().to_bytes().to_vec();
    assert_eq!(under_two.message.serialize(), doubled);
}

#[test]
fn start_with_blind_refuses_what_is_no_scalar() {
    assert_eq!(
        ClientRegistration::start_with_blind(vec![0u8; 32], b"password").err(),
        Some(ProtocolError::Blinding)
    );
    assert_eq!(
        ClientRegistration::start_with_blind(vec![0xffu8; 32], b"password").err(),
        Some(ProtocolError::Blinding)
    );
    assert_eq!(
        ClientRegistration::start_with_blind(vec![1u8; 31], b"password").err(),
        Some(ProtocolError::Blinding)
    );
}

#[test]
fn blind_of_one_sends_the_unblinded_element() {
    // With the blind one the evaluation is not unblinded at all: two runs
    // from one blinded element recover one password.
    let setup = ServerSetup::new(&mut OsRng);
    let first = ClientRegistration::start(&mut OsRng, b"password").unwrap();
    let second = ClientRegistration::start(&mut OsRng, b"password").unwrap();
    assert_ne!(first.message, second.message);
    let a = ServerRegistration::start(&setup, first.message.clone(), b"user").unwrap();
    let b = ServerRegistration::start(&setup, first.message, b"user").unwrap();
    assert_eq!(a.message, b.message);
    assert_eq!(a.message.server_s_pk(), setup.public_key());
}

#[test]
fn upload_round_trip_and_layout() {
    let setup = ServerSetup::new(&mut OsRng);
    let start = ClientRegistration::start(&mut OsRng, b"password").unwrap();
    let response = ServerRegistration::start(&setup, start.message, b"user").unwrap();
    let finish = start
        .state
        .finish(
            &mut OsRng,
            b"password",
            response.message,
            ClientRegistrationFinishParameters::default(),
        )
        .unwrap();
    let upload = finish.message;
    let bytes = upload.serialize();
    assert_eq!(bytes.len(), REGISTRATION_UPLOAD_LEN);
    assert_eq!(REGISTRATION_UPLOAD_LEN, 192);
    assert_eq!(SERVER_REGISTRATION_LEN, 192);
    assert_eq!(bytes[..32].to_vec(), upload.client_s_pk().serialize());
    assert_eq!(bytes[32..96].to_vec(), upload.masking_key().to_vec());
    assert_eq!(bytes[96..].to_vec(), upload.envelope().serialize());
    assert_eq!(RegistrationUpload::deserialize(&bytes).unwrap(), upload);
    assert_eq!(upload.clone(), upload);
    assert_eq!(
        RegistrationUpload::deserialize(&bytes[..191]).err(),
        Some(ProtocolError::InvalidByteSequence)
    );
    let mut bad = bytes.clone();
    for b in bad[..32].iter_mut() {
        *b = 0;
    }
    assert_eq!(
        RegistrationUpload::deserialize(&bad).err(),
        Some(ProtocolError::InvalidByteSequence)
    );
    let file = ServerRegistration::finish(upload.clone());
    assert_eq!(file.upload(), &upload);
    assert_eq!(file.clone().into_upload(), upload);
}

#[test]
fn dummy_record_has_the_setup_key_and_a_zero_envelope() {
    let setup = ServerSetup::new(&mut OsRng);
    let dummy = RegistrationUpload::dummy(&mut OsRng, &setup);
    assert_eq!(dummy.client_s_pk(), setup.dummy_pk());
    assert_eq!(dummy.envelope().serialize(), vec![0u8; 96]);
    assert_eq!(dummy.masking_key().len(), 64);
    let other = RegistrationUpload::dummy(&mut OsRng, &setup);
    assert_ne!(dummy.masking_key(), other.masking_key());
    let fixed = RegistrationUpload::dummy_with_masking_key(vec![9u8; 64], &setup);
    assert_eq!(fixed.masking_key().to_vec(), vec![9u8; 64]);
    assert_eq!(fixed.serialize().len(), 192);
}

#[test]
fn credential_request_round_trip_and_take() {
    let start = ClientLogin::start(&mut OsRng, b"password").unwrap();
    let bytes = start.message.serialize();
    assert_eq!(bytes.len(), CREDENTIAL_REQUEST_LEN);
    assert_eq!(CREDENTIAL_REQUEST_LEN, 96);
    assert_eq!(CredentialRequest::deserialize(&bytes).unwrap(), start.message);
    assert_eq!(bytes[..32].to_vec(), start.message.to_parts());
    assert_eq!(bytes[..32].to_vec(), start.message.get_blinded_element_for_testing());
    assert_eq!(bytes[32..].to_vec(), start.message.ke1_message().serialize());

    let mut longer = bytes.clone();
    longer.extend_from_slice(&[1, 2, 3]);
    assert_eq!(
        CredentialRequest::deserialize(&longer).err(),
        Some(ProtocolError::InvalidByteSequence)
    );
    let (taken, rest) = CredentialRequest::deserialize_take(&longer).unwrap();
    assert_eq!(taken, start.message);
    assert_eq!(rest, &[1, 2, 3]);
    assert_eq!(
        CredentialRequest::deserialize_take(&bytes[..95]).err(),
        Some(ProtocolError::InvalidByteSequence)
    );
    let mut bad = longer.clone();
    for b in bad[..32].iter_mut() {
        *b = 0xff;
    }
    assert_eq!(
        CredentialRequest::deserialize_take(&bad).err(),
        Some(ProtocolError::InvalidByteSequence)
    );
}

#[test]
fn credential_response_round_trip_and_layout() {
    let setup = ServerSetup::new(&mut OsRng);
    let start = ClientLogin::start(&mut OsRng, b"password").unwrap();
    let server = ServerLogin::start(
        &mut OsRng,
        &setup,
        None,
        start.message,
        b"user",
        ServerLoginParameters::default(),
    )
    .unwrap();
    let response = server.message;
    let bytes = response.serialize();
    assert_eq!(bytes.len(), CREDENTIAL_RESPONSE_LEN);
    assert_eq!(CREDENTIAL_RESPONSE_LEN, 320);
    assert_eq!(CREDENTIAL_RESPONSE_WITHOUT_KE_LEN, 192);
    assert_eq!(CredentialResponse::deserialize(&bytes).unwrap(), response);
    assert_eq!(response.clone(), response);
    assert_eq!(bytes[..192].to_vec(), response.to_parts());
    assert_eq!(bytes[..32].to_vec(), response.evaluation_element().to_vec());
    assert_eq!(bytes[32..64].to_vec(), response.masking_nonce().to_vec());
    assert_eq!(bytes[64..192].to_vec(), response.masked_response().to_vec());
    assert_eq!(bytes[192..].to_vec(), response.ke2_message().serialize());
    assert_eq!(
        CredentialResponse::deserialize(&bytes[1..]).err(),
        Some(ProtocolError::InvalidByteSequence)
    );
    let mut bad = bytes.clone();
    for b in bad[224..256].iter_mut() {
        *b = 0;
    }
    assert_eq!(
        CredentialResponse::deserialize(&bad).err(),
        Some(ProtocolError::InvalidByteSequence)
    );
    let element = response.evaluation_element().to_vec();
    let changed = response.set_evaluation_element_for_testing(&bytes[224..256]).unwrap();
    assert_ne!(changed.evaluation_element().to_vec(), element);
    assert_eq!(changed.masked_response(), response.masked_response());
    assert_eq!(
        response.set_evaluation_element_for_testing(&[0xffu8; 32]).err(),
        Some(ProtocolError::InvalidByteSequence)
    );
    assert_eq!(
        response.set_evaluation_element_for_testing(&[0u8; 31]).err(),
        Some(ProtocolError::InvalidByteSequence)
    );
}

#[test]
fn identity_can_be_set_and_is_refused_by_the_client() {
    let setup = ServerSetup::new(&mut OsRng);
    let identity = [0u8; 32];

    let start = ClientRegistration::start(&mut OsRng, b"password").unwrap();
    let response = ServerRegistration::start(&setup, start.message, b"user").unwrap().message;
    let changed = response.set_evaluation_element_for_testing(&identity).unwrap();
    assert_eq!(changed.evaluation_element().to_vec(), identity.to_vec());
    assert_eq!(changed.server_s_pk(), response.server_s_pk());
    let bytes = changed.serialize();
    assert_eq!(bytes[..32].to_vec(), identity.to_vec());
    assert_eq!(bytes[32..].to_vec(), response.serialize()[32..].to_vec());
    assert_eq!(
        opaque_ke::RegistrationResponse::deserialize(&bytes).err(),
        Some(ProtocolError::InvalidByteSequence)
    );
    let finish = start.state.finish(
        &mut OsRng,
        b"password",
        changed,
        ClientRegistrationFinishParameters::default(),
    );
    assert_eq!(finish.err(), Some(ProtocolError::InvalidByteSequence));

    let start = ClientLogin::start(&mut OsRng, b"password").unwrap();
    let response = ServerLogin::start(
        &mut OsRng,
        &setup,
        None,
        start.message,
        b"user",
        ServerLoginParameters::default(),
    )
    .unwrap()
    .message;
    let changed = response.set_evaluation_element_for_testing(&identity).unwrap();
    assert_eq!(changed.evaluation_element().to_vec(), identity.to_vec());
    assert_eq!(changed.masking_nonce(), response.masking_nonce());
    assert_eq!(changed.masked_response(), response.masked_response());
    assert_eq!(changed.ke2_message(), response.ke2_message());
    assert_eq!(
        CredentialResponse::deserialize(&changed.serialize()).err(),
        Some(ProtocolError::InvalidByteSequence)
    );
    let finish = start.state.finish(
        &mut OsRng,
        b"password",
        changed,
        opaque_ke::ClientLoginFinishParameters::default(),
    );
    assert_eq!(finish.err(), Some(ProtocolError::InvalidByteSequence));
}

#[test]
fn evaluation_is_the_blinded_element_times_the_user_key() {
    let setup = ServerSetup::new(&mut OsRng);
    let start = ClientRegistration::start(&mut OsRng, b"password").unwrap();
    let blinded = start.message.serialize();
    let material = [5u8; 32];
    let response =
        ServerRegistration::start_with_key_material(&setup, &material, start.message).unwrap();

    let key = voprf::OprfServer::<voprf::Ristretto255>::new_from_seed(
        &material,
        b"OPAQUE-DeriveKeyPair",
    )
    .unwrap()
    .serialize();
    let key: [u8; 32] = key.as_slice().try_into().unwrap();
    let key = Option::<Scalar>::from(Scalar::from_canonical_bytes(key)).unwrap();
    let point = CompressedRistretto::from_slice(&blinded).unwrap().decompress().unwrap();
    let expected = (point * key).compress().to_bytes().to_vec();
    assert_eq!(response.message.evaluation_element().to_vec(), expected);
    assert_ne!(expected, blinded);
}

#[test]
fn export_key_follows_the_derivation() {
    let setup = ServerSetup::new(&mut OsRng);
    let password = b"password";
    // With the blind one, nothing is taken off the evaluation.
    let mut one = vec![0u8; 32];
    one[0] = 1;
    let start = ClientRegistration::start_with_blind(one, password).unwrap();
    let response = ServerRegistration::start(&setup, start.message, b"user").unwrap();
    let evaluation = response.message.evaluation_element().to_vec();
    let nonce = vec![4u8; 32];
    let finish = start
        .state
        .finish_with_nonce(
            nonce.clone(),
            password,
            response.message,
            ClientRegistrationFinishParameters::default(),
        )
        .unwrap();

    let mut hashed = Sha512::new();
    hashed.update([0u8, 8u8]);
    hashed.update(password);
    hashed.update([0u8, 32u8]);
    hashed.update(&evaluation);
    hashed.update(b"Finalize");
    let output = hashed.finalize().to_vec();
    let mut ikm = password.to_vec();
    ikm.extend_from_slice(&output);
    let randomized_pwd = Hkdf::<Sha512>::extract(Some(&[]), &ikm).0.to_vec();
    let mut info = nonce.clone();
    info.extend_from_slice(b"ExportKey");
    let mut export_key = vec![0u8; 64];
    Hkdf::<Sha512>::from_prk(&randomized_pwd).unwrap().expand(&info, &mut export_key).unwrap();
    assert_eq!(finish.export_key, export_key);
    let mut masking_key = vec![0u8; 64];
    Hkdf::<Sha512>::from_prk(&randomized_pwd)
        .unwrap()
        .expand(b"MaskingKey", &mut masking_key)
        .unwrap();
    assert_eq!(finish.message.masking_key().to_vec(), masking_key);
}
