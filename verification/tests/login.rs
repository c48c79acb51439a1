use opaque_ke::errors::ProtocolError;
use opaque_ke::identifiers::OwnedIdentifiers;
use opaque_ke::keypair::{KeyPair, PrivateKey};
use opaque_ke::login::ServerLoginRandomness;
use opaque_ke::{
    ClientLogin, ClientLoginFinishParameters, ClientRegistration,
    ClientRegistrationFinishParameters, Identifiers, ServerLogin, ServerLoginParameters,
    ServerRegistration, ServerSetup,
};
use rand::rngs::OsRng;

fn scalar_of(n: u8) -> PrivateKey {
    let mut bytes = vec![0u8; 32];
    bytes[0] = n;
    PrivateKey::deserialize(&bytes).unwrap()
}

fn randomness() -> ServerLoginRandomness {
    ServerLoginRandomness::new(vec![1u8; 64], vec![2u8; 32], vec![3u8; 32], scalar_of(5)).unwrap()
}

fn registered(setup: &ServerSetup) -> ServerRegistration {
    let start = ClientRegistration::start(&mut OsRng, b"password").unwrap();
    let response = ServerRegistration::start(setup, start.message, b"user").unwrap();
    let finish = start
        .state
        .finish(
            &mut OsRng,
            b"password",
            response.message,
            ClientRegistrationFinishParameters::default(),
        )
        .unwrap();
    ServerRegistration::finish(finish.message)
}

#[test]
fn randomness_needs_the_right_lengths() {
    assert!(ServerLoginRandomness::new(vec![1u8; 63], vec![2u8; 32], vec![3u8; 32], scalar_of(5))
        .is_none());
    assert!(ServerLoginRandomness::new(vec![1u8; 64], vec![2u8; 31], vec![3u8; 32], scalar_of(5))
        .is_none());
    assert!(ServerLoginRandomness::new(vec![1u8; 64], vec![2u8; 32], vec![3u8; 33], scalar_of(5))
        .is_none());
    assert!(ServerLoginRandomness::new(vec![1u8; 64], vec![2u8; 32], vec![3u8; 32], scalar_of(5))
        .is_some());
}

#[test]
fn answer_under_given_randomness_is_determined() {
    let setup = ServerSetup::new(&mut OsRng);
    let file = registered(&setup);
    let start = ClientLogin::start(&mut OsRng, b"password").unwrap();
    let info = setup.key_material_info(b"user");
    let mut label = info.info.0.clone();
    label.extend_from_slice(&info.info.1);
    let mut material = [0u8; 32];
    hkdf::Hkdf::<sha2::Sha512>::from_prk(&info.ikm.serialize())
        .unwrap()
        .expand(&label, &mut material)
        .unwrap();

    let mut answers = Vec::new();
    for _ in 0..2 {
        let builder = ServerLogin::builder_with(
            randomness(),
            &setup,
            &material,
            Some(file.clone()),
            start.message.clone(),
            ServerLoginParameters::default(),
        )
        .unwrap();
        let shared = builder.private_key().diffie_hellman(builder.data());
        answers.push(builder.build(&shared).unwrap());
    }
    let bytes = answers[0].message.serialize();
    assert_eq!(answers[1].message.serialize(), bytes);
    assert_eq!(bytes[32..64].to_vec(), vec![2u8; 32]);
    assert_eq!(bytes[192..224].to_vec(), vec![3u8; 32]);
    assert_eq!(bytes[224..256].to_vec(), scalar_of(5).public_key().serialize());

    let client = start
        .state
        .finish(
            &mut OsRng,
            b"password",
            answers.pop().unwrap().message,
            ClientLoginFinishParameters::default(),
        )
        .unwrap();
    let server = answers
        .pop()
        .unwrap()
        .state
        .finish(client.message, ServerLoginParameters::default())
        .unwrap();
    assert_eq!(server.session_key, client.session_key);
}

#[test]
fn answer_for_an_unknown_user_masks_the_made_up_record() {
    let setup = ServerSetup::new(&mut OsRng);
    let start = ClientLogin::start(&mut OsRng, b"password").unwrap();
    let builder = ServerLogin::builder_with(
        randomness(),
        &setup,
        &[7u8; 32],
        None,
        start.message,
        ServerLoginParameters::default(),
    )
    .unwrap();
    let shared = builder.private_key().diffie_hellman(builder.data());
    let answer = builder.build(&shared).unwrap().message;
    let (pk, envelope) = opaque_ke::masking::unmask(
        &[1u8; 64],
        answer.masking_nonce(),
        answer.masked_response(),
    )
    .unwrap();
    assert_eq!(&pk, setup.public_key());
    assert_eq!(envelope.serialize(), vec![0u8; 96]);
}

#[test]
fn remote_key_handle_is_carried_through() {
    let public = PrivateKey::random(&mut OsRng).public_key();
    let setup = ServerSetup::new_with_key_pair(&mut OsRng, KeyPair::new(42u64, public.clone()));
    assert_eq!(setup.public_key(), &public);
    assert_eq!(*setup.keypair().private(), 42u64);
    let info = setup.key_material_info(b"user");
    assert_eq!(&info.ikm, setup.oprf_seed());
    let fresh = ServerSetup::new(&mut OsRng);
    assert_eq!(fresh.public_key(), &fresh.keypair().private().public_key());
    let start = ClientLogin::start(&mut OsRng, b"password").unwrap();
    let builder = ServerLogin::builder(
        &mut OsRng,
        &setup,
        None,
        start.message.clone(),
        b"user",
        ServerLoginParameters::default(),
    )
    .unwrap();
    assert_eq!(*builder.private_key(), 42u64);
    assert_eq!(builder.data(), start.message.ke1_message().client_e_pk());
}

#[test]
fn client_start_with_sends_what_it_was_given() {
    let registration =
        ClientRegistration::start_with_blind(scalar_of(1).serialize(), b"password").unwrap();
    let element = registration.message.serialize();
    let ok = ClientLogin::start_with(
        scalar_of(1).serialize(),
        b"password",
        vec![6u8; 32],
        scalar_of(9),
    )
    .unwrap();
    let mut expected = element.clone();
    expected.extend_from_slice(&[6u8; 32]);
    expected.extend_from_slice(&scalar_of(9).public_key().serialize());
    assert_eq!(ok.message.serialize(), expected);
    assert_eq!(
        ClientLogin::start_with(vec![0u8; 32], b"password", vec![6u8; 32], scalar_of(9)).err(),
        Some(ProtocolError::Blinding)
    );
    assert_eq!(
        ClientLogin::start_with(scalar_of(1).serialize(), b"password", vec![6u8; 33], scalar_of(9))
            .err(),
        Some(ProtocolError::InvalidNonce)
    );
    assert_eq!(
        ClientLogin::start_with(vec![0u8; 32], b"password", vec![6u8; 31], scalar_of(9)).err(),
        Some(ProtocolError::InvalidNonce)
    );
}

#[test]
fn identifiers_default_to_the_public_keys() {
    let ids = Identifiers { client: Some(b"Alice"), server: None };
    assert_eq!(ids.client_or(b"key"), b"Alice".to_vec());
    assert_eq!(ids.server_or(b"key"), b"key".to_vec());
    let none = Identifiers::default();
    assert!(none.client.is_none() && none.server.is_none());
    let kept = OwnedIdentifiers::from_identifiers(ids);
    assert!(kept.same_as(ids));
    assert!(!kept.same_as(none));
    assert!(!kept.same_as(Identifiers { client: Some(b"Alice"), server: Some(b"") }));
    assert!(!kept.same_as(Identifiers { client: Some(b"Alicf"), server: None }));
    assert_eq!(opaque_ke::identifiers::copy_or_empty(None), Vec::<u8>::new());
    assert_eq!(opaque_ke::identifiers::copy_or_empty(Some(b"ctx")), b"ctx".to_vec());
}

#[test]
fn default_parameters_are_empty() {
    let server = ServerLoginParameters::default();
    assert!(server.context.is_none());
    assert!(server.identifiers.client.is_none());
    let client = ClientLoginFinishParameters::default();
    assert!(client.context.is_none() && client.ksf.is_none());
    let registration = ClientRegistrationFinishParameters::default();
    assert!(registration.ksf.is_none() && registration.identifiers.server.is_none());
}
