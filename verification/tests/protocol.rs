use opaque_ke::errors::ProtocolError;
use opaque_ke::ksf::Identity;
use opaque_ke::{
    ClientLogin, ClientLoginFinishParameters, ClientLoginFinishResult, ClientRegistration,
    ClientRegistrationFinishParameters, ClientRegistrationFinishResult, CredentialResponse,
    Identifiers, ServerLogin, ServerLoginParameters, ServerLoginStartResult, ServerRegistration,
    ServerSetup,
};
use rand::rngs::{OsRng, StdRng};
use rand::SeedableRng;

const PASSWORD: &[u8] = b"correct horse";
const CREDENTIAL_ID: &[u8] = b"alice@example.com";

fn no_ids() -> Identifiers<'static> {
    Identifiers { client: None, server: None }
}

fn named_ids() -> Identifiers<'static> {
    Identifiers { client: Some(b"Alice"), server: Some(b"Facebook") }
}

fn register(
    setup: &ServerSetup,
    password: &[u8],
    ids: Identifiers,
) -> (ServerRegistration, ClientRegistrationFinishResult) {
    let mut rng = OsRng;
    let start = ClientRegistration::start(&mut rng, password).unwrap();
    let response = ServerRegistration::start(setup, start.message, CREDENTIAL_ID).unwrap();
    let finish = start
        .state
        .finish(
            &mut rng,
            password,
            response.message,
            ClientRegistrationFinishParameters::<Identity>::new(ids, None),
        )
        .unwrap();
    let file = ServerRegistration::finish(finish.message.clone());
    (file, finish)
}

fn login(
    setup: &ServerSetup,
    file: Option<ServerRegistration>,
    password: &[u8],
    credential_id: &[u8],
    server_ids: Identifiers,
    client_ids: Identifiers,
    context: Option<&[u8]>,
) -> (ServerLoginStartResult, Vec<u8>, Result<ClientLoginFinishResult, ProtocolError>) {
    let mut rng = OsRng;
    let start = ClientLogin::start(&mut rng, password).unwrap();
    let server = ServerLogin::start(
        &mut rng,
        setup,
        file,
        start.message,
        credential_id,
        ServerLoginParameters { context, identifiers: server_ids },
    )
    .unwrap();
    let response_bytes = server.message.serialize();
    let response = CredentialResponse::deserialize(&response_bytes).unwrap();
    let client = start.state.finish(
        &mut rng,
        password,
        response,
        ClientLoginFinishParameters::<Identity>::new(context, client_ids, None),
    );
    (server, response_bytes, client)
}

#[test]
fn register_then_login_agrees_on_session_key() {
    let setup = ServerSetup::new(&mut OsRng);
    let (file, registered) = register(&setup, PASSWORD, no_ids());
    let (server, _, client) =
        login(&setup, Some(file), PASSWORD, CREDENTIAL_ID, no_ids(), no_ids(), None);
    let client = client.unwrap();
    let finished = server
        .state
        .finish(client.message, ServerLoginParameters::default())
        .unwrap();
    assert_eq!(client.session_key, finished.session_key);
    assert_eq!(client.session_key.len(), 64);
    assert_eq!(client.export_key, registered.export_key);
    assert_eq!(client.export_key.len(), 64);
    assert_eq!(client.server_s_pk, registered.server_s_pk);
    assert_eq!(&client.server_s_pk, setup.public_key());
}

#[test]
fn login_with_other_password_is_invalid() {
    let setup = ServerSetup::new(&mut OsRng);
    let (file, _) = register(&setup, PASSWORD, no_ids());
    let (_, _, client) = login(
        &setup,
        Some(file),
        b"correcthorse ",
        CREDENTIAL_ID,
        no_ids(),
        no_ids(),
        None,
    );
    assert_eq!(client.err(), Some(ProtocolError::InvalidLogin));
}

#[test]
fn login_with_identifiers_agrees_on_session_key() {
    let setup = ServerSetup::new(&mut OsRng);
    let (file, _) = register(&setup, PASSWORD, named_ids());
    let (server, _, client) =
        login(&setup, Some(file), PASSWORD, CREDENTIAL_ID, named_ids(), named_ids(), None);
    let client = client.unwrap();
    let finished = server
        .state
        .finish(
            client.message,
            ServerLoginParameters { context: None, identifiers: named_ids() },
        )
        .unwrap();
    assert_eq!(client.session_key, finished.session_key);
}

#[test]
fn login_without_the_registered_identifiers_is_invalid() {
    let setup = ServerSetup::new(&mut OsRng);
    let (file, _) = register(&setup, PASSWORD, named_ids());
    let (_, _, client) =
        login(&setup, Some(file), PASSWORD, CREDENTIAL_ID, named_ids(), no_ids(), None);
    assert_eq!(client.err(), Some(ProtocolError::InvalidLogin));
}

#[test]
fn login_with_one_other_identifier_is_invalid() {
    let setup = ServerSetup::new(&mut OsRng);
    let (file, _) = register(&setup, PASSWORD, named_ids());
    let other = Identifiers { client: Some(b"Alice"), server: Some(b"Facebooc") };
    let (_, _, client) =
        login(&setup, Some(file), PASSWORD, CREDENTIAL_ID, named_ids(), other, None);
    assert_eq!(client.err(), Some(ProtocolError::InvalidLogin));
}

#[test]
fn login_with_other_context_is_invalid_on_the_client() {
    let setup = ServerSetup::new(&mut OsRng);
    let (file, _) = register(&setup, PASSWORD, no_ids());
    let mut rng = OsRng;
    let start = ClientLogin::start(&mut rng, PASSWORD).unwrap();
    let server = ServerLogin::start(
        &mut rng,
        &setup,
        Some(file),
        start.message,
        CREDENTIAL_ID,
        ServerLoginParameters { context: Some(b"one"), identifiers: no_ids() },
    )
    .unwrap();
    let client = start.state.finish(
        &mut rng,
        PASSWORD,
        server.message,
        ClientLoginFinishParameters::<Identity>::new(Some(b"two"), no_ids(), None),
    );
    assert_eq!(client.err(), Some(ProtocolError::InvalidLogin));
}

#[test]
fn login_with_other_context_is_invalid_on_the_server() {
    let setup = ServerSetup::new(&mut OsRng);
    let (file, _) = register(&setup, PASSWORD, no_ids());
    let (server, _, client) = login(
        &setup,
        Some(file),
        PASSWORD,
        CREDENTIAL_ID,
        no_ids(),
        no_ids(),
        Some(b"one"),
    );
    let client = client.unwrap();
    let finished = server.state.finish(
        client.message,
        ServerLoginParameters { context: Some(b"two"), identifiers: no_ids() },
    );
    assert_eq!(finished.err(), Some(ProtocolError::InvalidLogin));
}

#[test]
fn login_with_same_context_agrees() {
    let setup = ServerSetup::new(&mut OsRng);
    let (file, _) = register(&setup, PASSWORD, no_ids());
    let (server, _, client) = login(
        &setup,
        Some(file),
        PASSWORD,
        CREDENTIAL_ID,
        no_ids(),
        no_ids(),
        Some(b"one"),
    );
    let client = client.unwrap();
    let finished = server
        .state
        .finish(
            client.message,
            ServerLoginParameters { context: Some(b"one"), identifiers: no_ids() },
        )
        .unwrap();
    assert_eq!(client.session_key, finished.session_key);
}

#[test]
fn login_of_unknown_user_looks_the_same_and_fails() {
    let setup = ServerSetup::new(&mut OsRng);
    let (file, _) = register(&setup, PASSWORD, no_ids());
    let (_, known, _) =
        login(&setup, Some(file), PASSWORD, CREDENTIAL_ID, no_ids(), no_ids(), None);
    let (_, unknown, client) =
        login(&setup, None, PASSWORD, b"ghost@example.com", no_ids(), no_ids(), None);
    assert_eq!(unknown.len(), known.len());
    assert_eq!(unknown.len(), 320);
    assert_eq!(client.err(), Some(ProtocolError::InvalidLogin));
}

#[test]
fn builder_path_gives_the_same_bytes_as_start() {
    let setup = ServerSetup::new(&mut OsRng);
    let (file, _) = register(&setup, PASSWORD, no_ids());
    let start = ClientLogin::start(&mut OsRng, PASSWORD).unwrap();
    let client_e_pk = start.message.ke1_message().client_e_pk().clone();

    let mut rng = StdRng::seed_from_u64(7);
    let direct = ServerLogin::start(
        &mut rng,
        &setup,
        Some(file.clone()),
        start.message.clone(),
        CREDENTIAL_ID,
        ServerLoginParameters::default(),
    )
    .unwrap();

    let mut rng = StdRng::seed_from_u64(7);
    let builder = ServerLogin::builder(
        &mut rng,
        &setup,
        Some(file),
        start.message.clone(),
        CREDENTIAL_ID,
        ServerLoginParameters::default(),
    )
    .unwrap();
    assert_eq!(builder.data().serialize(), client_e_pk.serialize());
    let shared = builder.private_key().diffie_hellman(builder.data());
    let built = builder.build(&shared).unwrap();
    assert_eq!(built.message.serialize(), direct.message.serialize());

    let client = start
        .state
        .finish(
            &mut OsRng,
            PASSWORD,
            built.message,
            ClientLoginFinishParameters::default(),
        )
        .unwrap();
    let finished = built
        .state
        .finish(client.message.clone(), ServerLoginParameters::default())
        .unwrap();
    let finished_direct = direct
        .state
        .finish(client.message, ServerLoginParameters::default())
        .unwrap();
    assert_eq!(finished.session_key, client.session_key);
    assert_eq!(finished_direct.session_key, client.session_key);
}

#[test]
fn builder_refuses_a_shared_secret_of_the_wrong_length() {
    let setup = ServerSetup::new(&mut OsRng);
    let start = ClientLogin::start(&mut OsRng, PASSWORD).unwrap();
    let builder = ServerLogin::builder(
        &mut OsRng,
        &setup,
        None,
        start.message,
        CREDENTIAL_ID,
        ServerLoginParameters::default(),
    )
    .unwrap();
    assert_eq!(
        builder.build(&[1u8; 31]).err(),
        Some(ProtocolError::IncompatibleEnvironmentForRemoteKey)
    );
}

#[test]
fn remote_seed_path_agrees_with_local_seed() {
    let setup = ServerSetup::new(&mut OsRng);
    let start = ClientRegistration::start(&mut OsRng, PASSWORD).unwrap();
    let info = setup.key_material_info(CREDENTIAL_ID);
    assert_eq!(info.info.0, CREDENTIAL_ID.to_vec());
    assert_eq!(info.info.1, b"OprfKey".to_vec());
    let mut label = info.info.0.clone();
    label.extend_from_slice(&info.info.1);
    let mut material = [0u8; 32];
    hkdf::Hkdf::<sha2::Sha512>::from_prk(&info.ikm.serialize())
        .unwrap()
        .expand(&label, &mut material)
        .unwrap();
    let remote =
        ServerRegistration::start_with_key_material(&setup, &material, start.message.clone())
            .unwrap();
    let local = ServerRegistration::start(&setup, start.message, CREDENTIAL_ID).unwrap();
    assert_eq!(remote.message, local.message);
}

#[test]
fn server_finish_refuses_a_wrong_tag() {
    let setup = ServerSetup::new(&mut OsRng);
    let (file, _) = register(&setup, PASSWORD, no_ids());
    let (server, _, client) =
        login(&setup, Some(file), PASSWORD, CREDENTIAL_ID, no_ids(), no_ids(), None);
    let mut tag = client.unwrap().message.serialize();
    tag[0] ^= 1;
    let forged = opaque_ke::CredentialFinalization::deserialize(&tag).unwrap();
    assert_eq!(
        server.state.finish(forged, ServerLoginParameters::default()).err(),
        Some(ProtocolError::InvalidLogin)
    );
}

#[test]
fn reflected_evaluation_is_refused() {
    let setup = ServerSetup::new(&mut OsRng);
    let start = ClientRegistration::start(&mut OsRng, PASSWORD).unwrap();
    let blinded = start.message.get_blinded_element_for_testing();
    let response = ServerRegistration::start(&setup, start.message, CREDENTIAL_ID).unwrap();
    let reflected = response
        .message
        .set_evaluation_element_for_testing(&blinded)
        .unwrap();
    let finish = start.state.finish(
        &mut OsRng,
        PASSWORD,
        reflected,
        ClientRegistrationFinishParameters::default(),
    );
    assert_eq!(finish.err(), Some(ProtocolError::ReflectionError));
}

#[test]
fn password_longer_than_the_oblivious_function_frames_is_refused() {
    let setup = ServerSetup::new(&mut OsRng);
    let long = vec![0x61u8; 0x10000];
    let start = ClientRegistration::start(&mut OsRng, &long).unwrap();
    let response = ServerRegistration::start(&setup, start.message, CREDENTIAL_ID).unwrap();
    let finish = start.state.finish(
        &mut OsRng,
        &long,
        response.message,
        ClientRegistrationFinishParameters::default(),
    );
    assert_eq!(finish.err(), Some(ProtocolError::Blinding));
}

#[test]
fn context_too_long_to_frame_is_refused() {
    let setup = ServerSetup::new(&mut OsRng);
    let start = ClientLogin::start(&mut OsRng, PASSWORD).unwrap();
    let long = vec![0u8; 0x10000];
    let server = ServerLogin::start(
        &mut OsRng,
        &setup,
        None,
        start.message,
        CREDENTIAL_ID,
        ServerLoginParameters { context: Some(&long), identifiers: no_ids() },
    );
    assert_eq!(server.err(), Some(ProtocolError::SerializationError));
}

#[test]
fn server_setup_round_trip() {
    let setup = ServerSetup::new(&mut OsRng);
    let bytes = setup.serialize();
    assert_eq!(bytes.len(), 160);
    let again = ServerSetup::deserialize(&bytes).unwrap();
    assert_eq!(again, setup);
    assert_eq!(again.serialize(), bytes);
    assert_eq!(
        ServerSetup::deserialize(&bytes[..159]).err(),
        Some(ProtocolError::InvalidByteSequence)
    );
}

#[test]
fn password_file_round_trip() {
    let setup = ServerSetup::new(&mut OsRng);
    let (file, _) = register(&setup, PASSWORD, no_ids());
    let bytes = file.serialize();
    assert_eq!(bytes.len(), 192);
    assert_eq!(ServerRegistration::deserialize(&bytes).unwrap(), file);
}
