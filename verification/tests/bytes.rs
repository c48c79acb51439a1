use opaque_ke::bytes::{
    join, copy_of, cut, frame, length_byte, length_bytes, same_bytes, xor, zero_bytes,
};
use opaque_ke::labels::{
    auth_key_label, client_mac_label, credential_response_pad_label, derive_dh_key_pair_label,
    derive_key_pair_label, export_key_label, handshake_secret_label, masking_key_label,
    oprf_key_label, prefix_label, private_key_label, protocol_label, server_mac_label,
    session_key_label,
};

#[test]
fn concat_joins_in_order() {
    assert_eq!(join(&[1, 2], &[3]), vec![1, 2, 3]);
    assert_eq!(join(&[], &[]), Vec::<u8>::new());
    assert_eq!(copy_of(&[9, 8]), vec![9, 8]);
}

#[test]
fn cut_takes_the_half_open_range() {
    assert_eq!(cut(&[1, 2, 3, 4], 1, 3), vec![2, 3]);
    assert_eq!(cut(&[1, 2, 3, 4], 4, 4), Vec::<u8>::new());
    assert_eq!(cut(&[1, 2, 3, 4], 0, 4), vec![1, 2, 3, 4]);
}

#[test]
fn zero_bytes_are_zero() {
    assert_eq!(zero_bytes(3), vec![0, 0, 0]);
    assert_eq!(zero_bytes(0), Vec::<u8>::new());
}

#[test]
fn xor_combines_bytewise() {
    assert_eq!(xor(&[0x0f, 0xff], &[0xf0, 0x0f, 0x55]), vec![0xff, 0xf0]);
    let a = [1u8, 2, 3, 4];
    let pad = [9u8, 8, 7, 6];
    assert_eq!(xor(&xor(&a, &pad), &pad), a.to_vec());
}

#[test]
fn lengths_are_big_endian() {
    assert_eq!(length_bytes(0x1234), vec![0x12, 0x34]);
    assert_eq!(length_bytes(0), vec![0, 0]);
    assert_eq!(length_bytes(0xffff), vec![0xff, 0xff]);
    assert_eq!(length_byte(0xab), vec![0xab]);
    assert_eq!(frame(b"abc"), vec![0, 3, b'a', b'b', b'c']);
    assert_eq!(frame(b""), vec![0, 0]);
}

#[test]
fn same_bytes_compares_length_and_content() {
    assert!(same_bytes(b"abc", b"abc"));
    assert!(same_bytes(b"", b""));
    assert!(!same_bytes(b"abc", b"abd"));
    assert!(!same_bytes(b"abc", b"ab"));
    assert!(!same_bytes(b"", b"a"));
}

#[test]
fn labels_spell_their_names() {
    assert_eq!(auth_key_label(), b"AuthKey".to_vec());
    assert_eq!(export_key_label(), b"ExportKey".to_vec());
    assert_eq!(private_key_label(), b"PrivateKey".to_vec());
    assert_eq!(masking_key_label(), b"MaskingKey".to_vec());
    assert_eq!(credential_response_pad_label(), b"CredentialResponsePad".to_vec());
    assert_eq!(oprf_key_label(), b"OprfKey".to_vec());
    assert_eq!(derive_key_pair_label(), b"OPAQUE-DeriveKeyPair".to_vec());
    assert_eq!(derive_dh_key_pair_label(), b"OPAQUE-DeriveDiffieHellmanKeyPair".to_vec());
    assert_eq!(protocol_label(), b"OPAQUEv1-".to_vec());
    assert_eq!(prefix_label(), b"OPAQUE-".to_vec());
    assert_eq!(handshake_secret_label(), b"HandshakeSecret".to_vec());
    assert_eq!(session_key_label(), b"SessionKey".to_vec());
    assert_eq!(server_mac_label(), b"ServerMAC".to_vec());
    assert_eq!(client_mac_label(), b"ClientMAC".to_vec());
}
