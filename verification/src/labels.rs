//! The fixed labels that separate the uses of the key derivation. Each is
//! the ASCII text of its name.

use vstd::prelude::*;
use vstd::slice::slice_to_vec;

verus! {

/// The label `AuthKey`: the key that authenticates an envelope.
pub open spec fn label_auth_key() -> Seq<u8> {
    seq![
        0x41u8, 0x75u8, 0x74u8, 0x68u8, 0x4bu8, 0x65u8, 0x79u8,
    ]
}

/// The bytes of the label `AuthKey`.
pub fn auth_key_label() -> (out: Vec<u8>)
    ensures
        out@ == label_auth_key(),
        out@.len() == 7,
{
    let a: [u8; 7] = [
        0x41, 0x75, 0x74, 0x68, 0x4b, 0x65, 0x79,
    ];
    let out = slice_to_vec(a.as_slice());
    assert(out@ =~= label_auth_key());
    out
}

/// The label `ExportKey`: the key that the client exports.
pub open spec fn label_export_key() -> Seq<u8> {
    seq![
        0x45u8, 0x78u8, 0x70u8, 0x6fu8, 0x72u8, 0x74u8, 0x4bu8, 0x65u8,
        0x79u8,
    ]
}

/// The bytes of the label `ExportKey`.
pub fn export_key_label() -> (out: Vec<u8>)
    ensures
        out@ == label_export_key(),
        out@.len() == 9,
{
    let a: [u8; 9] = [
        0x45, 0x78, 0x70, 0x6f, 0x72, 0x74, 0x4b, 0x65,
        0x79,
    ];
    let out = slice_to_vec(a.as_slice());
    assert(out@ =~= label_export_key());
    out
}

/// The label `PrivateKey`: the seed of the client's private key.
pub open spec fn label_private_key() -> Seq<u8> {
    seq![
        0x50u8, 0x72u8, 0x69u8, 0x76u8, 0x61u8, 0x74u8, 0x65u8, 0x4bu8,
        0x65u8, 0x79u8,
    ]
}

/// The bytes of the label `PrivateKey`.
pub fn private_key_label() -> (out: Vec<u8>)
    ensures
        out@ == label_private_key(),
        out@.len() == 10,
{
    let a: [u8; 10] = [
        0x50, 0x72, 0x69, 0x76, 0x61, 0x74, 0x65, 0x4b,
        0x65, 0x79,
    ];
    let out = slice_to_vec(a.as_slice());
    assert(out@ =~= label_private_key());
    out
}

/// The label `MaskingKey`: the key that masks a login answer.
pub open spec fn label_masking_key() -> Seq<u8> {
    seq![
        0x4du8, 0x61u8, 0x73u8, 0x6bu8, 0x69u8, 0x6eu8, 0x67u8, 0x4bu8,
        0x65u8, 0x79u8,
    ]
}

/// The bytes of the label `MaskingKey`.
pub fn masking_key_label() -> (out: Vec<u8>)
    ensures
        out@ == label_masking_key(),
        out@.len() == 10,
{
    let a: [u8; 10] = [
        0x4d, 0x61, 0x73, 0x6b, 0x69, 0x6e, 0x67, 0x4b,
        0x65, 0x79,
    ];
    let out = slice_to_vec(a.as_slice());
    assert(out@ =~= label_masking_key());
    out
}

/// The label `CredentialResponsePad`: the pad that masks a login answer.
pub open spec fn label_credential_response_pad() -> Seq<u8> {
    seq![
        0x43u8, 0x72u8, 0x65u8, 0x64u8, 0x65u8, 0x6eu8, 0x74u8, 0x69u8,
        0x61u8, 0x6cu8, 0x52u8, 0x65u8, 0x73u8, 0x70u8, 0x6fu8, 0x6eu8,
        0x73u8, 0x65u8, 0x50u8, 0x61u8, 0x64u8,
    ]
}

/// The bytes of the label `CredentialResponsePad`.
pub fn credential_response_pad_label() -> (out: Vec<u8>)
    ensures
        out@ == label_credential_response_pad(),
        out@.len() == 21,
{
    let a: [u8; 21] = [
        0x43, 0x72, 0x65, 0x64, 0x65, 0x6e, 0x74, 0x69,
        0x61, 0x6c, 0x52, 0x65, 0x73, 0x70, 0x6f, 0x6e,
        0x73, 0x65, 0x50, 0x61, 0x64,
    ];
    let out = slice_to_vec(a.as_slice());
    assert(out@ =~= label_credential_response_pad());
    out
}

/// The label `OprfKey`: the seed of a user's key of the oblivious function.
pub open spec fn label_oprf_key() -> Seq<u8> {
    seq![
        0x4fu8, 0x70u8, 0x72u8, 0x66u8, 0x4bu8, 0x65u8, 0x79u8,
    ]
}

/// The bytes of the label `OprfKey`.
pub fn oprf_key_label() -> (out: Vec<u8>)
    ensures
        out@ == label_oprf_key(),
        out@.len() == 7,
{
    let a: [u8; 7] = [
        0x4f, 0x70, 0x72, 0x66, 0x4b, 0x65, 0x79,
    ];
    let out = slice_to_vec(a.as_slice());
    assert(out@ =~= label_oprf_key());
    out
}

/// The label `OPAQUE-DeriveKeyPair`: a user's key of the oblivious function.
pub open spec fn label_derive_key_pair() -> Seq<u8> {
    seq![
        0x4fu8, 0x50u8, 0x41u8, 0x51u8, 0x55u8, 0x45u8, 0x2du8, 0x44u8,
        0x65u8, 0x72u8, 0x69u8, 0x76u8, 0x65u8, 0x4bu8, 0x65u8, 0x79u8,
        0x50u8, 0x61u8, 0x69u8, 0x72u8,
    ]
}

/// The bytes of the label `OPAQUE-DeriveKeyPair`.
pub fn derive_key_pair_label() -> (out: Vec<u8>)
    ensures
        out@ == label_derive_key_pair(),
        out@.len() == 20,
{
    let a: [u8; 20] = [
        0x4f, 0x50, 0x41, 0x51, 0x55, 0x45, 0x2d, 0x44,
        0x65, 0x72, 0x69, 0x76, 0x65, 0x4b, 0x65, 0x79,
        0x50, 0x61, 0x69, 0x72,
    ];
    let out = slice_to_vec(a.as_slice());
    assert(out@ =~= label_derive_key_pair());
    out
}

/// The label `OPAQUE-DeriveDiffieHellmanKeyPair`: the client's key pair.
pub open spec fn label_derive_dh_key_pair() -> Seq<u8> {
    seq![
        0x4fu8, 0x50u8, 0x41u8, 0x51u8, 0x55u8, 0x45u8, 0x2du8, 0x44u8,
        0x65u8, 0x72u8, 0x69u8, 0x76u8, 0x65u8, 0x44u8, 0x69u8, 0x66u8,
        0x66u8, 0x69u8, 0x65u8, 0x48u8, 0x65u8, 0x6cu8, 0x6cu8, 0x6du8,
        0x61u8, 0x6eu8, 0x4bu8, 0x65u8, 0x79u8, 0x50u8, 0x61u8, 0x69u8,
        0x72u8,
    ]
}

/// The bytes of the label `OPAQUE-DeriveDiffieHellmanKeyPair`.
pub fn derive_dh_key_pair_label() -> (out: Vec<u8>)
    ensures
        out@ == label_derive_dh_key_pair(),
        out@.len() == 33,
{
    let a: [u8; 33] = [
        0x4f, 0x50, 0x41, 0x51, 0x55, 0x45, 0x2d, 0x44,
        0x65, 0x72, 0x69, 0x76, 0x65, 0x44, 0x69, 0x66,
        0x66, 0x69, 0x65, 0x48, 0x65, 0x6c, 0x6c, 0x6d,
        0x61, 0x6e, 0x4b, 0x65, 0x79, 0x50, 0x61, 0x69,
        0x72,
    ];
    let out = slice_to_vec(a.as_slice());
    assert(out@ =~= label_derive_dh_key_pair());
    out
}

/// The label `OPAQUEv1-`: the head of the key exchange's transcript.
pub open spec fn label_protocol() -> Seq<u8> {
    seq![
        0x4fu8, 0x50u8, 0x41u8, 0x51u8, 0x55u8, 0x45u8, 0x76u8, 0x31u8,
        0x2du8,
    ]
}

/// The bytes of the label `OPAQUEv1-`.
pub fn protocol_label() -> (out: Vec<u8>)
    ensures
        out@ == label_protocol(),
        out@.len() == 9,
{
    let a: [u8; 9] = [
        0x4f, 0x50, 0x41, 0x51, 0x55, 0x45, 0x76, 0x31,
        0x2d,
    ];
    let out = slice_to_vec(a.as_slice());
    assert(out@ =~= label_protocol());
    out
}

/// The label `OPAQUE-`: the head of every label of the key schedule.
pub open spec fn label_prefix() -> Seq<u8> {
    seq![
        0x4fu8, 0x50u8, 0x41u8, 0x51u8, 0x55u8, 0x45u8, 0x2du8,
    ]
}

/// The bytes of the label `OPAQUE-`.
pub fn prefix_label() -> (out: Vec<u8>)
    ensures
        out@ == label_prefix(),
        out@.len() == 7,
{
    let a: [u8; 7] = [
        0x4f, 0x50, 0x41, 0x51, 0x55, 0x45, 0x2d,
    ];
    let out = slice_to_vec(a.as_slice());
    assert(out@ =~= label_prefix());
    out
}

/// The label `HandshakeSecret`: the secret behind both tags of the key exchange.
pub open spec fn label_handshake_secret() -> Seq<u8> {
    seq![
        0x48u8, 0x61u8, 0x6eu8, 0x64u8, 0x73u8, 0x68u8, 0x61u8, 0x6bu8,
        0x65u8, 0x53u8, 0x65u8, 0x63u8, 0x72u8, 0x65u8, 0x74u8,
    ]
}

/// The bytes of the label `HandshakeSecret`.
pub fn handshake_secret_label() -> (out: Vec<u8>)
    ensures
        out@ == label_handshake_secret(),
        out@.len() == 15,
{
    let a: [u8; 15] = [
        0x48, 0x61, 0x6e, 0x64, 0x73, 0x68, 0x61, 0x6b,
        0x65, 0x53, 0x65, 0x63, 0x72, 0x65, 0x74,
    ];
    let out = slice_to_vec(a.as_slice());
    assert(out@ =~= label_handshake_secret());
    out
}

/// The label `SessionKey`: the session key.
pub open spec fn label_session_key() -> Seq<u8> {
    seq![
        0x53u8, 0x65u8, 0x73u8, 0x73u8, 0x69u8, 0x6fu8, 0x6eu8, 0x4bu8,
        0x65u8, 0x79u8,
    ]
}

/// The bytes of the label `SessionKey`.
pub fn session_key_label() -> (out: Vec<u8>)
    ensures
        out@ == label_session_key(),
        out@.len() == 10,
{
    let a: [u8; 10] = [
        0x53, 0x65, 0x73, 0x73, 0x69, 0x6f, 0x6e, 0x4b,
        0x65, 0x79,
    ];
    let out = slice_to_vec(a.as_slice());
    assert(out@ =~= label_session_key());
    out
}

/// The label `ServerMAC`: the key of the server's tag.
pub open spec fn label_server_mac() -> Seq<u8> {
    seq![
        0x53u8, 0x65u8, 0x72u8, 0x76u8, 0x65u8, 0x72u8, 0x4du8, 0x41u8,
        0x43u8,
    ]
}

/// The bytes of the label `ServerMAC`.
pub fn server_mac_label() -> (out: Vec<u8>)
    ensures
        out@ == label_server_mac(),
        out@.len() == 9,
{
    let a: [u8; 9] = [
        0x53, 0x65, 0x72, 0x76, 0x65, 0x72, 0x4d, 0x41,
        0x43,
    ];
    let out = slice_to_vec(a.as_slice());
    assert(out@ =~= label_server_mac());
    out
}

/// The label `ClientMAC`: the key of the client's tag.
pub open spec fn label_client_mac() -> Seq<u8> {
    seq![
        0x43u8, 0x6cu8, 0x69u8, 0x65u8, 0x6eu8, 0x74u8, 0x4du8, 0x41u8,
        0x43u8,
    ]
}

/// The bytes of the label `ClientMAC`.
pub fn client_mac_label() -> (out: Vec<u8>)
    ensures
        out@ == label_client_mac(),
        out@.len() == 9,
{
    let a: [u8; 9] = [
        0x43, 0x6c, 0x69, 0x65, 0x6e, 0x74, 0x4d, 0x41,
        0x43,
    ];
    let out = slice_to_vec(a.as_slice());
    assert(out@ =~= label_client_mac());
    out
}

} // verus!
