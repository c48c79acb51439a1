//! Secret bytes that are overwritten when they go out of use.

use vstd::prelude::*;
use crate::hash::ct_eq;

verus! {

/// Secret bytes in the holder of the `zeroize` crate, `Zeroizing`, which
/// overwrites what it holds when it is dropped. Two secrets are compared in
/// time that depends on their lengths alone.
#[verifier::external_body]
#[derive(Debug, Eq)]
pub struct Secret {
    bytes: zeroize::Zeroizing<Vec<u8>>,
}

impl PartialEq for Secret {
    fn eq(&self, other: &Self) -> (same: bool) {
        let a = expose(self);
        let b = expose(other);
        a.len() == b.len() && ct_eq(a, b)
    }
}

impl vstd::std_specs::cmp::PartialEqSpecImpl for Secret {
    open spec fn obeys_eq_spec() -> bool {
        true
    }

    open spec fn eq_spec(&self, other: &Self) -> bool {
        held(*self) == held(*other)
    }
}

/// The bytes that a holder holds.
pub uninterp spec fn held(secret: Secret) -> Seq<u8>;

/// Calls `zeroize::Zeroizing::new`, which moves the bytes into a holder
/// that overwrites them when it is dropped.
#[verifier::external_body]
pub(crate) fn guard(bytes: Vec<u8>) -> (out: Secret)
    ensures
        held(out) == bytes@,
{
    Secret { bytes: zeroize::Zeroizing::new(bytes) }
}

/// Borrows what a holder holds, through the `Deref` of `Zeroizing`.
#[verifier::external_body]
pub(crate) fn expose(secret: &Secret) -> (out: &[u8])
    ensures
        out@ == held(*secret),
{
    secret.bytes.as_slice()
}

/// Calls the `Clone` of `Zeroizing`, which copies what the holder holds
/// into a holder of its own.
#[verifier::external_body]
pub(crate) fn duplicate(secret: &Secret) -> (out: Secret)
    ensures
        held(out) == held(*secret),
{
    Secret { bytes: secret.bytes.clone() }
}

} // verus!
