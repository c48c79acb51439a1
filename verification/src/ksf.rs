//! The key-stretching function that the client applies to the output of the
//! oblivious function.

use vstd::prelude::*;
use crate::errors::ProtocolError;

verus! {

/// A key-stretching function. It gives back as many bytes as it was given,
/// or reports that its parameters or resources do not allow it.
pub trait Ksf {
    /// What the function gives for `input`, or `None` where it refuses. A
    /// verified implementation states it. One written outside verified code
    /// cannot, and leaves this body: some function of the implementation and
    /// the input of which nothing else is known. That its `hash` is such a
    /// function is then taken on trust.
    open spec fn stretched(&self, input: Seq<u8>) -> Option<Seq<u8>> {
        arbitrary::<spec_fn(&Self, Seq<u8>) -> Option<Seq<u8>>>()(self, input)
    }

    /// Stretches `input`.
    fn hash(&self, input: Vec<u8>) -> (out: Result<Vec<u8>, ProtocolError>)
        ensures
            match out {
                Ok(o) => self.stretched(input@) == Some(o@) && o@.len() == input@.len(),
                Err(e) => self.stretched(input@) is None && e == ProtocolError::KsfError,
            },
    ;
}

/// The function that gives its input back. It stretches nothing and is
/// meant for tests.
#[derive(Clone, Copy, Debug, Default)]
pub struct Identity;

impl Ksf for Identity {
    open spec fn stretched(&self, input: Seq<u8>) -> Option<Seq<u8>> {
        Some(input)
    }

    fn hash(&self, input: Vec<u8>) -> (out: Result<Vec<u8>, ProtocolError>) {
        Ok(input)
    }
}

} // verus!
