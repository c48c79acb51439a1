//! The names that client and server may bind into a registration and a
//! login.

use vstd::prelude::*;
use crate::bytes::{copy_of, same_bytes};

verus! {

/// What a pair of identifiers holds.
pub struct IdentifiersView {
    /// The client's name, where one is given.
    pub client: Option<Seq<u8>>,
    /// The server's name, where one is given.
    pub server: Option<Seq<u8>>,
}

impl IdentifiersView {
    /// The client's name, or the client's public key where none is given.
    pub open spec fn client_or(self, client_s_pk: Seq<u8>) -> Seq<u8> {
        match self.client {
            Some(c) => c,
            None => client_s_pk,
        }
    }

    /// The server's name, or the server's public key where none is given.
    pub open spec fn server_or(self, server_s_pk: Seq<u8>) -> Seq<u8> {
        match self.server {
            Some(s) => s,
            None => server_s_pk,
        }
    }
}

/// Optional names of the client and the server. They must be the same at
/// the end of a registration and at every step of a login.
#[derive(Clone, Copy, Debug)]
pub struct Identifiers<'a> {
    /// Client identifier
    pub client: Option<&'a [u8]>,
    /// Server identifier
    pub server: Option<&'a [u8]>,
}

impl<'a> View for Identifiers<'a> {
    type V = IdentifiersView;

    open spec fn view(&self) -> IdentifiersView {
        IdentifiersView {
            client: match self.client {
                Some(c) => Some(c@),
                None => None,
            },
            server: match self.server {
                Some(s) => Some(s@),
                None => None,
            },
        }
    }
}

impl<'a> Default for Identifiers<'a> {
    fn default() -> (out: Self)
        ensures
            out@ == (IdentifiersView { client: None, server: None }),
    {
        Identifiers { client: None, server: None }
    }
}

impl<'a> Identifiers<'a> {
    /// The client's name as bytes, or the client's public key where no name
    /// is given.
    pub fn client_or(&self, client_s_pk: &[u8]) -> (out: Vec<u8>)
        ensures
            out@ == self@.client_or(client_s_pk@),
    {
        match self.client {
            Some(c) => copy_of(c),
            None => copy_of(client_s_pk),
        }
    }

    /// The server's name as bytes, or the server's public key where no name
    /// is given.
    pub fn server_or(&self, server_s_pk: &[u8]) -> (out: Vec<u8>)
        ensures
            out@ == self@.server_or(server_s_pk@),
    {
        match self.server {
            Some(s) => copy_of(s),
            None => copy_of(server_s_pk),
        }
    }
}

/// The bytes of an optional context or name: none is the empty string.
pub open spec fn bytes_or_empty(o: Option<&[u8]>) -> Seq<u8> {
    match o {
        Some(b) => b@,
        None => Seq::empty(),
    }
}

/// A copy of an optional context or name, with none as the empty string.
pub fn copy_or_empty(o: Option<&[u8]>) -> (out: Vec<u8>)
    ensures
        out@ == bytes_or_empty(o),
{
    match o {
        Some(b) => copy_of(b),
        None => {
            let out: Vec<u8> = Vec::new();
            assert(out@ =~= Seq::<u8>::empty());
            out
        },
    }
}

/// Identifiers that a state keeps from one step of a login to the next.
#[derive(Debug)]
pub struct OwnedIdentifiers {
    pub(crate) client: Option<Vec<u8>>,
    pub(crate) server: Option<Vec<u8>>,
}

impl View for OwnedIdentifiers {
    type V = IdentifiersView;

    closed spec fn view(&self) -> IdentifiersView {
        IdentifiersView {
            client: match self.client {
                Some(c) => Some(c@),
                None => None,
            },
            server: match self.server {
                Some(s) => Some(s@),
                None => None,
            },
        }
    }
}

/// A copy of an optional name.
fn own(o: Option<&[u8]>) -> (out: Option<Vec<u8>>)
    ensures
        match o {
            Some(b) => out is Some && out->Some_0@ == b@,
            None => out is None,
        },
{
    match o {
        Some(b) => Some(copy_of(b)),
        None => None,
    }
}

/// Whether a kept name and a given one are the same.
fn same_name(kept: &Option<Vec<u8>>, given: Option<&[u8]>) -> (same: bool)
    ensures
        same == match (*kept, given) {
            (Some(k), Some(g)) => k@ == g@,
            (None, None) => true,
            _ => false,
        },
{
    match kept {
        Some(k) => match given {
            Some(g) => same_bytes(k.as_slice(), g),
            None => false,
        },
        None => match given {
            Some(_) => false,
            None => true,
        },
    }
}

impl OwnedIdentifiers {
    /// A copy of the given identifiers.
    pub fn from_identifiers(ids: Identifiers) -> (out: Self)
        ensures
            out@ == ids@,
    {
        OwnedIdentifiers { client: own(ids.client), server: own(ids.server) }
    }

    /// Whether these are the given identifiers.
    pub fn same_as(&self, ids: Identifiers) -> (same: bool)
        ensures
            same == (self@ == ids@),
    {
        let c = same_name(&self.client, ids.client);
        let s = same_name(&self.server, ids.server);
        c && s
    }
}

} // verus!
