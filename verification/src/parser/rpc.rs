//! Parsing of RPC credentials and the call header's summary.
use vstd::prelude::*;

use crate::parser::cursor::{parsed_as, spec_u32, Cursor};
use crate::parser::primitive::{self, spec_vec_max_size};
use crate::parser::stop::{stop_auth, stop_discriminant};
use crate::rpc::{and_then, auth_flavor_of, AuthFlavor, Error, OpaqueAuth, Parsed, MAX_AUTH_SIZE};

verus! {

/// What the parser keeps of an RPC call header.
#[derive(Debug, Clone, Copy, PartialEq, Eq)]
pub struct RpcMessage {
    pub xid: u32,
    pub program: u32,
    pub procedure: u32,
    pub version: u32,
    pub auth_flavor: AuthFlavor,
}

impl View for RpcMessage {
    type V = RpcMessage;

    open spec fn view(&self) -> RpcMessage {
        *self
    }
}

impl View for OpaqueAuth {
    type V = (AuthFlavor, Seq<u8>);

    open spec fn view(&self) -> (AuthFlavor, Seq<u8>) {
        (self.flavor, self.body@)
    }
}

/// An authentication flavor discriminant.
pub open spec fn spec_auth_flavor(s: Seq<u8>, at: int) -> Parsed<AuthFlavor> {
    and_then(spec_u32(s, at), |d: u32, p: int|
        match auth_flavor_of(d) {
            Some(f) => Ok((f, p)),
            None => Err(Error::EnumDiscMismatch),
        })
}

/// `opaque_auth`: a flavor and a body of at most [`MAX_AUTH_SIZE`] bytes.
pub open spec fn spec_auth(s: Seq<u8>, at: int) -> Parsed<(AuthFlavor, Seq<u8>)> {
    and_then(spec_auth_flavor(s, at), |f: AuthFlavor, p: int|
        and_then(spec_vec_max_size(s, p, MAX_AUTH_SIZE as int), |b: Seq<u8>, q: int| Ok(((f, b), q))))
}

/// Parses an authentication flavor.
pub fn auth_flavor(src: &mut Cursor) -> (r: Result<AuthFlavor, Error>)
    requires
        old(src).wf(),
    ensures
        parsed_as(*old(src), *final(src), r, spec_auth_flavor(old(src).bytes(), old(src).pos())),
        r == Err::<AuthFlavor, Error>(Error::EnumDiscMismatch) ==> final(src).pos() == old(src).pos() + 4,
        r is Err ==> final(src).pos() == stop_discriminant(old(src).bytes(), old(src).pos()),
{
    let d = primitive::u32(src)?;
    match AuthFlavor::from_u32(d) {
        Some(f) => Ok(f),
        None => Err(Error::EnumDiscMismatch),
    }
}

/// Parses a credential or verifier.
pub fn auth(src: &mut Cursor) -> (r: Result<OpaqueAuth, Error>)
    requires
        old(src).wf(),
    ensures
        parsed_as(*old(src), *final(src), r, spec_auth(old(src).bytes(), old(src).pos())),
        r == Err::<OpaqueAuth, Error>(Error::EnumDiscMismatch) ==> final(src).pos() == old(src).pos() + 4,
        r == Err::<OpaqueAuth, Error>(Error::MaxElemLimit) ==> final(src).pos() == old(src).pos() + 8,
        r is Err ==> final(src).pos() == stop_auth(old(src).bytes(), old(src).pos()),
{
    let flavor = auth_flavor(src)?;
    let body = primitive::vec_max_size(src, MAX_AUTH_SIZE)?;
    Ok(OpaqueAuth { flavor, body })
}

} // verus!
