//! The port mapper program (RFC 1833 version 2).
use vstd::prelude::*;

use std::collections::HashMap;

use crate::parser::cursor::Cursor;
use crate::protocol::xdr::rpc::{success_header, success_reply};
use crate::protocol::xdr::{bool_code, Deserialize, Serialize};
use crate::encoding::be32_bytes;
use crate::protocol::nfs::v3::push;
use crate::rpc::{Error, Parsed};

pub mod unset_port;

verus! {

broadcast use vstd::std_specs::hash::group_hash_axioms;

/// `PMAPPROC_UNSET`: removes the registrations of a program.
pub const PMAPPROC_UNSET: u32 = 2;

/// Protocol number of TCP.
pub const IPPROTO_TCP: u32 = 6;

/// Protocol number of UDP.
pub const IPPROTO_UDP: u32 = 17;

/// A program, version and protocol, and the port that serves them.
#[allow(non_camel_case_types)]
#[derive(Debug, Clone, Copy, PartialEq, Eq)]
pub struct mapping {
    pub prog: u32,
    pub vers: u32,
    pub prot: u32,
    pub port: u32,
}

impl View for mapping {
    type V = mapping;

    open spec fn view(&self) -> mapping {
        *self
    }
}

impl Deserialize for mapping {
    open spec fn decoding(s: Seq<u8>, at: int) -> Parsed<mapping> {
        match <u32 as Deserialize>::decoding(s, at) {
            Err(e) => Err(e),
            Ok((prog, p1)) => match <u32 as Deserialize>::decoding(s, p1) {
                Err(e) => Err(e),
                Ok((vers, p2)) => match <u32 as Deserialize>::decoding(s, p2) {
                    Err(e) => Err(e),
                    Ok((prot, p3)) => match <u32 as Deserialize>::decoding(s, p3) {
                        Err(e) => Err(e),
                        Ok((port, p4)) => Ok((mapping { prog, vers, prot, port }, p4)),
                    },
                },
            },
        }
    }

    fn deserialize(src: &mut Cursor) -> (r: Result<mapping, Error>) {
        let prog = <u32 as Deserialize>::deserialize(src)?;
        let vers = <u32 as Deserialize>::deserialize(src)?;
        let prot = <u32 as Deserialize>::deserialize(src)?;
        let port = <u32 as Deserialize>::deserialize(src)?;
        Ok(mapping { prog, vers, prot, port })
    }
}

/// The key of a registration: program, version and protocol.
#[derive(Debug, Clone, Copy, PartialEq, Eq)]
pub struct PortmapKey {
    pub prog: u32,
    pub vers: u32,
    pub prot: u32,
}

/// The table key of `k`: its three numbers side by side.
pub open spec fn key_code(k: PortmapKey) -> u128 {
    (k.prog as int * 0x1_0000_0000_0000_0000 + k.vers as int * 0x1_0000_0000 + k.prot as int) as u128
}

/// Distinct keys have distinct codes.
pub proof fn lemma_key_code_injective(a: PortmapKey, b: PortmapKey)
    ensures
        key_code(a) == key_code(b) ==> a == b,
{
    let ca = a.prog as int * 0x1_0000_0000_0000_0000 + a.vers as int * 0x1_0000_0000 + a.prot as int;
    let cb = b.prog as int * 0x1_0000_0000_0000_0000 + b.vers as int * 0x1_0000_0000 + b.prot as int;
    assert(0 <= ca < 0x1_0000_0000_0000_0000_0000_0000);
    assert(0 <= cb < 0x1_0000_0000_0000_0000_0000_0000);
    if ca == cb {
        assert(a.prot == b.prot);
        assert(a.vers == b.vers);
        assert(a.prog == b.prog);
    }
}

/// The table key of `k`.
pub fn key_code_of(k: &PortmapKey) -> (r: u128)
    ensures
        r == key_code(*k),
{
    (k.prog as u128) * 0x1_0000_0000_0000_0000u128 + (k.vers as u128) * 0x1_0000_0000u128 + (k.prot as u128)
}

/// The registrations of the port mapper.
#[derive(Debug)]
pub struct PortmapTable {
    table: HashMap<u128, u32>,
}

impl View for PortmapTable {
    type V = Map<u128, u32>;

    closed spec fn view(&self) -> Map<u128, u32> {
        self.table@
    }
}

impl PortmapTable {
    /// No registrations.
    pub fn new() -> (r: PortmapTable)
        ensures
            r@ == Map::<u128, u32>::empty(),
    {
        PortmapTable { table: HashMap::new() }
    }

    /// Registers `port` for `key`.
    pub fn set(&mut self, key: &PortmapKey, port: u32)
        ensures
            final(self)@ == old(self)@.insert(key_code(*key), port),
    {
        let k = key_code_of(key);
        self.table.insert(k, port);
    }

    /// The port registered for `key`, if any.
    pub fn get(&self, key: &PortmapKey) -> (r: Option<u32>)
        ensures
            match r {
                Some(p) => self@.contains_key(key_code(*key)) && self@[key_code(*key)] == p,
                None => !self@.contains_key(key_code(*key)),
            },
    {
        let k = key_code_of(key);
        match self.table.get(&k) {
            Some(p) => Some(*p),
            None => None,
        }
    }

    /// Removes the registration of `key`; tells whether there was one.
    pub fn remove(&mut self, key: &PortmapKey) -> (r: bool)
        ensures
            final(self)@ == old(self)@.remove(key_code(*key)),
            r == old(self)@.contains_key(key_code(*key)),
    {
        let k = key_code_of(key);
        self.table.remove(&k).is_some()
    }
}

} // verus!
