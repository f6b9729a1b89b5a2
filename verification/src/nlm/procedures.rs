//! Arguments of the NLMv4 procedures.
use vstd::prelude::*;

use crate::nlm::{Cookie, Nlm4Lock};

verus! {

/// Arguments of `LOCK`.
#[derive(Debug, Clone, PartialEq, Eq)]
pub struct Nlm4LockArgs {
    pub cookie: Cookie,
    pub block: bool,
    pub exclusive: bool,
    pub lock: Nlm4Lock,
    pub reclaim: bool,
    pub state: u32,
}

/// Arguments of `TEST`.
#[derive(Debug, Clone, PartialEq, Eq)]
pub struct Nlm4TestArgs {
    pub cookie: Cookie,
    pub exclusive: bool,
    pub lock: Nlm4Lock,
}

/// Arguments of `UNLOCK`.
#[derive(Debug, Clone, PartialEq, Eq)]
pub struct Nlm4UnlockArgs {
    pub cookie: Cookie,
    pub lock: Nlm4Lock,
}

impl View for Nlm4LockArgs {
    type V = (u64, bool, bool, (Seq<char>, Seq<u8>, Seq<u8>, i32, u64, u64), bool, u32);

    open spec fn view(&self) -> (u64, bool, bool, (Seq<char>, Seq<u8>, Seq<u8>, i32, u64, u64), bool, u32) {
        (self.cookie.0, self.block, self.exclusive, self.lock@, self.reclaim, self.state)
    }
}

impl View for Nlm4TestArgs {
    type V = (u64, bool, (Seq<char>, Seq<u8>, Seq<u8>, i32, u64, u64));

    open spec fn view(&self) -> (u64, bool, (Seq<char>, Seq<u8>, Seq<u8>, i32, u64, u64)) {
        (self.cookie.0, self.exclusive, self.lock@)
    }
}

impl View for Nlm4UnlockArgs {
    type V = (u64, (Seq<char>, Seq<u8>, Seq<u8>, i32, u64, u64));

    open spec fn view(&self) -> (u64, (Seq<char>, Seq<u8>, Seq<u8>, i32, u64, u64)) {
        (self.cookie.0, self.lock@)
    }
}

} // verus!
