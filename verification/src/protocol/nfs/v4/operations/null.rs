//! The version 4 `NULL` operation.
use vstd::prelude::*;

use crate::protocol::nfs::v4::operations::{null_response, Data, OpNum, Response, Status};
use crate::rpc::Error;

verus! {

/// Arguments of `NULL`: none.
#[derive(Debug, Clone, Copy)]
pub struct Args {}

impl Args {
    /// Does nothing, successfully.
    pub fn execute(&self) -> (r: Result<Response, Error>)
        ensures
            r matches Ok(resp) && null_response(resp),
    {
        Ok(Response { status: Status::Success, resop: OpNum::Null, uin: Data::Null(Resp {}) })
    }
}

/// Results of `NULL`: none.
#[derive(Debug)]
pub struct Resp {}

} // verus!
