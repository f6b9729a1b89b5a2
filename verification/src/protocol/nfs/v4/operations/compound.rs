//! The version 4 `COMPOUND` operation: a list of operations run in order.
use vstd::prelude::*;

use crate::protocol::nfs::v4::operations::{null_response, Argument, Data, OpNum, Request, Response, Status};
use crate::rpc::Error;

verus! {

/// Arguments of `COMPOUND`.
#[derive(Debug)]
pub struct Args {
    pub tag: String,
    pub minor_version: u32,
    pub arg_array: Vec<Request>,
}

/// Results of `COMPOUND`: the status it ended with, the tag of the call,
/// and the results of the operations run.
#[derive(Debug)]
pub struct Resp {
    pub status: Status,
    pub tag: String,
    pub res_array: Vec<Response>,
}

/// How many operations run before the first nested `COMPOUND`, which stops
/// the list.
pub open spec fn run_length(ops: Seq<Request>) -> nat
    decreases ops.len(),
{
    if ops.len() == 0 {
        0
    } else if ops.first().uin is Compound {
        0
    } else {
        1 + run_length(ops.skip(1))
    }
}

/// Every operation that would run is one this server can run: none before
/// the first nested `COMPOUND` is an `ACCESS`.
pub open spec fn runnable(ops: Seq<Request>) -> bool {
    forall|i: int| 0 <= i < run_length(ops) ==> #[trigger] ops[i].uin is Null
}

/// `resp` is the result of running `args`: one successful `NULL` result per
/// operation before the first nested `COMPOUND`; the status is
/// `ErrOpIllegal` when there is such a nested one and success otherwise.
pub open spec fn compound_result(args: Args, resp: Response) -> bool {
    let k = run_length(args.arg_array@);
    let status = if k < args.arg_array@.len() {
        Status::ErrOpIllegal
    } else {
        Status::Success
    };
    &&& resp.status == status
    &&& resp.resop == OpNum::Compound
    &&& resp.uin matches Data::Compound(r) && r.status == status && r.tag@ == args.tag@
        && r.res_array@.len() == k && forall|i: int| 0 <= i < k ==> null_response(#[trigger] r.res_array@[i])
}

/// The operations before the first nested `COMPOUND` are the prefix that
/// contains none.
proof fn lemma_run_length(ops: Seq<Request>, i: int)
    requires
        0 <= i <= run_length(ops),
    ensures
        run_length(ops) <= ops.len(),
        forall|j: int| 0 <= j < i ==> !(#[trigger] ops[j].uin is Compound),
        i < ops.len() && ops[i].uin is Compound ==> run_length(ops) == i,
        i < ops.len() && !(ops[i].uin is Compound) ==> i < run_length(ops),
    decreases ops.len(),
{
    if ops.len() > 0 && !(ops.first().uin is Compound) {
        if i > 0 {
            lemma_run_length(ops.skip(1), i - 1);
            assert forall|j: int| 0 <= j < i implies !(#[trigger] ops[j].uin is Compound) by {
                if j > 0 {
                    assert(ops[j] == ops.skip(1)[j - 1]);
                }
            }
            if i < ops.len() {
                assert(ops[i] == ops.skip(1)[i - 1]);
            }
        } else {
            lemma_run_length(ops.skip(1), 0);
        }
    }
}

/// A copy of a string.
fn copy_string(s: &String) -> (r: String)
    ensures
        r@ == s@,
{
    s.as_str().to_string()
}

impl Args {
    /// Runs the operations in order until a nested `COMPOUND`.
    pub fn execute(&self) -> (r: Result<Response, Error>)
        requires
            runnable(self.arg_array@),
        ensures
            r matches Ok(resp) && compound_result(*self, resp),
    {
        let mut response = Resp { status: Status::Success, tag: copy_string(&self.tag), res_array: Vec::new() };
        let ghost k = run_length(self.arg_array@);
        proof {
            lemma_run_length(self.arg_array@, 0);
        }
        let mut i: usize = 0;
        while i < self.arg_array.len()
            invariant
                0 <= i <= k,
                k == run_length(self.arg_array@),
                k <= self.arg_array@.len(),
                runnable(self.arg_array@),
                response.status == Status::Success,
                response.tag@ == self.tag@,
                response.res_array@.len() == i,
                forall|j: int| 0 <= j < i ==> null_response(#[trigger] response.res_array@[j]),
            decreases self.arg_array@.len() - i,
        {
            proof {
                lemma_run_length(self.arg_array@, i as int);
            }
            let op = &self.arg_array[i];
            let res = match &op.uin {
                Argument::Null(args) => args.execute()?,
                Argument::Compound(_) => {
                    response.status = Status::ErrOpIllegal;
                    return Ok(Response {
                        status: response.status,
                        resop: OpNum::Compound,
                        uin: Data::Compound(response),
                    });
                },
                Argument::Access => {
                    proof {
                        assert(self.arg_array@[i as int].uin is Null);
                    }
                    return Err(Error::IO(crate::rpc::IoErrorKind::Unsupported));
                },
            };
            response.res_array.push(res);
            i = i + 1;
        }
        Ok(Response { status: Status::Success, resop: OpNum::Compound, uin: Data::Compound(response) })
    }
}

} // verus!
