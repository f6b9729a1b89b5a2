//! The version 4 `COMPOUND` procedure (procedure 1, RFC 7530 section
//! 15.2): its arguments are decoded and answered with success, the call's
//! tag and no results, as no operation is carried out yet.
use vstd::prelude::*;
use vstd::utf8::{decode_utf8_encode_utf8, encode_utf8};

use crate::encoding::be32_bytes;
use crate::parser::cursor::Cursor;
use crate::protocol::xdr::nfs4::operations::{compound_args_decoding, COMPOUND4args, COMPOUND4res};
use crate::protocol::xdr::nfs4::NFSStat4;
use crate::protocol::xdr::rpc::{success_header, success_reply};
use crate::protocol::xdr::{opaque_encoding, Deserialize, Serialize};
use crate::rpc::Error;

verus! {

/// The reply to a `COMPOUND` with tag `tag`: success, then `NFS4_OK`, the
/// tag and an empty list of results.
pub open spec fn compound_reply(xid: u32, tag: Seq<char>) -> Seq<u8> {
    success_header(xid) + NFSStat4::NFS4Ok.encoding() + opaque_encoding(encode_utf8(tag)) + be32_bytes(0)
}

/// Handles `COMPOUND`: decodes its arguments from `input` and replies.
pub fn nfsproc4_compound(xid: u32, input: &mut Cursor) -> (r: Result<Vec<u8>, Error>)
    requires
        old(input).wf(),
    ensures
        final(input).bytes() == old(input).bytes(),
        final(input).wf(),
        match compound_args_decoding(old(input).bytes(), old(input).pos()) {
            Err(e) => r == Err::<Vec<u8>, Error>(e),
            Ok((args, end)) => final(input).pos() == end && (r matches Ok(b) && b@ == compound_reply(
                xid,
                args.tag,
            )),
        },
{
    let args = <COMPOUND4args as Deserialize>::deserialize(input)?;
    let ghost t = args@.tag;
    let ghost tag_bytes = encode_utf8(t);
    proof {
        let s = old(input).bytes();
        let at = old(input).pos();
        let n = crate::parser::cursor::spec_u32(s, at).unwrap().0;
        let b = s.subrange(at + 4, at + 4 + n);
        decode_utf8_encode_utf8(b);
        assert(tag_bytes.len() <= u32::MAX);
    }
    let response = COMPOUND4res { status: NFSStat4::NFS4Ok, tag: args.tag, resarray: Vec::new() };
    let mut out = success_reply(xid);
    let _ = response.serialize(&mut out);
    assert(out@ =~= compound_reply(xid, t));
    Ok(out)
}

} // verus!
