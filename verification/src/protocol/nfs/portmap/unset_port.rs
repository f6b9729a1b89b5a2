//! `PMAPPROC_UNSET` (procedure 2): removes the registrations of a program.
use vstd::prelude::*;

use crate::encoding::be32_bytes;
use crate::parser::cursor::Cursor;
use crate::protocol::nfs::portmap::{
    key_code, mapping, PortmapKey, PortmapTable, IPPROTO_TCP, IPPROTO_UDP, PMAPPROC_UNSET,
};
use crate::protocol::nfs::v3::push;
use crate::protocol::xdr::rpc::{accepted_header, proc_unavail_reply, success_header, success_reply};
use crate::protocol::xdr::{bool_code, Deserialize};
use crate::rpc::Error;

verus! {

/// The key of the registration of `m`'s program and version over `prot`.
pub open spec fn key_for(m: mapping, prot: u32) -> PortmapKey {
    PortmapKey { prog: m.prog, vers: m.vers, prot }
}

/// Reads a mapping from `read` and removes the registrations of its program
/// and version over TCP and over UDP, whatever its protocol and port say.
/// The reply tells whether there was one to remove.
pub fn pmapproc_unsetport(xid: u32, read: &mut Cursor, table: &mut PortmapTable) -> (r: Result<Vec<u8>, Error>)
    requires
        old(read).wf(),
    ensures
        final(read).bytes() == old(read).bytes(),
        final(read).wf(),
        match <mapping as Deserialize>::decoding(old(read).bytes(), old(read).pos()) {
            Err(e) => r == Err::<Vec<u8>, Error>(e) && final(table)@ == old(table)@,
            Ok((m, end)) => {
                let tcp = key_code(key_for(m, IPPROTO_TCP));
                let udp = key_code(key_for(m, IPPROTO_UDP));
                &&& final(read).pos() == end
                &&& final(table)@ == old(table)@.remove(tcp).remove(udp)
                &&& r matches Ok(reply) && reply@ == success_header(xid) + be32_bytes(
                    bool_code(old(table)@.contains_key(tcp) || old(table)@.contains_key(udp)),
                )
            },
        },
{
    let m = <mapping as Deserialize>::deserialize(read)?;
    let entries = [
        PortmapKey { prog: m.prog, vers: m.vers, prot: IPPROTO_TCP },
        PortmapKey { prog: m.prog, vers: m.vers, prot: IPPROTO_UDP },
    ];
    let ghost before = table@;
    let mut result = false;
    let removed_tcp = table.remove(&entries[0]);
    result = result || removed_tcp;
    let removed_udp = table.remove(&entries[1]);
    result = result || removed_udp;
    proof {
        let tcp = key_code(key_for(m, IPPROTO_TCP));
        let udp = key_code(key_for(m, IPPROTO_UDP));
        assert(tcp != udp);
        assert(before.remove(tcp).contains_key(udp) == before.contains_key(udp));
    }
    let mut out = success_reply(xid);
    push(&result, &mut out);
    Ok(out)
}

/// Carries out a port mapper call of procedure `procedure`: `UNSET` is
/// served as [`pmapproc_unsetport`] serves it; any other procedure is
/// answered `PROC_UNAVAIL`, with nothing read and the table unchanged.
pub fn handle_portmap(xid: u32, procedure: u32, read: &mut Cursor, table: &mut PortmapTable) -> (r: Result<Vec<u8>, Error>)
    requires
        old(read).wf(),
    ensures
        final(read).bytes() == old(read).bytes(),
        final(read).wf(),
        procedure != PMAPPROC_UNSET ==> {
            &&& r matches Ok(reply) && reply@ == accepted_header(xid, 3)
            &&& final(read).pos() == old(read).pos()
            &&& final(table)@ == old(table)@
        },
        procedure == PMAPPROC_UNSET ==> match <mapping as Deserialize>::decoding(old(read).bytes(), old(read).pos()) {
            Err(e) => r == Err::<Vec<u8>, Error>(e) && final(table)@ == old(table)@,
            Ok((m, end)) => {
                let tcp = key_code(key_for(m, IPPROTO_TCP));
                let udp = key_code(key_for(m, IPPROTO_UDP));
                &&& final(read).pos() == end
                &&& final(table)@ == old(table)@.remove(tcp).remove(udp)
                &&& r matches Ok(reply) && reply@ == success_header(xid) + be32_bytes(
                    bool_code(old(table)@.contains_key(tcp) || old(table)@.contains_key(udp)),
                )
            },
        },
{
    if procedure == PMAPPROC_UNSET {
        pmapproc_unsetport(xid, read, table)
    } else {
        Ok(proc_unavail_reply(xid))
    }
}

} // verus!
