//! The MOUNT program (RFC 1813 appendix I): which exports a path names,
//! and the replies of its procedures.
use vstd::prelude::*;
use vstd::string::StrSliceExecFns;
use vstd::utf8::{decode_utf8, encode_utf8, valid_utf8};

use crate::encoding::be32_bytes;
use crate::protocol::nfs::v3::push;
use crate::parser::cursor::Cursor;
use crate::protocol::xdr::mount::{mountstat3, Args, ArgsView};
use crate::protocol::xdr::rpc::{accepted_header, auth_unix, proc_unavail_reply, success_header, success_reply};
use crate::protocol::xdr::{
    copy_bytes, invalid_data, opaque_decoding, opaque_encoding, read_opaque, string_from_utf8, write_opaque,
    Serialize,
};
use crate::rpc::{Error, Parsed};

verus! {

/// The path `requested` names the export `export`: it is the export, or any
/// absolute path when the export is `/`, or a path below the export, which
/// begins with the export followed right after by a path separator `/`.
pub open spec fn export_path_matches(requested: Seq<char>, export: Seq<char>) -> bool {
    ||| requested == export
    ||| (export == seq!['/'] && requested.len() > 0 && requested[0] == '/')
    ||| ({
        &&& export.len() < requested.len()
        &&& requested.subrange(0, export.len() as int) == export
        &&& requested[export.len() as int] == '/'
    })
}

/// Whether the characters of `a` from `start` on begin with those of `b`.
fn has_prefix_at(a: &str, b: &str, a_len: usize, b_len: usize) -> (r: bool)
    requires
        a_len == a@.len(),
        b_len == b@.len(),
    ensures
        r == (b@.len() <= a@.len() && a@.subrange(0, b@.len() as int) == b@),
{
    if b_len > a_len {
        return false;
    }
    let mut i: usize = 0;
    while i < b_len
        invariant
            0 <= i <= b_len <= a_len,
            a_len == a@.len(),
            b_len == b@.len(),
            forall|j: int| 0 <= j < i ==> a@[j] == b@[j],
        decreases b_len - i,
    {
        if a.get_char(i) != b.get_char(i) {
            assert(a@.subrange(0, b@.len() as int)[i as int] != b@[i as int]);
            return false;
        }
        i = i + 1;
    }
    assert(a@.subrange(0, b@.len() as int) =~= b@);
    true
}

/// Tells whether the path `requested_path` names the export `export_name`.
pub fn matches_export_path(requested_path: &str, export_name: &str) -> (r: bool)
    ensures
        r == export_path_matches(requested_path@, export_name@),
{
    let r_len = requested_path.unicode_len();
    let e_len = export_name.unicode_len();
    if r_len == e_len && has_prefix_at(requested_path, export_name, r_len, e_len) {
        assert(requested_path@ =~= export_name@);
        return true;
    }
    if e_len == 1 && export_name.get_char(0) == '/' && r_len > 0 && requested_path.get_char(0) == '/' {
        assert(export_name@ =~= seq!['/']);
        return true;
    }
    if has_prefix_at(requested_path, export_name, r_len, e_len) && e_len < r_len
        && requested_path.get_char(e_len) == '/' {
        return true;
    }
    proof {
        if requested_path@ == export_name@ {
            assert(requested_path@.subrange(0, export_name@.len() as int) =~= export_name@);
        }
        if export_name@ == seq!['/'] {
            assert(e_len == 1 && export_name@[0] == '/');
        }
    }
    false
}

/// The machine name of UNIX credentials, when it is UTF-8.
pub open spec fn machine_name_of(auth: Option<auth_unix>) -> Option<Seq<char>> {
    match auth {
        Some(a) => if valid_utf8(a.machinename@) {
            Some(decode_utf8(a.machinename@))
        } else {
            None
        },
        None => None,
    }
}

/// The caller's machine name, from its UNIX credentials when they were sent
/// and the name is UTF-8.
pub fn machine_name_from_context(auth: &Option<auth_unix>) -> (r: Option<String>)
    ensures
        match machine_name_of(*auth) {
            Some(name) => r matches Some(s) && s@ == name,
            None => r is None,
        },
{
    match auth {
        Some(a) => string_from_utf8(copy_bytes(&a.machinename)),
        None => None,
    }
}

/// The reply to MOUNT `NULL`.
pub fn mountproc3_null(xid: u32) -> (r: Vec<u8>)
    ensures
        r@ == success_header(xid),
{
    success_reply(xid)
}

/// The export list of `EXPORT`: for each name, a present flag, the name and
/// an empty group list.
pub open spec fn export_entries(names: Seq<String>) -> Seq<u8>
    decreases names.len(),
{
    if names.len() == 0 {
        Seq::empty()
    } else {
        export_entries(names.drop_last()) + be32_bytes(1) + opaque_encoding(encode_utf8(names.last()@))
            + be32_bytes(0)
    }
}

/// Every name's bytes can be encoded.
pub open spec fn names_fit(names: Seq<String>) -> bool {
    forall|i: int| 0 <= i < names.len() ==> encode_utf8(#[trigger] names[i]@).len() <= u32::MAX
}

/// The reply to `EXPORT` listing `names`, in their order; refused when a
/// name is too long to encode.
pub fn mountproc3_export(xid: u32, names: &Vec<String>) -> (r: Result<Vec<u8>, Error>)
    ensures
        names_fit(names@) ==> (r matches Ok(b) && b@ == success_header(xid) + export_entries(names@)
            + be32_bytes(0)),
        !names_fit(names@) ==> r == Err::<Vec<u8>, Error>(invalid_data()),
{
    let mut out = success_reply(xid);
    let mut i: usize = 0;
    while i < names.len()
        invariant
            0 <= i <= names@.len(),
            names_fit(names@.take(i as int)),
            out@ == success_header(xid) + export_entries(names@.take(i as int)),
        decreases names@.len() - i,
    {
        push(&true, &mut out);
        if write_opaque(&mut out, names[i].as_str().as_bytes()).is_err() {
            return Err(invalid_data_error());
        }
        push(&false, &mut out);
        proof {
            assert(names@.take(i + 1).drop_last() =~= names@.take(i as int));
            assert(names_fit(names@.take(i + 1))) by {
                assert forall|j: int| 0 <= j < i + 1 implies encode_utf8(#[trigger] names@.take(i + 1)[j]@).len() <= u32::MAX by {
                    if j < i {
                        assert(names@.take(i + 1)[j] == names@.take(i as int)[j]);
                    }
                }
            }
        }
        i = i + 1;
        assert(out@ =~= success_header(xid) + export_entries(names@.take(i as int)));
    }
    push(&false, &mut out);
    assert(names@.take(names@.len() as int) =~= names@);
    Ok(out)
}

/// The `InvalidData` error.
fn invalid_data_error() -> (e: Error)
    ensures
        e == invalid_data(),
{
    Error::IO(crate::rpc::IoErrorKind::InvalidData)
}

/// The mount list of `DUMP`: for each machine and path it mounted, a
/// present flag, the machine name and the path.
pub open spec fn dump_entries(mounts: Seq<(String, String)>) -> Seq<u8>
    decreases mounts.len(),
{
    if mounts.len() == 0 {
        Seq::empty()
    } else {
        dump_entries(mounts.drop_last()) + be32_bytes(1) + opaque_encoding(encode_utf8(mounts.last().0@))
            + opaque_encoding(encode_utf8(mounts.last().1@))
    }
}

/// Every machine name and path can be encoded.
pub open spec fn mounts_fit(mounts: Seq<(String, String)>) -> bool {
    forall|i: int| 0 <= i < mounts.len() ==> encode_utf8(#[trigger] mounts[i].0@).len() <= u32::MAX
        && encode_utf8(mounts[i].1@).len() <= u32::MAX
}

/// The reply to `DUMP` listing the mounts `mounts` (machine name and path),
/// in their order; refused when one is too long to encode.
pub fn mountproc3_dump(xid: u32, mounts: &Vec<(String, String)>) -> (r: Result<Vec<u8>, Error>)
    ensures
        mounts_fit(mounts@) ==> (r matches Ok(b) && b@ == success_header(xid) + dump_entries(mounts@)
            + be32_bytes(0)),
        !mounts_fit(mounts@) ==> r == Err::<Vec<u8>, Error>(invalid_data()),
{
    let mut out = success_reply(xid);
    let mut i: usize = 0;
    while i < mounts.len()
        invariant
            0 <= i <= mounts@.len(),
            mounts_fit(mounts@.take(i as int)),
            out@ == success_header(xid) + dump_entries(mounts@.take(i as int)),
        decreases mounts@.len() - i,
    {
        push(&true, &mut out);
        let (machine, path) = &mounts[i];
        if write_opaque(&mut out, machine.as_str().as_bytes()).is_err() {
            return Err(invalid_data_error());
        }
        if write_opaque(&mut out, path.as_str().as_bytes()).is_err() {
            return Err(invalid_data_error());
        }
        proof {
            assert(mounts@.take(i + 1).drop_last() =~= mounts@.take(i as int));
            assert(mounts_fit(mounts@.take(i + 1))) by {
                assert forall|j: int| 0 <= j < i + 1 implies encode_utf8(#[trigger] mounts@.take(i + 1)[j].0@).len() <= u32::MAX
                    && encode_utf8(mounts@.take(i + 1)[j].1@).len() <= u32::MAX by {
                    if j < i {
                        assert(mounts@.take(i + 1)[j] == mounts@.take(i as int)[j]);
                    }
                }
            }
        }
        i = i + 1;
        assert(out@ =~= success_header(xid) + dump_entries(mounts@.take(i as int)));
    }
    push(&false, &mut out);
    assert(mounts@.take(mounts@.len() as int) =~= mounts@);
    Ok(out)
}

/// The reply that `UMNT` and `UMNTALL` give: success and `MNT3_OK`.
pub open spec fn unmount_reply(xid: u32) -> Seq<u8> {
    success_header(xid) + mountstat3::MNT3_OK.encoding()
}

/// What `UMNT` of a path does.
#[derive(Debug)]
pub struct UmntOutcome {
    /// The reply; empty when the path is not UTF-8.
    pub reply: Vec<u8>,
    /// The export, by index, whose mount signal is told of the unmount.
    pub signal: Option<usize>,
    /// The machine name and path to forget from the client list.
    pub forget: Option<(String, String)>,
}

/// The index of the first of `exports` that `path` names.
pub open spec fn first_match(path: Seq<char>, exports: Seq<String>) -> Option<int>
    decreases exports.len(),
{
    if exports.len() == 0 {
        None
    } else {
        match first_match(path, exports.drop_last()) {
            Some(i) => Some(i),
            None => if export_path_matches(path, exports.last()@) {
                Some(exports.len() - 1)
            } else {
                None
            },
        }
    }
}

/// The first of `exports` that `path` names.
fn find_export(path: &str, exports: &Vec<String>) -> (r: Option<usize>)
    ensures
        match first_match(path@, exports@) {
            Some(i) => r == Some(i as usize),
            None => r is None,
        },
{
    let mut i: usize = 0;
    while i < exports.len()
        invariant
            0 <= i <= exports@.len(),
            first_match(path@, exports@.take(i as int)) is None,
        decreases exports@.len() - i,
    {
        let m = matches_export_path(path, exports[i].as_str());
        proof {
            assert(exports@.take(i + 1).drop_last() =~= exports@.take(i as int));
            lemma_first_match_prefix(path@, exports@, i + 1);
        }
        if m {
            return Some(i);
        }
        i = i + 1;
    }
    assert(exports@.take(exports@.len() as int) =~= exports@);
    None
}

/// A match found in a prefix is the first match of the whole list.
proof fn lemma_first_match_prefix(path: Seq<char>, exports: Seq<String>, k: int)
    requires
        0 <= k <= exports.len(),
    ensures
        first_match(path, exports.take(k)) matches Some(i) ==> first_match(path, exports) == Some(i),
    decreases exports.len() - k,
{
    if k < exports.len() {
        lemma_first_match_prefix(path, exports, k + 1);
        assert(exports.take(k + 1).drop_last() =~= exports.take(k));
    } else {
        assert(exports.take(k) =~= exports);
    }
}

/// Handles `UMNT` of `path`: when the path is UTF-8, signals the first of
/// `exports` it names, forgets the path for the caller's machine, and
/// replies `MNT3_OK`; a path that is not UTF-8 gets no reply.
pub fn mountproc3_umnt(xid: u32, path: &Vec<u8>, exports: &Vec<String>, auth: &Option<auth_unix>) -> (r: UmntOutcome)
    ensures
        !valid_utf8(path@) ==> r.reply@.len() == 0 && r.signal is None && r.forget is None,
        valid_utf8(path@) ==> {
            let p = decode_utf8(path@);
            &&& r.reply@ == unmount_reply(xid)
            &&& match first_match(p, exports@) {
                Some(i) => r.signal == Some(i as usize),
                None => r.signal is None,
            }
            &&& match machine_name_of(*auth) {
                Some(m) => r.forget matches Some((a, b)) && a@ == m && b@ == p,
                None => r.forget is None,
            }
        },
{
    let utf8path = match string_from_utf8(copy_bytes(path)) {
        Some(s) => s,
        None => return UmntOutcome { reply: Vec::new(), signal: None, forget: None },
    };
    let signal = find_export(utf8path.as_str(), exports);
    let mut reply = success_reply(xid);
    push(&mountstat3::MNT3_OK, &mut reply);
    let forget = match machine_name_from_context(auth) {
        Some(machine) => Some((machine, utf8path)),
        None => None,
    };
    UmntOutcome { reply, signal, forget }
}

/// Handles `UMNTALL`: replies `MNT3_OK` and gives the caller's machine
/// name, whose mounts are to be forgotten.
pub fn mountproc3_umnt_all(xid: u32, auth: &Option<auth_unix>) -> (r: (Vec<u8>, Option<String>))
    ensures
        r.0@ == unmount_reply(xid),
        match machine_name_of(*auth) {
            Some(m) => r.1 matches Some(s) && s@ == m,
            None => r.1 is None,
        },
{
    let mut reply = success_reply(xid);
    push(&mountstat3::MNT3_OK, &mut reply);
    (reply, machine_name_from_context(auth))
}

/// Wraps the path that `r` decoded into the arguments `f` makes of it.
pub open spec fn path_args(r: Parsed<Seq<u8>>, f: spec_fn(Seq<u8>) -> ArgsView) -> Parsed<Option<ArgsView>> {
    match r {
        Ok((p, end)) => Ok((Some(f(p)), end)),
        Err(e) => Err(e),
    }
}

/// Decoding the arguments of MOUNT procedure `procedure` at `at`: `MNT`
/// and `UMNT` carry a directory path, the others nothing; a procedure
/// MOUNT does not have is `None`.
pub open spec fn mount_args_decoding(s: Seq<u8>, at: int, procedure: u32) -> Parsed<Option<ArgsView>> {
    if procedure == 0 {
        Ok((Some(ArgsView::Null), at))
    } else if procedure == 1 {
        path_args(opaque_decoding(s, at), |p| ArgsView::Mnt(p))
    } else if procedure == 2 {
        Ok((Some(ArgsView::Dump), at))
    } else if procedure == 3 {
        path_args(opaque_decoding(s, at), |p| ArgsView::Umnt(p))
    } else if procedure == 4 {
        Ok((Some(ArgsView::Umntall), at))
    } else if procedure == 5 {
        Ok((Some(ArgsView::Export), at))
    } else {
        Ok((None, at))
    }
}

/// Decodes the arguments of a call of MOUNT procedure `procedure`.
pub fn parse_mount_args(procedure: u32, input: &mut Cursor) -> (r: Result<Option<Args>, Error>)
    requires
        old(input).wf(),
    ensures
        final(input).bytes() == old(input).bytes(),
        final(input).wf(),
        match mount_args_decoding(old(input).bytes(), old(input).pos(), procedure) {
            Ok((v, end)) => final(input).pos() == end && match v {
                Some(args) => r matches Ok(Some(a)) && a@ == args,
                None => r matches Ok(None),
            },
            Err(e) => r == Err::<Option<Args>, Error>(e),
        },
{
    if procedure == 0 {
        Ok(Some(Args::Null))
    } else if procedure == 1 {
        Ok(Some(Args::Mnt(read_opaque(input)?)))
    } else if procedure == 2 {
        Ok(Some(Args::Dump))
    } else if procedure == 3 {
        Ok(Some(Args::Umnt(read_opaque(input)?)))
    } else if procedure == 4 {
        Ok(Some(Args::Umntall))
    } else if procedure == 5 {
        Ok(Some(Args::Export))
    } else {
        Ok(None)
    }
}

/// What a MOUNT call comes to: the reply (empty when none is sent), the
/// export, by index, whose mount signal hears of an unmount, the mount to
/// forget (machine name and path), and the machine all of whose mounts to
/// forget.
#[derive(Debug)]
pub struct MountReply {
    pub reply: Vec<u8>,
    pub signal: Option<usize>,
    pub forget: Option<(String, String)>,
    pub forget_all: Option<String>,
}

/// `m` is a reply `b` and nothing else.
pub open spec fn reply_only(m: MountReply, b: Seq<u8>) -> bool {
    m.reply@ == b && m.signal is None && m.forget is None && m.forget_all is None
}

/// A reply and nothing else.
fn only_reply(reply: Vec<u8>) -> (m: MountReply)
    ensures
        reply_only(m, reply@),
{
    MountReply { reply, signal: None, forget: None, forget_all: None }
}

/// Handles a MOUNT call with arguments `arg`, given the exports, the mounts
/// (machine name and path) and the caller's credentials. `MNT` has no
/// handler here and is answered with `PROC_UNAVAIL`.
pub fn handle_mount(
    xid: u32,
    arg: &Args,
    exports: &Vec<String>,
    mounts: &Vec<(String, String)>,
    auth: &Option<auth_unix>,
) -> (r: Result<MountReply, Error>)
    ensures
        match arg {
            Args::Null => r matches Ok(m) && reply_only(m, success_header(xid)),
            Args::Mnt(_) => r matches Ok(m) && reply_only(m, accepted_header(xid, 3)),
            Args::Dump => if mounts_fit(mounts@) {
                r matches Ok(m) && reply_only(m, success_header(xid) + dump_entries(mounts@) + be32_bytes(0))
            } else {
                r == Err::<MountReply, Error>(invalid_data())
            },
            Args::Export => if names_fit(exports@) {
                r matches Ok(m) && reply_only(m, success_header(xid) + export_entries(exports@) + be32_bytes(0))
            } else {
                r == Err::<MountReply, Error>(invalid_data())
            },
            Args::Umnt(path) => r matches Ok(m) && m.forget_all is None && if !valid_utf8(path@) {
                m.reply@.len() == 0 && m.signal is None && m.forget is None
            } else {
                let p = decode_utf8(path@);
                &&& m.reply@ == unmount_reply(xid)
                &&& match first_match(p, exports@) {
                    Some(i) => m.signal == Some(i as usize),
                    None => m.signal is None,
                }
                &&& match machine_name_of(*auth) {
                    Some(name) => m.forget matches Some((a, b)) && a@ == name && b@ == p,
                    None => m.forget is None,
                }
            },
            Args::Umntall => r matches Ok(m) && m.reply@ == unmount_reply(xid) && m.signal is None
                && m.forget is None && match machine_name_of(*auth) {
                Some(name) => m.forget_all matches Some(s) && s@ == name,
                None => m.forget_all is None,
            },
        },
{
    match arg {
        Args::Null => Ok(only_reply(mountproc3_null(xid))),
        Args::Mnt(_) => Ok(only_reply(proc_unavail_reply(xid))),
        Args::Dump => Ok(only_reply(mountproc3_dump(xid, mounts)?)),
        Args::Export => Ok(only_reply(mountproc3_export(xid, exports)?)),
        Args::Umnt(path) => {
            let out = mountproc3_umnt(xid, path, exports, auth);
            Ok(MountReply { reply: out.reply, signal: out.signal, forget: out.forget, forget_all: None })
        },
        Args::Umntall => {
            let (reply, name) = mountproc3_umnt_all(xid, auth);
            Ok(MountReply { reply, signal: None, forget: None, forget_all: name })
        },
    }
}

} // verus!
