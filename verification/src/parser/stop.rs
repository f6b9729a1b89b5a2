//! Where a failed parse leaves the cursor. A parser that fails stops right
//! after the last item it read whole: a read that runs out of bytes moves
//! nothing, and a value read and then refused (a bad discriminant, a file
//! handle of the wrong size, a length over its bound, bytes that are not
//! UTF-8) is consumed. Each `stop_*` function gives that position for the
//! parse of the same name; it matters only when that parse fails.
use vstd::prelude::*;

use crate::nfsv3::{self, NFS3_CREATEVERFSIZE, NFS3_FHSIZE};
use crate::parser::cursor::{spec_bytes, spec_u32, spec_u64};
use crate::parser::nfsv3::{
    spec_diropargs3, spec_ftype3, spec_nfs_fh3, spec_sattr3, spec_set_atime, spec_stable_how,
};
use crate::parser::primitive::{spec_bool, spec_option_u32, spec_option_u64, spec_vec_max_size, spec_vector};
use crate::parser::rpc::spec_auth_flavor;
use crate::mount::MOUNT_DIRPATH_LEN;
use crate::rpc::{Parsed, MAX_AUTH_SIZE};

verus! {

/// Where a parse that begins with `first` stops: at `here` when `first`
/// fails, else where `rest`, given what `first` read and where it ended,
/// stops.
pub open spec fn stop_then<A>(first: Parsed<A>, here: int, rest: spec_fn(A, int) -> int) -> int {
    match first {
        Ok((a, p)) => rest(a, p),
        Err(_) => here,
    }
}

/// A boolean: the `u32` is consumed when it is neither 0 nor 1.
pub open spec fn stop_bool(s: Seq<u8>, at: int) -> int {
    stop_then(spec_u32(s, at), at, |v: u32, p: int| p)
}

/// `n` bytes and their padding: missing padding is reported after the bytes.
pub open spec fn stop_array(s: Seq<u8>, at: int, n: int) -> int {
    stop_then(spec_bytes(s, at, n), at, |b: Seq<u8>, p: int| p)
}

/// Variable-length opaque data.
pub open spec fn stop_vector(s: Seq<u8>, at: int) -> int {
    stop_then(spec_u32(s, at), at, |n: u32, p: int| stop_array(s, p, n as int))
}

/// Bounded opaque data: a length over the bound is consumed.
pub open spec fn stop_vec_max_size(s: Seq<u8>, at: int, max: int) -> int {
    stop_then(spec_u32(s, at), at, |n: u32, p: int| if n > max { p } else { stop_array(s, p, n as int) })
}

/// A string: bytes that are not UTF-8 are consumed.
pub open spec fn stop_string(s: Seq<u8>, at: int) -> int {
    stop_then(spec_vector(s, at), stop_vector(s, at), |b: Seq<u8>, p: int| p)
}

/// A bounded string.
pub open spec fn stop_string_max_size(s: Seq<u8>, at: int, max: int) -> int {
    stop_then(spec_vec_max_size(s, at, max), stop_vec_max_size(s, at, max), |b: Seq<u8>, p: int| p)
}

/// An optional `u32` or `u64`: the flag, then the value.
pub open spec fn stop_option(s: Seq<u8>, at: int) -> int {
    stop_then(spec_bool(s, at), stop_bool(s, at), |present: bool, p: int| p)
}

/// Two `u32`s in a row (device numbers, a time).
pub open spec fn stop_u32_pair(s: Seq<u8>, at: int) -> int {
    stop_then(spec_u32(s, at), at, |a: u32, p: int| p)
}

/// A time setting: the discriminant, then a time for a client time.
pub open spec fn stop_set_time(s: Seq<u8>, at: int) -> int {
    stop_then(spec_u32(s, at), at, |d: u32, p: int| if d == 2 { stop_u32_pair(s, p) } else { p })
}

/// Settable attributes.
pub open spec fn stop_sattr3(s: Seq<u8>, at: int) -> int {
    stop_then(spec_option_u32(s, at), stop_option(s, at), |mode: Option<u32>, p1: int|
        stop_then(spec_option_u32(s, p1), stop_option(s, p1), |uid: Option<u32>, p2: int|
            stop_then(spec_option_u32(s, p2), stop_option(s, p2), |gid: Option<u32>, p3: int|
                stop_then(spec_option_u64(s, p3), stop_option(s, p3), |size: Option<u64>, p4: int|
                    stop_then(spec_set_atime(s, p4), stop_set_time(s, p4), |a: nfsv3::set_atime, p5: int|
                        stop_set_time(s, p5))))))
}

/// A file handle: a length other than the handle size is consumed.
pub open spec fn stop_nfs_fh3(s: Seq<u8>, at: int) -> int {
    stop_then(spec_u32(s, at), at, |len: u32, p: int|
        if len != NFS3_FHSIZE { p } else { stop_array(s, p, NFS3_FHSIZE as int) })
}

/// A directory handle and a name.
pub open spec fn stop_diropargs3(s: Seq<u8>, at: int) -> int {
    stop_then(spec_nfs_fh3(s, at), stop_nfs_fh3(s, at), |d: Seq<u8>, p: int| stop_string(s, p))
}

/// A creation mode: the discriminant, then attributes or a verifier.
pub open spec fn stop_createhow3(s: Seq<u8>, at: int) -> int {
    stop_then(spec_u32(s, at), at, |d: u32, p: int|
        if d == 0 || d == 1 {
            stop_sattr3(s, p)
        } else if d == 2 {
            stop_array(s, p, NFS3_CREATEVERFSIZE as int)
        } else {
            p
        })
}

/// Attributes, then a symbolic link's target.
pub open spec fn stop_symlinkdata3(s: Seq<u8>, at: int) -> int {
    stop_then(spec_sattr3(s, at), stop_sattr3(s, at), |a: nfsv3::sattr3, p: int| stop_string(s, p))
}

/// Attributes, then device numbers.
pub open spec fn stop_devicedata3(s: Seq<u8>, at: int) -> int {
    stop_then(spec_sattr3(s, at), stop_sattr3(s, at), |a: nfsv3::sattr3, p: int| stop_u32_pair(s, p))
}

/// A `u32` discriminant: an unknown one is consumed.
pub open spec fn stop_discriminant(s: Seq<u8>, at: int) -> int {
    stop_then(spec_u32(s, at), at, |d: u32, p: int| p)
}

/// A special file's description: its type, then what that type carries.
pub open spec fn stop_mknoddata3(s: Seq<u8>, at: int) -> int {
    stop_then(spec_ftype3(s, at), stop_discriminant(s, at), |t: nfsv3::ftype3, p: int|
        match t {
            nfsv3::ftype3::NF3BLK | nfsv3::ftype3::NF3CHR => stop_devicedata3(s, p),
            nfsv3::ftype3::NF3SOCK | nfsv3::ftype3::NF3FIFO => stop_sattr3(s, p),
            _ => p,
        })
}

/// An optional time.
pub open spec fn stop_option_nfstime(s: Seq<u8>, at: int) -> int {
    stop_then(spec_bool(s, at), stop_bool(s, at), |present: bool, p: int|
        if present { stop_u32_pair(s, p) } else { p })
}

/// A credential: the flavor, then a body of bounded length.
pub open spec fn stop_auth(s: Seq<u8>, at: int) -> int {
    stop_then(spec_auth_flavor(s, at), stop_discriminant(s, at), |f: crate::rpc::AuthFlavor, p: int|
        stop_vec_max_size(s, p, MAX_AUTH_SIZE as int))
}

/// A file handle, then what follows it.
pub open spec fn stop_after_handle(s: Seq<u8>, at: int, rest: spec_fn(int) -> int) -> int {
    stop_then(spec_nfs_fh3(s, at), stop_nfs_fh3(s, at), |h: Seq<u8>, p: int| rest(p))
}

/// A directory handle and name, then what follows them.
pub open spec fn stop_after_dirop(s: Seq<u8>, at: int, rest: spec_fn(int) -> int) -> int {
    stop_then(spec_diropargs3(s, at), stop_diropargs3(s, at), |d: (Seq<u8>, Seq<char>), p: int| rest(p))
}

/// A `u64`, then what follows it.
pub open spec fn stop_after_u64(s: Seq<u8>, at: int, rest: spec_fn(int) -> int) -> int {
    stop_then(spec_u64(s, at), at, |v: u64, p: int| rest(p))
}

/// A `u32`, then what follows it.
pub open spec fn stop_after_u32(s: Seq<u8>, at: int, rest: spec_fn(int) -> int) -> int {
    stop_then(spec_u32(s, at), at, |v: u32, p: int| rest(p))
}

/// An eight-byte verifier, then what follows it.
pub open spec fn stop_after_verf8(s: Seq<u8>, at: int, rest: spec_fn(int) -> int) -> int {
    stop_then(spec_bytes(s, at, 8), at, |v: Seq<u8>, p: int| rest(p))
}

/// The arguments of the NFSv3 procedure `procedure` (RFC 1813 section 3.3).
pub open spec fn stop_nfs_args(s: Seq<u8>, at: int, procedure: u32) -> int {
    if procedure == nfsv3::GETATTR || procedure == nfsv3::READLINK || procedure == nfsv3::FSSTAT
        || procedure == nfsv3::FSINFO || procedure == nfsv3::PATHCONF {
        stop_nfs_fh3(s, at)
    } else if procedure == nfsv3::SETATTR {
        stop_after_handle(s, at, |p1: int|
            stop_then(spec_sattr3(s, p1), stop_sattr3(s, p1), |a: nfsv3::sattr3, p2: int|
                stop_option_nfstime(s, p2)))
    } else if procedure == nfsv3::LOOKUP || procedure == nfsv3::REMOVE || procedure == nfsv3::RMDIR {
        stop_diropargs3(s, at)
    } else if procedure == nfsv3::ACCESS {
        stop_after_handle(s, at, |p1: int| p1)
    } else if procedure == nfsv3::READ || procedure == nfsv3::COMMIT {
        stop_after_handle(s, at, |p1: int| stop_after_u64(s, p1, |p2: int| p2))
    } else if procedure == nfsv3::WRITE {
        stop_after_handle(s, at, |p1: int|
            stop_after_u64(s, p1, |p2: int|
                stop_after_u32(s, p2, |p3: int|
                    stop_then(spec_stable_how(s, p3), stop_discriminant(s, p3), |h: nfsv3::stable_how, p4: int|
                        stop_vector(s, p4)))))
    } else if procedure == nfsv3::CREATE {
        stop_after_dirop(s, at, |p1: int| stop_createhow3(s, p1))
    } else if procedure == nfsv3::MKDIR {
        stop_after_dirop(s, at, |p1: int| stop_sattr3(s, p1))
    } else if procedure == nfsv3::SYMLINK {
        stop_after_dirop(s, at, |p1: int| stop_symlinkdata3(s, p1))
    } else if procedure == nfsv3::MKNOD {
        stop_after_dirop(s, at, |p1: int| stop_mknoddata3(s, p1))
    } else if procedure == nfsv3::RENAME {
        stop_after_dirop(s, at, |p1: int| stop_diropargs3(s, p1))
    } else if procedure == nfsv3::LINK {
        stop_after_handle(s, at, |p1: int| stop_diropargs3(s, p1))
    } else if procedure == nfsv3::READDIR {
        stop_after_handle(s, at, |p1: int| stop_after_u64(s, p1, |p2: int| stop_after_verf8(s, p2, |p3: int| p3)))
    } else if procedure == nfsv3::READDIRPLUS {
        stop_after_handle(s, at, |p1: int|
            stop_after_u64(s, p1, |p2: int| stop_after_verf8(s, p2, |p3: int| stop_after_u32(s, p3, |p4: int| p4))))
    } else {
        at
    }
}

/// The arguments of the MOUNT procedure `procedure`: a directory path for
/// `MNT` and `UMNT`, nothing for the others.
pub open spec fn stop_mount_args(s: Seq<u8>, at: int, procedure: u32) -> int {
    if procedure == 1 || procedure == 3 {
        stop_string_max_size(s, at, MOUNT_DIRPATH_LEN as int)
    } else {
        at
    }
}

} // verus!
