//! Parsing of the XDR structures of NFSv3 (RFC 1813) and of the arguments of
//! its procedures.
use vstd::prelude::*;

use crate::nfsv3::{self, CreateHowView};
use crate::parser::cursor::{parsed_as, spec_u32, spec_u64, Cursor};
use crate::parser::primitive::{
    self, spec_array, spec_bool, spec_option_u32, spec_option_u64, spec_string,
};
use crate::parser::stop::{
    stop_createhow3, stop_devicedata3, stop_diropargs3, stop_discriminant, stop_mknoddata3, stop_nfs_fh3, stop_sattr3, stop_set_time, stop_symlinkdata3, stop_u32_pair,
};
use crate::rpc::{and_then, Error, Parsed};

verus! {

/// `specdata3`: two `u32`.
pub open spec fn spec_specdata3(s: Seq<u8>, at: int) -> Parsed<nfsv3::specdata3> {
    and_then(spec_u32(s, at), |a: u32, p: int|
        and_then(spec_u32(s, p), |b: u32, q: int|
            Ok((nfsv3::specdata3 { specdata1: a, specdata2: b }, q))))
}

/// `nfstime3`: seconds and nanoseconds.
pub open spec fn spec_nfstime(s: Seq<u8>, at: int) -> Parsed<nfsv3::nfstime3> {
    and_then(spec_u32(s, at), |a: u32, p: int|
        and_then(spec_u32(s, p), |b: u32, q: int|
            Ok((nfsv3::nfstime3 { seconds: a, nseconds: b }, q))))
}

/// `set_atime`: a discriminant 0, 1 or 2, the time after 2.
pub open spec fn spec_set_atime(s: Seq<u8>, at: int) -> Parsed<nfsv3::set_atime> {
    and_then(spec_u32(s, at), |d: u32, p: int|
        if d == 0 {
            Ok((nfsv3::set_atime::DONT_CHANGE, p))
        } else if d == 1 {
            Ok((nfsv3::set_atime::SET_TO_SERVER_TIME, p))
        } else if d == 2 {
            and_then(spec_nfstime(s, p), |t: nfsv3::nfstime3, q: int|
                Ok((nfsv3::set_atime::SET_TO_CLIENT_TIME(t), q)))
        } else {
            Err(Error::EnumDiscMismatch)
        })
}

/// `set_mtime`: a discriminant 0, 1 or 2, the time after 2.
pub open spec fn spec_set_mtime(s: Seq<u8>, at: int) -> Parsed<nfsv3::set_mtime> {
    and_then(spec_u32(s, at), |d: u32, p: int|
        if d == 0 {
            Ok((nfsv3::set_mtime::DONT_CHANGE, p))
        } else if d == 1 {
            Ok((nfsv3::set_mtime::SET_TO_SERVER_TIME, p))
        } else if d == 2 {
            and_then(spec_nfstime(s, p), |t: nfsv3::nfstime3, q: int|
                Ok((nfsv3::set_mtime::SET_TO_CLIENT_TIME(t), q)))
        } else {
            Err(Error::EnumDiscMismatch)
        })
}

/// `sattr3`: four optional attributes and two time settings.
pub open spec fn spec_sattr3(s: Seq<u8>, at: int) -> Parsed<nfsv3::sattr3> {
    and_then(spec_option_u32(s, at), |mode: Option<u32>, p1: int|
        and_then(spec_option_u32(s, p1), |uid: Option<u32>, p2: int|
            and_then(spec_option_u32(s, p2), |gid: Option<u32>, p3: int|
                and_then(spec_option_u64(s, p3), |size: Option<u64>, p4: int|
                    and_then(spec_set_atime(s, p4), |atime: nfsv3::set_atime, p5: int|
                        and_then(spec_set_mtime(s, p5), |mtime: nfsv3::set_mtime, p6: int|
                            Ok((nfsv3::sattr3 { mode, uid, gid, size, atime, mtime }, p6))))))))
}

/// `nfs_fh3`: opaque data that must be exactly [`nfsv3::NFS3_FHSIZE`] bytes long.
pub open spec fn spec_nfs_fh3(s: Seq<u8>, at: int) -> Parsed<Seq<u8>> {
    and_then(spec_u32(s, at), |len: u32, p: int|
        if len != nfsv3::NFS3_FHSIZE {
            Err(Error::BadFileHandle)
        } else {
            spec_array(s, p, nfsv3::NFS3_FHSIZE as int)
        })
}

/// `diropargs3`: a directory handle and a name.
pub open spec fn spec_diropargs3(s: Seq<u8>, at: int) -> Parsed<(Seq<u8>, Seq<char>)> {
    and_then(spec_nfs_fh3(s, at), |dir: Seq<u8>, p: int|
        and_then(spec_string(s, p), |name: Seq<char>, q: int| Ok(((dir, name), q))))
}

/// `createhow3`: a mode 0, 1 or 2 with attributes or a verifier.
pub open spec fn spec_createhow3(s: Seq<u8>, at: int) -> Parsed<CreateHowView> {
    and_then(spec_u32(s, at), |d: u32, p: int|
        if d == 0 {
            and_then(spec_sattr3(s, p), |a: nfsv3::sattr3, q: int|
                Ok((CreateHowView::Unchecked(a), q)))
        } else if d == 1 {
            and_then(spec_sattr3(s, p), |a: nfsv3::sattr3, q: int|
                Ok((CreateHowView::Guarded(a), q)))
        } else if d == 2 {
            and_then(spec_array(s, p, nfsv3::NFS3_CREATEVERFSIZE as int), |v: Seq<u8>, q: int|
                Ok((CreateHowView::Exclusive(v), q)))
        } else {
            Err(Error::EnumDiscMismatch)
        })
}

/// `symlinkdata3`: attributes and the link's target.
pub open spec fn spec_symlinkdata3(s: Seq<u8>, at: int) -> Parsed<(nfsv3::sattr3, Seq<char>)> {
    and_then(spec_sattr3(s, at), |a: nfsv3::sattr3, p: int|
        and_then(spec_string(s, p), |t: Seq<char>, q: int| Ok(((a, t), q))))
}

/// `devicedata3`: attributes and device numbers.
pub open spec fn spec_devicedata3(s: Seq<u8>, at: int) -> Parsed<nfsv3::devicedata3> {
    and_then(spec_sattr3(s, at), |a: nfsv3::sattr3, p: int|
        and_then(spec_specdata3(s, p), |d: nfsv3::specdata3, q: int|
            Ok((nfsv3::devicedata3 { dev_attributes: a, spec: d }, q))))
}

/// A file type discriminant.
pub open spec fn spec_ftype3(s: Seq<u8>, at: int) -> Parsed<nfsv3::ftype3> {
    and_then(spec_u32(s, at), |d: u32, p: int|
        match nfsv3::ftype3_of(d) {
            Some(t) => Ok((t, p)),
            None => Err(Error::EnumDiscMismatch),
        })
}

/// `mknoddata3`: a file type and what that type carries.
pub open spec fn spec_mknoddata3(s: Seq<u8>, at: int) -> Parsed<nfsv3::mknoddata3> {
    and_then(spec_ftype3(s, at), |t: nfsv3::ftype3, p: int|
        match t {
            nfsv3::ftype3::NF3REG => Ok((nfsv3::mknoddata3::NF3REG, p)),
            nfsv3::ftype3::NF3DIR => Ok((nfsv3::mknoddata3::NF3DIR, p)),
            nfsv3::ftype3::NF3LNK => Ok((nfsv3::mknoddata3::NF3LNK, p)),
            nfsv3::ftype3::NF3BLK => and_then(spec_devicedata3(s, p), |d: nfsv3::devicedata3, q: int|
                Ok((nfsv3::mknoddata3::NF3BLK(d), q))),
            nfsv3::ftype3::NF3CHR => and_then(spec_devicedata3(s, p), |d: nfsv3::devicedata3, q: int|
                Ok((nfsv3::mknoddata3::NF3CHR(d), q))),
            nfsv3::ftype3::NF3SOCK => and_then(spec_sattr3(s, p), |a: nfsv3::sattr3, q: int|
                Ok((nfsv3::mknoddata3::NF3SOCK(a), q))),
            nfsv3::ftype3::NF3FIFO => and_then(spec_sattr3(s, p), |a: nfsv3::sattr3, q: int|
                Ok((nfsv3::mknoddata3::NF3FIFO(a), q))),
        })
}

/// A stability level discriminant.
pub open spec fn spec_stable_how(s: Seq<u8>, at: int) -> Parsed<nfsv3::stable_how> {
    and_then(spec_u32(s, at), |d: u32, p: int|
        match nfsv3::stable_how_of(d) {
            Some(t) => Ok((t, p)),
            None => Err(Error::EnumDiscMismatch),
        })
}

/// Parses `specdata3`.
pub fn specdata3(src: &mut Cursor) -> (r: Result<nfsv3::specdata3, Error>)
    requires
        old(src).wf(),
    ensures
        parsed_as(*old(src), *final(src), r, spec_specdata3(old(src).bytes(), old(src).pos())),
        r is Err ==> final(src).pos() == stop_u32_pair(old(src).bytes(), old(src).pos()),
{
    let specdata1 = primitive::u32(src)?;
    let specdata2 = primitive::u32(src)?;
    Ok(nfsv3::specdata3 { specdata1, specdata2 })
}

/// Parses `nfstime3`.
pub fn nfstime(src: &mut Cursor) -> (r: Result<nfsv3::nfstime3, Error>)
    requires
        old(src).wf(),
    ensures
        parsed_as(*old(src), *final(src), r, spec_nfstime(old(src).bytes(), old(src).pos())),
        r is Err ==> final(src).pos() == stop_u32_pair(old(src).bytes(), old(src).pos()),
{
    let seconds = primitive::u32(src)?;
    let nseconds = primitive::u32(src)?;
    Ok(nfsv3::nfstime3 { seconds, nseconds })
}

/// Parses `set_atime`.
pub fn set_atime(src: &mut Cursor) -> (r: Result<nfsv3::set_atime, Error>)
    requires
        old(src).wf(),
    ensures
        parsed_as(*old(src), *final(src), r, spec_set_atime(old(src).bytes(), old(src).pos())),
        r is Err ==> final(src).pos() == stop_set_time(old(src).bytes(), old(src).pos()),
{
    let d = primitive::u32(src)?;
    if d == 0 {
        Ok(nfsv3::set_atime::DONT_CHANGE)
    } else if d == 1 {
        Ok(nfsv3::set_atime::SET_TO_SERVER_TIME)
    } else if d == 2 {
        Ok(nfsv3::set_atime::SET_TO_CLIENT_TIME(nfstime(src)?))
    } else {
        Err(Error::EnumDiscMismatch)
    }
}

/// Parses `set_mtime`.
pub fn set_mtime(src: &mut Cursor) -> (r: Result<nfsv3::set_mtime, Error>)
    requires
        old(src).wf(),
    ensures
        parsed_as(*old(src), *final(src), r, spec_set_mtime(old(src).bytes(), old(src).pos())),
        r is Err ==> final(src).pos() == stop_set_time(old(src).bytes(), old(src).pos()),
{
    let d = primitive::u32(src)?;
    if d == 0 {
        Ok(nfsv3::set_mtime::DONT_CHANGE)
    } else if d == 1 {
        Ok(nfsv3::set_mtime::SET_TO_SERVER_TIME)
    } else if d == 2 {
        Ok(nfsv3::set_mtime::SET_TO_CLIENT_TIME(nfstime(src)?))
    } else {
        Err(Error::EnumDiscMismatch)
    }
}

/// Parses `sattr3`.
pub fn sattr3(src: &mut Cursor) -> (r: Result<nfsv3::sattr3, Error>)
    requires
        old(src).wf(),
    ensures
        parsed_as(*old(src), *final(src), r, spec_sattr3(old(src).bytes(), old(src).pos())),
        r is Err ==> final(src).pos() == stop_sattr3(old(src).bytes(), old(src).pos()),
{
    let mode = primitive::option_u32(src)?;
    let uid = primitive::option_u32(src)?;
    let gid = primitive::option_u32(src)?;
    let size = primitive::option_u64(src)?;
    let atime = set_atime(src)?;
    let mtime = set_mtime(src)?;
    Ok(nfsv3::sattr3 { mode, uid, gid, size, atime, mtime })
}

/// Parses a file handle.
pub fn nfs_fh3(src: &mut Cursor) -> (r: Result<nfsv3::nfs_fh3, Error>)
    requires
        old(src).wf(),
    ensures
        parsed_as(*old(src), *final(src), r, spec_nfs_fh3(old(src).bytes(), old(src).pos())),
        r is Err ==> final(src).pos() == stop_nfs_fh3(old(src).bytes(), old(src).pos()),
{
    let len = primitive::u32(src)?;
    if len != 8 {
        return Err(Error::BadFileHandle);
    }
    let data = primitive::array::<8>(src)?;
    Ok(nfsv3::nfs_fh3 { data })
}

/// Parses `diropargs3`.
pub fn diropargs3(src: &mut Cursor) -> (r: Result<nfsv3::diropargs3, Error>)
    requires
        old(src).wf(),
    ensures
        parsed_as(*old(src), *final(src), r, spec_diropargs3(old(src).bytes(), old(src).pos())),
        r is Err ==> final(src).pos() == stop_diropargs3(old(src).bytes(), old(src).pos()),
{
    let dir = nfs_fh3(src)?;
    let name = primitive::string(src)?;
    Ok(nfsv3::diropargs3 { dir, name })
}

/// Parses `createhow3`.
pub fn createhow3(src: &mut Cursor) -> (r: Result<nfsv3::createhow3, Error>)
    requires
        old(src).wf(),
    ensures
        parsed_as(*old(src), *final(src), r, spec_createhow3(old(src).bytes(), old(src).pos())),
        r is Err ==> final(src).pos() == stop_createhow3(old(src).bytes(), old(src).pos()),
{
    let d = primitive::u32(src)?;
    if d == 0 {
        Ok(nfsv3::createhow3::UNCHECKED(sattr3(src)?))
    } else if d == 1 {
        Ok(nfsv3::createhow3::GUARDED(sattr3(src)?))
    } else if d == 2 {
        Ok(nfsv3::createhow3::EXCLUSIVE(primitive::array::<8>(src)?))
    } else {
        Err(Error::EnumDiscMismatch)
    }
}

/// Parses `symlinkdata3`.
pub fn symlinkdata3(src: &mut Cursor) -> (r: Result<nfsv3::symlinkdata3, Error>)
    requires
        old(src).wf(),
    ensures
        parsed_as(*old(src), *final(src), r, spec_symlinkdata3(old(src).bytes(), old(src).pos())),
        r is Err ==> final(src).pos() == stop_symlinkdata3(old(src).bytes(), old(src).pos()),
{
    let symlink_attributes = sattr3(src)?;
    let symlink_data = primitive::string(src)?;
    Ok(nfsv3::symlinkdata3 { symlink_attributes, symlink_data })
}

/// Parses `devicedata3`.
pub fn devicedata3(src: &mut Cursor) -> (r: Result<nfsv3::devicedata3, Error>)
    requires
        old(src).wf(),
    ensures
        parsed_as(*old(src), *final(src), r, spec_devicedata3(old(src).bytes(), old(src).pos())),
        r is Err ==> final(src).pos() == stop_devicedata3(old(src).bytes(), old(src).pos()),
{
    let dev_attributes = sattr3(src)?;
    let spec = specdata3(src)?;
    Ok(nfsv3::devicedata3 { dev_attributes, spec })
}

/// Parses a file type discriminant.
pub fn ftype3(src: &mut Cursor) -> (r: Result<nfsv3::ftype3, Error>)
    requires
        old(src).wf(),
    ensures
        parsed_as(*old(src), *final(src), r, spec_ftype3(old(src).bytes(), old(src).pos())),
        r is Err ==> final(src).pos() == stop_discriminant(old(src).bytes(), old(src).pos()),
{
    let d = primitive::u32(src)?;
    match nfsv3::ftype3::from_u32(d) {
        Some(t) => Ok(t),
        None => Err(Error::EnumDiscMismatch),
    }
}

/// Parses `mknoddata3`.
pub fn mknoddata3(src: &mut Cursor) -> (r: Result<nfsv3::mknoddata3, Error>)
    requires
        old(src).wf(),
    ensures
        parsed_as(*old(src), *final(src), r, spec_mknoddata3(old(src).bytes(), old(src).pos())),
        r is Err ==> final(src).pos() == stop_mknoddata3(old(src).bytes(), old(src).pos()),
{
    let t = ftype3(src)?;
    match t {
        nfsv3::ftype3::NF3REG => Ok(nfsv3::mknoddata3::NF3REG),
        nfsv3::ftype3::NF3DIR => Ok(nfsv3::mknoddata3::NF3DIR),
        nfsv3::ftype3::NF3LNK => Ok(nfsv3::mknoddata3::NF3LNK),
        nfsv3::ftype3::NF3BLK => Ok(nfsv3::mknoddata3::NF3BLK(devicedata3(src)?)),
        nfsv3::ftype3::NF3CHR => Ok(nfsv3::mknoddata3::NF3CHR(devicedata3(src)?)),
        nfsv3::ftype3::NF3SOCK => Ok(nfsv3::mknoddata3::NF3SOCK(sattr3(src)?)),
        nfsv3::ftype3::NF3FIFO => Ok(nfsv3::mknoddata3::NF3FIFO(sattr3(src)?)),
    }
}

/// Parses a stability level.
pub fn stable_how(src: &mut Cursor) -> (r: Result<nfsv3::stable_how, Error>)
    requires
        old(src).wf(),
    ensures
        parsed_as(*old(src), *final(src), r, spec_stable_how(old(src).bytes(), old(src).pos())),
        r is Err ==> final(src).pos() == stop_discriminant(old(src).bytes(), old(src).pos()),
{
    let d = primitive::u32(src)?;
    match nfsv3::stable_how::from_u32(d) {
        Some(t) => Ok(t),
        None => Err(Error::EnumDiscMismatch),
    }
}

} // verus!
