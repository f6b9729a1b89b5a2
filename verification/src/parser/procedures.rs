//! Parsing of the arguments of each NFSv3 procedure (RFC 1813 section 3.3).
use vstd::prelude::*;

use crate::nfsv3::{self, CreateHowView};
use crate::parser::cursor::{parsed_as, spec_u32, spec_u64, Cursor};
use crate::parser::nfsv3::{
    createhow3, diropargs3, mknoddata3, nfs_fh3, nfstime, sattr3, spec_createhow3,
    spec_diropargs3, spec_mknoddata3, spec_nfs_fh3, spec_nfstime, spec_sattr3, spec_stable_how,
    spec_symlinkdata3, stable_how, symlinkdata3,
};
use crate::parser::primitive::{self, spec_array, spec_bool, spec_vector};
use crate::parser::stop::{stop_nfs_args, stop_option_nfstime};
use crate::rpc::{and_then, Error, Parsed};

verus! {

/// An optional time: a boolean, then the time when it is true.
pub open spec fn spec_option_nfstime(s: Seq<u8>, at: int) -> Parsed<Option<nfsv3::nfstime3>> {
    and_then(spec_bool(s, at), |present: bool, p: int|
        if present {
            and_then(spec_nfstime(s, p), |t: nfsv3::nfstime3, q: int| Ok((Some(t), q)))
        } else {
            Ok((None, p))
        })
}

/// An eight-byte verifier.
pub open spec fn spec_verf8(s: Seq<u8>, at: int) -> Parsed<Seq<u8>> {
    spec_array(s, at, 8)
}

/// Parses an optional time.
pub fn option_nfstime(src: &mut Cursor) -> (r: Result<Option<nfsv3::nfstime3>, Error>)
    requires
        old(src).wf(),
    ensures
        parsed_as(*old(src), *final(src), r, spec_option_nfstime(old(src).bytes(), old(src).pos())),
        r is Err ==> final(src).pos() == stop_option_nfstime(old(src).bytes(), old(src).pos()),
{
    if primitive::bool(src)? {
        Ok(Some(nfstime(src)?))
    } else {
        Ok(None)
    }
}
/// Arguments of `GETATTR`.
pub open spec fn spec_get_attr_args(s: Seq<u8>, at: int) -> Parsed<Seq<u8>> {
    and_then(spec_nfs_fh3(s, at), |v0: Seq<u8>, p1: int|
        Ok((v0, p1)))
}

/// Parses the arguments of `GETATTR`.
pub fn get_attr_args(src: &mut Cursor) -> (r: Result<nfsv3::GetAttrArgs, Error>)
    requires
        old(src).wf(),
    ensures
        parsed_as(*old(src), *final(src), r, spec_get_attr_args(old(src).bytes(), old(src).pos())),
        r is Err ==> final(src).pos() == stop_nfs_args(old(src).bytes(), old(src).pos(), nfsv3::GETATTR),
{
    let object = nfs_fh3(src)?;
    Ok(nfsv3::GetAttrArgs { object })
}

/// Arguments of `SETATTR`.
pub open spec fn spec_set_attr_args(s: Seq<u8>, at: int) -> Parsed<(Seq<u8>, nfsv3::sattr3, Option<nfsv3::nfstime3>)> {
    and_then(spec_nfs_fh3(s, at), |v0: Seq<u8>, p1: int|
        and_then(spec_sattr3(s, p1), |v1: nfsv3::sattr3, p2: int|
        and_then(spec_option_nfstime(s, p2), |v2: Option<nfsv3::nfstime3>, p3: int|
        Ok(((v0, v1, v2), p3)))))
}

/// Parses the arguments of `SETATTR`.
pub fn set_attr_args(src: &mut Cursor) -> (r: Result<nfsv3::SetAttrArgs, Error>)
    requires
        old(src).wf(),
    ensures
        parsed_as(*old(src), *final(src), r, spec_set_attr_args(old(src).bytes(), old(src).pos())),
        r is Err ==> final(src).pos() == stop_nfs_args(old(src).bytes(), old(src).pos(), nfsv3::SETATTR),
{
    let object = nfs_fh3(src)?;
    let new_attributes = sattr3(src)?;
    let guard = option_nfstime(src)?;
    Ok(nfsv3::SetAttrArgs { object, new_attributes, guard })
}

/// Arguments of `LOOKUP`.
pub open spec fn spec_lookup_args(s: Seq<u8>, at: int) -> Parsed<(Seq<u8>, Seq<char>)> {
    and_then(spec_diropargs3(s, at), |v0: (Seq<u8>, Seq<char>), p1: int|
        Ok((v0, p1)))
}

/// Parses the arguments of `LOOKUP`.
pub fn lookup_args(src: &mut Cursor) -> (r: Result<nfsv3::LookUpArgs, Error>)
    requires
        old(src).wf(),
    ensures
        parsed_as(*old(src), *final(src), r, spec_lookup_args(old(src).bytes(), old(src).pos())),
        r is Err ==> final(src).pos() == stop_nfs_args(old(src).bytes(), old(src).pos(), nfsv3::LOOKUP),
{
    let what = diropargs3(src)?;
    Ok(nfsv3::LookUpArgs { what })
}

/// Arguments of `ACCESS`.
pub open spec fn spec_access_args(s: Seq<u8>, at: int) -> Parsed<(Seq<u8>, u32)> {
    and_then(spec_nfs_fh3(s, at), |v0: Seq<u8>, p1: int|
        and_then(spec_u32(s, p1), |v1: u32, p2: int|
        Ok(((v0, v1), p2))))
}

/// Parses the arguments of `ACCESS`.
pub fn access_args(src: &mut Cursor) -> (r: Result<nfsv3::AccessArgs, Error>)
    requires
        old(src).wf(),
    ensures
        parsed_as(*old(src), *final(src), r, spec_access_args(old(src).bytes(), old(src).pos())),
        r is Err ==> final(src).pos() == stop_nfs_args(old(src).bytes(), old(src).pos(), nfsv3::ACCESS),
{
    let object = nfs_fh3(src)?;
    let access = primitive::u32(src)?;
    Ok(nfsv3::AccessArgs { object, access })
}

/// Arguments of `READLINK`.
pub open spec fn spec_read_link_args(s: Seq<u8>, at: int) -> Parsed<Seq<u8>> {
    and_then(spec_nfs_fh3(s, at), |v0: Seq<u8>, p1: int|
        Ok((v0, p1)))
}

/// Parses the arguments of `READLINK`.
pub fn read_link_args(src: &mut Cursor) -> (r: Result<nfsv3::ReadLinkArgs, Error>)
    requires
        old(src).wf(),
    ensures
        parsed_as(*old(src), *final(src), r, spec_read_link_args(old(src).bytes(), old(src).pos())),
        r is Err ==> final(src).pos() == stop_nfs_args(old(src).bytes(), old(src).pos(), nfsv3::READLINK),
{
    let symlink = nfs_fh3(src)?;
    Ok(nfsv3::ReadLinkArgs { symlink })
}

/// Arguments of `READ`.
pub open spec fn spec_read_args(s: Seq<u8>, at: int) -> Parsed<(Seq<u8>, u64, u32)> {
    and_then(spec_nfs_fh3(s, at), |v0: Seq<u8>, p1: int|
        and_then(spec_u64(s, p1), |v1: u64, p2: int|
        and_then(spec_u32(s, p2), |v2: u32, p3: int|
        Ok(((v0, v1, v2), p3)))))
}

/// Parses the arguments of `READ`.
pub fn read_args(src: &mut Cursor) -> (r: Result<nfsv3::ReadArgs, Error>)
    requires
        old(src).wf(),
    ensures
        parsed_as(*old(src), *final(src), r, spec_read_args(old(src).bytes(), old(src).pos())),
        r is Err ==> final(src).pos() == stop_nfs_args(old(src).bytes(), old(src).pos(), nfsv3::READ),
{
    let file = nfs_fh3(src)?;
    let offset = primitive::u64(src)?;
    let count = primitive::u32(src)?;
    Ok(nfsv3::ReadArgs { file, offset, count })
}

/// Arguments of `WRITE`.
pub open spec fn spec_write_args(s: Seq<u8>, at: int) -> Parsed<(Seq<u8>, u64, u32, nfsv3::stable_how, Seq<u8>)> {
    and_then(spec_nfs_fh3(s, at), |v0: Seq<u8>, p1: int|
        and_then(spec_u64(s, p1), |v1: u64, p2: int|
        and_then(spec_u32(s, p2), |v2: u32, p3: int|
        and_then(spec_stable_how(s, p3), |v3: nfsv3::stable_how, p4: int|
        and_then(spec_vector(s, p4), |v4: Seq<u8>, p5: int|
        Ok(((v0, v1, v2, v3, v4), p5)))))))
}

/// Parses the arguments of `WRITE`.
pub fn write_args(src: &mut Cursor) -> (r: Result<nfsv3::WriteArgs, Error>)
    requires
        old(src).wf(),
    ensures
        parsed_as(*old(src), *final(src), r, spec_write_args(old(src).bytes(), old(src).pos())),
        r is Err ==> final(src).pos() == stop_nfs_args(old(src).bytes(), old(src).pos(), nfsv3::WRITE),
{
    let file = nfs_fh3(src)?;
    let offset = primitive::u64(src)?;
    let count = primitive::u32(src)?;
    let stable = stable_how(src)?;
    let data = primitive::vector(src)?;
    Ok(nfsv3::WriteArgs { file, offset, count, stable, data })
}

/// Arguments of `CREATE`.
pub open spec fn spec_create_args(s: Seq<u8>, at: int) -> Parsed<((Seq<u8>, Seq<char>), CreateHowView)> {
    and_then(spec_diropargs3(s, at), |v0: (Seq<u8>, Seq<char>), p1: int|
        and_then(spec_createhow3(s, p1), |v1: CreateHowView, p2: int|
        Ok(((v0, v1), p2))))
}

/// Parses the arguments of `CREATE`.
pub fn create_args(src: &mut Cursor) -> (r: Result<nfsv3::CreateArgs, Error>)
    requires
        old(src).wf(),
    ensures
        parsed_as(*old(src), *final(src), r, spec_create_args(old(src).bytes(), old(src).pos())),
        r is Err ==> final(src).pos() == stop_nfs_args(old(src).bytes(), old(src).pos(), nfsv3::CREATE),
{
    let object = diropargs3(src)?;
    let how = createhow3(src)?;
    Ok(nfsv3::CreateArgs { object, how })
}

/// Arguments of `MKDIR`.
pub open spec fn spec_mk_dir_args(s: Seq<u8>, at: int) -> Parsed<((Seq<u8>, Seq<char>), nfsv3::sattr3)> {
    and_then(spec_diropargs3(s, at), |v0: (Seq<u8>, Seq<char>), p1: int|
        and_then(spec_sattr3(s, p1), |v1: nfsv3::sattr3, p2: int|
        Ok(((v0, v1), p2))))
}

/// Parses the arguments of `MKDIR`.
pub fn mk_dir_args(src: &mut Cursor) -> (r: Result<nfsv3::MkDirArgs, Error>)
    requires
        old(src).wf(),
    ensures
        parsed_as(*old(src), *final(src), r, spec_mk_dir_args(old(src).bytes(), old(src).pos())),
        r is Err ==> final(src).pos() == stop_nfs_args(old(src).bytes(), old(src).pos(), nfsv3::MKDIR),
{
    let object = diropargs3(src)?;
    let attributes = sattr3(src)?;
    Ok(nfsv3::MkDirArgs { object, attributes })
}

/// Arguments of `SYMLINK`.
pub open spec fn spec_symlink_args(s: Seq<u8>, at: int) -> Parsed<((Seq<u8>, Seq<char>), (nfsv3::sattr3, Seq<char>))> {
    and_then(spec_diropargs3(s, at), |v0: (Seq<u8>, Seq<char>), p1: int|
        and_then(spec_symlinkdata3(s, p1), |v1: (nfsv3::sattr3, Seq<char>), p2: int|
        Ok(((v0, v1), p2))))
}

/// Parses the arguments of `SYMLINK`.
pub fn symlink_args(src: &mut Cursor) -> (r: Result<nfsv3::SymLinkArgs, Error>)
    requires
        old(src).wf(),
    ensures
        parsed_as(*old(src), *final(src), r, spec_symlink_args(old(src).bytes(), old(src).pos())),
        r is Err ==> final(src).pos() == stop_nfs_args(old(src).bytes(), old(src).pos(), nfsv3::SYMLINK),
{
    let object = diropargs3(src)?;
    let symlink = symlinkdata3(src)?;
    Ok(nfsv3::SymLinkArgs { object, symlink })
}

/// Arguments of `MKNOD`.
pub open spec fn spec_mk_node_args(s: Seq<u8>, at: int) -> Parsed<((Seq<u8>, Seq<char>), nfsv3::mknoddata3)> {
    and_then(spec_diropargs3(s, at), |v0: (Seq<u8>, Seq<char>), p1: int|
        and_then(spec_mknoddata3(s, p1), |v1: nfsv3::mknoddata3, p2: int|
        Ok(((v0, v1), p2))))
}

/// Parses the arguments of `MKNOD`.
pub fn mk_node_args(src: &mut Cursor) -> (r: Result<nfsv3::MkNodArgs, Error>)
    requires
        old(src).wf(),
    ensures
        parsed_as(*old(src), *final(src), r, spec_mk_node_args(old(src).bytes(), old(src).pos())),
        r is Err ==> final(src).pos() == stop_nfs_args(old(src).bytes(), old(src).pos(), nfsv3::MKNOD),
{
    let object = diropargs3(src)?;
    let what = mknoddata3(src)?;
    Ok(nfsv3::MkNodArgs { object, what })
}

/// Arguments of `REMOVE`.
pub open spec fn spec_remove_args(s: Seq<u8>, at: int) -> Parsed<(Seq<u8>, Seq<char>)> {
    and_then(spec_diropargs3(s, at), |v0: (Seq<u8>, Seq<char>), p1: int|
        Ok((v0, p1)))
}

/// Parses the arguments of `REMOVE`.
pub fn remove_args(src: &mut Cursor) -> (r: Result<nfsv3::RemoveArgs, Error>)
    requires
        old(src).wf(),
    ensures
        parsed_as(*old(src), *final(src), r, spec_remove_args(old(src).bytes(), old(src).pos())),
        r is Err ==> final(src).pos() == stop_nfs_args(old(src).bytes(), old(src).pos(), nfsv3::REMOVE),
{
    let object = diropargs3(src)?;
    Ok(nfsv3::RemoveArgs { object })
}

/// Arguments of `RMDIR`.
pub open spec fn spec_rm_dir_args(s: Seq<u8>, at: int) -> Parsed<(Seq<u8>, Seq<char>)> {
    and_then(spec_diropargs3(s, at), |v0: (Seq<u8>, Seq<char>), p1: int|
        Ok((v0, p1)))
}

/// Parses the arguments of `RMDIR`.
pub fn rm_dir_args(src: &mut Cursor) -> (r: Result<nfsv3::RmDirArgs, Error>)
    requires
        old(src).wf(),
    ensures
        parsed_as(*old(src), *final(src), r, spec_rm_dir_args(old(src).bytes(), old(src).pos())),
        r is Err ==> final(src).pos() == stop_nfs_args(old(src).bytes(), old(src).pos(), nfsv3::RMDIR),
{
    let object = diropargs3(src)?;
    Ok(nfsv3::RmDirArgs { object })
}

/// Arguments of `RENAME`.
pub open spec fn spec_rename_args(s: Seq<u8>, at: int) -> Parsed<((Seq<u8>, Seq<char>), (Seq<u8>, Seq<char>))> {
    and_then(spec_diropargs3(s, at), |v0: (Seq<u8>, Seq<char>), p1: int|
        and_then(spec_diropargs3(s, p1), |v1: (Seq<u8>, Seq<char>), p2: int|
        Ok(((v0, v1), p2))))
}

/// Parses the arguments of `RENAME`.
pub fn rename_args(src: &mut Cursor) -> (r: Result<nfsv3::RenameArgs, Error>)
    requires
        old(src).wf(),
    ensures
        parsed_as(*old(src), *final(src), r, spec_rename_args(old(src).bytes(), old(src).pos())),
        r is Err ==> final(src).pos() == stop_nfs_args(old(src).bytes(), old(src).pos(), nfsv3::RENAME),
{
    let from = diropargs3(src)?;
    let to = diropargs3(src)?;
    Ok(nfsv3::RenameArgs { from, to })
}

/// Arguments of `LINK`.
pub open spec fn spec_link_args(s: Seq<u8>, at: int) -> Parsed<(Seq<u8>, (Seq<u8>, Seq<char>))> {
    and_then(spec_nfs_fh3(s, at), |v0: Seq<u8>, p1: int|
        and_then(spec_diropargs3(s, p1), |v1: (Seq<u8>, Seq<char>), p2: int|
        Ok(((v0, v1), p2))))
}

/// Parses the arguments of `LINK`.
pub fn link_args(src: &mut Cursor) -> (r: Result<nfsv3::LinkArgs, Error>)
    requires
        old(src).wf(),
    ensures
        parsed_as(*old(src), *final(src), r, spec_link_args(old(src).bytes(), old(src).pos())),
        r is Err ==> final(src).pos() == stop_nfs_args(old(src).bytes(), old(src).pos(), nfsv3::LINK),
{
    let file = nfs_fh3(src)?;
    let link = diropargs3(src)?;
    Ok(nfsv3::LinkArgs { file, link })
}

/// Arguments of `READDIR`.
pub open spec fn spec_read_dir_args(s: Seq<u8>, at: int) -> Parsed<(Seq<u8>, u64, Seq<u8>, u32)> {
    and_then(spec_nfs_fh3(s, at), |v0: Seq<u8>, p1: int|
        and_then(spec_u64(s, p1), |v1: u64, p2: int|
        and_then(spec_verf8(s, p2), |v2: Seq<u8>, p3: int|
        and_then(spec_u32(s, p3), |v3: u32, p4: int|
        Ok(((v0, v1, v2, v3), p4))))))
}

/// Parses the arguments of `READDIR`.
pub fn read_dir_args(src: &mut Cursor) -> (r: Result<nfsv3::ReadDirArgs, Error>)
    requires
        old(src).wf(),
    ensures
        parsed_as(*old(src), *final(src), r, spec_read_dir_args(old(src).bytes(), old(src).pos())),
        r is Err ==> final(src).pos() == stop_nfs_args(old(src).bytes(), old(src).pos(), nfsv3::READDIR),
{
    let dir = nfs_fh3(src)?;
    let cookie = primitive::u64(src)?;
    let cookieverf = primitive::array::<8>(src)?;
    let count = primitive::u32(src)?;
    Ok(nfsv3::ReadDirArgs { dir, cookie, cookieverf, count })
}

/// Arguments of `READDIRPLUS`.
pub open spec fn spec_read_dir_plus_args(s: Seq<u8>, at: int) -> Parsed<(Seq<u8>, u64, Seq<u8>, u32, u32)> {
    and_then(spec_nfs_fh3(s, at), |v0: Seq<u8>, p1: int|
        and_then(spec_u64(s, p1), |v1: u64, p2: int|
        and_then(spec_verf8(s, p2), |v2: Seq<u8>, p3: int|
        and_then(spec_u32(s, p3), |v3: u32, p4: int|
        and_then(spec_u32(s, p4), |v4: u32, p5: int|
        Ok(((v0, v1, v2, v3, v4), p5)))))))
}

/// Parses the arguments of `READDIRPLUS`.
pub fn read_dir_plus_args(src: &mut Cursor) -> (r: Result<nfsv3::ReadDirPlusArgs, Error>)
    requires
        old(src).wf(),
    ensures
        parsed_as(*old(src), *final(src), r, spec_read_dir_plus_args(old(src).bytes(), old(src).pos())),
        r is Err ==> final(src).pos() == stop_nfs_args(old(src).bytes(), old(src).pos(), nfsv3::READDIRPLUS),
{
    let dir = nfs_fh3(src)?;
    let cookie = primitive::u64(src)?;
    let cookieverf = primitive::array::<8>(src)?;
    let dircount = primitive::u32(src)?;
    let maxcount = primitive::u32(src)?;
    Ok(nfsv3::ReadDirPlusArgs { dir, cookie, cookieverf, dircount, maxcount })
}

/// Arguments of `FSSTAT`.
pub open spec fn spec_fs_stat_args(s: Seq<u8>, at: int) -> Parsed<Seq<u8>> {
    and_then(spec_nfs_fh3(s, at), |v0: Seq<u8>, p1: int|
        Ok((v0, p1)))
}

/// Parses the arguments of `FSSTAT`.
pub fn fs_stat_args(src: &mut Cursor) -> (r: Result<nfsv3::FsStatArgs, Error>)
    requires
        old(src).wf(),
    ensures
        parsed_as(*old(src), *final(src), r, spec_fs_stat_args(old(src).bytes(), old(src).pos())),
        r is Err ==> final(src).pos() == stop_nfs_args(old(src).bytes(), old(src).pos(), nfsv3::FSSTAT),
{
    let root = nfs_fh3(src)?;
    Ok(nfsv3::FsStatArgs { root })
}

/// Arguments of `FSINFO`.
pub open spec fn spec_fs_info_args(s: Seq<u8>, at: int) -> Parsed<Seq<u8>> {
    and_then(spec_nfs_fh3(s, at), |v0: Seq<u8>, p1: int|
        Ok((v0, p1)))
}

/// Parses the arguments of `FSINFO`.
pub fn fs_info_args(src: &mut Cursor) -> (r: Result<nfsv3::FsInfoArgs, Error>)
    requires
        old(src).wf(),
    ensures
        parsed_as(*old(src), *final(src), r, spec_fs_info_args(old(src).bytes(), old(src).pos())),
        r is Err ==> final(src).pos() == stop_nfs_args(old(src).bytes(), old(src).pos(), nfsv3::FSINFO),
{
    let root = nfs_fh3(src)?;
    Ok(nfsv3::FsInfoArgs { root })
}

/// Arguments of `PATHCONF`.
pub open spec fn spec_path_conf_args(s: Seq<u8>, at: int) -> Parsed<Seq<u8>> {
    and_then(spec_nfs_fh3(s, at), |v0: Seq<u8>, p1: int|
        Ok((v0, p1)))
}

/// Parses the arguments of `PATHCONF`.
pub fn path_conf_args(src: &mut Cursor) -> (r: Result<nfsv3::PathConfArgs, Error>)
    requires
        old(src).wf(),
    ensures
        parsed_as(*old(src), *final(src), r, spec_path_conf_args(old(src).bytes(), old(src).pos())),
        r is Err ==> final(src).pos() == stop_nfs_args(old(src).bytes(), old(src).pos(), nfsv3::PATHCONF),
{
    let object = nfs_fh3(src)?;
    Ok(nfsv3::PathConfArgs { object })
}

/// Arguments of `COMMIT`.
pub open spec fn spec_commit_args(s: Seq<u8>, at: int) -> Parsed<(Seq<u8>, u64, u32)> {
    and_then(spec_nfs_fh3(s, at), |v0: Seq<u8>, p1: int|
        and_then(spec_u64(s, p1), |v1: u64, p2: int|
        and_then(spec_u32(s, p2), |v2: u32, p3: int|
        Ok(((v0, v1, v2), p3)))))
}

/// Parses the arguments of `COMMIT`.
pub fn commit_args(src: &mut Cursor) -> (r: Result<nfsv3::CommitArgs, Error>)
    requires
        old(src).wf(),
    ensures
        parsed_as(*old(src), *final(src), r, spec_commit_args(old(src).bytes(), old(src).pos())),
        r is Err ==> final(src).pos() == stop_nfs_args(old(src).bytes(), old(src).pos(), nfsv3::COMMIT),
{
    let file = nfs_fh3(src)?;
    let offset = primitive::u64(src)?;
    let count = primitive::u32(src)?;
    Ok(nfsv3::CommitArgs { file, offset, count })
}

} // verus!
