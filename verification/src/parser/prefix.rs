//! Decoding reads forward only: once a parse succeeds on some bytes, bytes
//! that arrive after them cannot change what it gave. This is what lets a
//! connection decode a request as soon as its bytes are there, whatever
//! follows it in the stream.
use vstd::prelude::*;

use crate::encoding::{be32_at, be64_at};
use crate::parser::cursor::{spec_bytes, spec_skip, spec_u32, spec_u64, spec_u8};
use crate::parser::nfsv3::{
    spec_createhow3, spec_devicedata3, spec_diropargs3, spec_ftype3, spec_mknoddata3, spec_nfs_fh3,
    spec_nfstime, spec_sattr3, spec_set_atime, spec_set_mtime, spec_specdata3, spec_stable_how,
    spec_symlinkdata3,
};
use crate::parser::primitive::{
    spec_array, spec_bool, spec_option_u32, spec_option_u64, spec_padding, spec_string,
    spec_string_max_size, spec_vec_max_size, spec_vector,
};
use crate::parser::mount::spec_dirpath;
use crate::parser::parser_struct::{
    spec_call, spec_call_header, spec_call_target, spec_mount_args, spec_nfs_args,
    spec_parse_request, RequestOutcome,
};
use crate::parser::procedures::{
    spec_access_args, spec_commit_args, spec_create_args, spec_fs_info_args, spec_fs_stat_args,
    spec_get_attr_args, spec_link_args, spec_lookup_args, spec_mk_dir_args, spec_mk_node_args,
    spec_option_nfstime, spec_path_conf_args, spec_read_args, spec_read_dir_args,
    spec_read_dir_plus_args, spec_read_link_args, spec_remove_args, spec_rename_args,
    spec_rm_dir_args, spec_set_attr_args, spec_symlink_args, spec_verf8, spec_write_args,
};
use crate::parser::rpc::{spec_auth, spec_auth_flavor};
use crate::parser::cursor::eof;
use crate::parser::parser_struct::Stepped;
use crate::parser::stop::{
    stop_array, stop_auth, stop_bool, stop_createhow3, stop_devicedata3, stop_diropargs3,
    stop_discriminant, stop_mknoddata3, stop_mount_args, stop_nfs_args, stop_nfs_fh3, stop_option,
    stop_option_nfstime, stop_sattr3, stop_set_time, stop_string, stop_string_max_size,
    stop_symlinkdata3, stop_u32_pair, stop_vec_max_size, stop_vector,
};
use crate::rpc::{Error, Parsed};

verus! {

/// A parse result that more bytes cannot change: a success, or a failure
/// other than running out of bytes (which more bytes may cure) and other
/// than missing padding (which a short read also reports).
pub open spec fn settled<A>(r: Parsed<A>) -> bool {
    match r {
        Ok(_) => true,
        Err(e) => e != eof() && e != Error::IncorrectPadding,
    }
}

/// [`settled`] for a parse whose failure carries a position.
pub open spec fn settled_step<A>(r: Stepped<A>) -> bool {
    match r {
        Ok(_) => true,
        Err((e, _)) => e != eof() && e != Error::IncorrectPadding,
    }
}

/// Reading `n` bytes that are all there gives the same bytes whatever
/// follows them.
pub broadcast proof fn lemma_bytes_prefix(s: Seq<u8>, t: Seq<u8>, at: int, n: int)
    requires
        0 <= at,
        0 <= n,
        settled(spec_bytes(s, at, n)),
    ensures
        #[trigger] spec_bytes(s + t, at, n) == spec_bytes(s, at, n),
{
    assert((s + t).subrange(at, at + n) =~= s.subrange(at, at + n));
}

/// Skipping bytes that are all there succeeds whatever follows them.
pub broadcast proof fn lemma_skip_prefix(s: Seq<u8>, t: Seq<u8>, at: int, n: int, err: Error)
    requires
        spec_skip(s, at, n, err) is Ok,
    ensures
        #[trigger] spec_skip(s + t, at, n, err) == spec_skip(s, at, n, err),
{
}

/// A byte that is there reads the same whatever follows it.
pub broadcast proof fn lemma_u8_prefix(s: Seq<u8>, t: Seq<u8>, at: int)
    requires
        0 <= at,
        settled(spec_u8(s, at)),
    ensures
        #[trigger] spec_u8(s + t, at) == spec_u8(s, at),
{
}

/// A `u32` whose bytes are there reads the same whatever follows it.
pub broadcast proof fn lemma_u32_prefix(s: Seq<u8>, t: Seq<u8>, at: int)
    requires
        0 <= at,
        settled(spec_u32(s, at)),
    ensures
        #[trigger] spec_u32(s + t, at) == spec_u32(s, at),
{
    assert(be32_at(s + t, at) == be32_at(s, at));
}

/// A `u64` whose bytes are there reads the same whatever follows it.
pub broadcast proof fn lemma_u64_prefix(s: Seq<u8>, t: Seq<u8>, at: int)
    requires
        0 <= at,
        settled(spec_u64(s, at)),
    ensures
        #[trigger] spec_u64(s + t, at) == spec_u64(s, at),
{
    assert(be32_at(s + t, at) == be32_at(s, at));
    assert(be32_at(s + t, at + 4) == be32_at(s, at + 4));
    assert(be64_at(s + t, at) == be64_at(s, at));
}

/// The reads of the cursor.
pub broadcast group group_cursor_prefix {
    lemma_bytes_prefix,
    lemma_skip_prefix,
    lemma_u8_prefix,
    lemma_u32_prefix,
    lemma_u64_prefix,
}

/// Padding that is there is skipped whatever follows it.
pub broadcast proof fn lemma_padding_prefix(s: Seq<u8>, t: Seq<u8>, at: int, n: int)
    requires
        settled(spec_padding(s, at, n)),
    ensures
        #[trigger] spec_padding(s + t, at, n) == spec_padding(s, at, n),
{
    broadcast use group_cursor_prefix;
}

/// A boolean decodes the same whatever follows it.
pub broadcast proof fn lemma_bool_prefix(s: Seq<u8>, t: Seq<u8>, at: int)
    requires
        0 <= at,
        settled(spec_bool(s, at)),
    ensures
        #[trigger] spec_bool(s + t, at) == spec_bool(s, at),
{
    broadcast use group_cursor_prefix;
}

/// Fixed-length opaque data decodes the same whatever follows it.
pub broadcast proof fn lemma_array_prefix(s: Seq<u8>, t: Seq<u8>, at: int, n: int)
    requires
        0 <= at,
        0 <= n,
        settled(spec_array(s, at, n)),
    ensures
        #[trigger] spec_array(s + t, at, n) == spec_array(s, at, n),
{
    broadcast use group_cursor_prefix, lemma_padding_prefix;
}

/// Reads up to fixed-length opaque data.
pub broadcast group group_opaque_prefix {
    group_cursor_prefix,
    lemma_padding_prefix,
    lemma_bool_prefix,
    lemma_array_prefix,
}

/// Variable-length opaque data decodes the same whatever follows it.
pub broadcast proof fn lemma_vector_prefix(s: Seq<u8>, t: Seq<u8>, at: int)
    requires
        0 <= at,
        settled(spec_vector(s, at)),
    ensures
        #[trigger] spec_vector(s + t, at) == spec_vector(s, at),
{
    broadcast use group_opaque_prefix;
}

/// Bounded opaque data decodes the same whatever follows it.
pub broadcast proof fn lemma_vec_max_size_prefix(s: Seq<u8>, t: Seq<u8>, at: int, max: int)
    requires
        0 <= at,
        settled(spec_vec_max_size(s, at, max)),
    ensures
        #[trigger] spec_vec_max_size(s + t, at, max) == spec_vec_max_size(s, at, max),
{
    broadcast use group_opaque_prefix;
}

/// An optional `u32` decodes the same whatever follows it.
pub broadcast proof fn lemma_option_u32_prefix(s: Seq<u8>, t: Seq<u8>, at: int)
    requires
        0 <= at,
        settled(spec_option_u32(s, at)),
    ensures
        #[trigger] spec_option_u32(s + t, at) == spec_option_u32(s, at),
{
    broadcast use group_opaque_prefix;
}

/// An optional `u64` decodes the same whatever follows it.
pub broadcast proof fn lemma_option_u64_prefix(s: Seq<u8>, t: Seq<u8>, at: int)
    requires
        0 <= at,
        settled(spec_option_u64(s, at)),
    ensures
        #[trigger] spec_option_u64(s + t, at) == spec_option_u64(s, at),
{
    broadcast use group_opaque_prefix;
}

/// Reads up to variable-length data and optional integers.
pub broadcast group group_vector_prefix {
    group_opaque_prefix,
    lemma_vector_prefix,
    lemma_vec_max_size_prefix,
    lemma_option_u32_prefix,
    lemma_option_u64_prefix,
}

/// A string decodes the same whatever follows it.
pub broadcast proof fn lemma_string_prefix(s: Seq<u8>, t: Seq<u8>, at: int)
    requires
        0 <= at,
        settled(spec_string(s, at)),
    ensures
        #[trigger] spec_string(s + t, at) == spec_string(s, at),
{
    broadcast use group_vector_prefix;
}

/// A bounded string decodes the same whatever follows it.
pub broadcast proof fn lemma_string_max_size_prefix(s: Seq<u8>, t: Seq<u8>, at: int, max: int)
    requires
        0 <= at,
        settled(spec_string_max_size(s, at, max)),
    ensures
        #[trigger] spec_string_max_size(s + t, at, max) == spec_string_max_size(s, at, max),
{
    broadcast use group_vector_prefix;
}

/// All the XDR primitives.
pub broadcast group group_primitive_prefix {
    group_vector_prefix,
    lemma_string_prefix,
    lemma_string_max_size_prefix,
}

/// Device numbers decode the same whatever follows them.
pub broadcast proof fn lemma_specdata3_prefix(s: Seq<u8>, t: Seq<u8>, at: int)
    requires
        0 <= at,
        settled(spec_specdata3(s, at)),
    ensures
        #[trigger] spec_specdata3(s + t, at) == spec_specdata3(s, at),
{
    broadcast use group_primitive_prefix;
}

/// A time decodes the same whatever follows it.
pub broadcast proof fn lemma_nfstime_prefix(s: Seq<u8>, t: Seq<u8>, at: int)
    requires
        0 <= at,
        settled(spec_nfstime(s, at)),
    ensures
        #[trigger] spec_nfstime(s + t, at) == spec_nfstime(s, at),
{
    broadcast use group_primitive_prefix;
}

/// A file handle decodes the same whatever follows it.
pub broadcast proof fn lemma_nfs_fh3_prefix(s: Seq<u8>, t: Seq<u8>, at: int)
    requires
        0 <= at,
        settled(spec_nfs_fh3(s, at)),
    ensures
        #[trigger] spec_nfs_fh3(s + t, at) == spec_nfs_fh3(s, at),
{
    broadcast use group_primitive_prefix;
}

/// A file type decodes the same whatever follows it.
pub broadcast proof fn lemma_ftype3_prefix(s: Seq<u8>, t: Seq<u8>, at: int)
    requires
        0 <= at,
        settled(spec_ftype3(s, at)),
    ensures
        #[trigger] spec_ftype3(s + t, at) == spec_ftype3(s, at),
{
    broadcast use group_primitive_prefix;
}

/// A stability level decodes the same whatever follows it.
pub broadcast proof fn lemma_stable_how_prefix(s: Seq<u8>, t: Seq<u8>, at: int)
    requires
        0 <= at,
        settled(spec_stable_how(s, at)),
    ensures
        #[trigger] spec_stable_how(s + t, at) == spec_stable_how(s, at),
{
    broadcast use group_primitive_prefix;
}

/// The primitives and the NFSv3 types made of them alone.
pub broadcast group group_nfs_leaf_prefix {
    group_primitive_prefix,
    lemma_specdata3_prefix,
    lemma_nfstime_prefix,
    lemma_nfs_fh3_prefix,
    lemma_ftype3_prefix,
    lemma_stable_how_prefix,
}

/// An access time setting decodes the same whatever follows it.
pub broadcast proof fn lemma_set_atime_prefix(s: Seq<u8>, t: Seq<u8>, at: int)
    requires
        0 <= at,
        settled(spec_set_atime(s, at)),
    ensures
        #[trigger] spec_set_atime(s + t, at) == spec_set_atime(s, at),
{
    broadcast use group_nfs_leaf_prefix;
}

/// A modification time setting decodes the same whatever follows it.
pub broadcast proof fn lemma_set_mtime_prefix(s: Seq<u8>, t: Seq<u8>, at: int)
    requires
        0 <= at,
        settled(spec_set_mtime(s, at)),
    ensures
        #[trigger] spec_set_mtime(s + t, at) == spec_set_mtime(s, at),
{
    broadcast use group_nfs_leaf_prefix;
}

/// A directory and name decode the same whatever follows them.
pub broadcast proof fn lemma_diropargs3_prefix(s: Seq<u8>, t: Seq<u8>, at: int)
    requires
        0 <= at,
        settled(spec_diropargs3(s, at)),
    ensures
        #[trigger] spec_diropargs3(s + t, at) == spec_diropargs3(s, at),
{
    broadcast use group_nfs_leaf_prefix;
}

/// Up to time settings and directory arguments.
pub broadcast group group_nfs_field_prefix {
    group_nfs_leaf_prefix,
    lemma_set_atime_prefix,
    lemma_set_mtime_prefix,
    lemma_diropargs3_prefix,
}

/// Settable attributes decode the same whatever follows them.
pub broadcast proof fn lemma_sattr3_prefix(s: Seq<u8>, t: Seq<u8>, at: int)
    requires
        0 <= at,
        settled(spec_sattr3(s, at)),
    ensures
        #[trigger] spec_sattr3(s + t, at) == spec_sattr3(s, at),
{
    broadcast use group_nfs_field_prefix;
}

/// Up to settable attributes.
pub broadcast group group_sattr_prefix {
    group_nfs_field_prefix,
    lemma_sattr3_prefix,
}

/// A creation mode decodes the same whatever follows it.
pub broadcast proof fn lemma_createhow3_prefix(s: Seq<u8>, t: Seq<u8>, at: int)
    requires
        0 <= at,
        settled(spec_createhow3(s, at)),
    ensures
        #[trigger] spec_createhow3(s + t, at) == spec_createhow3(s, at),
{
    broadcast use group_sattr_prefix;
}

/// A symbolic link's attributes and target decode the same whatever follows them.
pub broadcast proof fn lemma_symlinkdata3_prefix(s: Seq<u8>, t: Seq<u8>, at: int)
    requires
        0 <= at,
        settled(spec_symlinkdata3(s, at)),
    ensures
        #[trigger] spec_symlinkdata3(s + t, at) == spec_symlinkdata3(s, at),
{
    broadcast use group_sattr_prefix;
}

/// A device's attributes and numbers decode the same whatever follows them.
pub broadcast proof fn lemma_devicedata3_prefix(s: Seq<u8>, t: Seq<u8>, at: int)
    requires
        0 <= at,
        settled(spec_devicedata3(s, at)),
    ensures
        #[trigger] spec_devicedata3(s + t, at) == spec_devicedata3(s, at),
{
    broadcast use group_sattr_prefix;
}

/// Up to creation modes, link targets and device data.
pub broadcast group group_nfs_data_prefix {
    group_sattr_prefix,
    lemma_createhow3_prefix,
    lemma_symlinkdata3_prefix,
    lemma_devicedata3_prefix,
}

/// A special file's description decodes the same whatever follows it.
pub broadcast proof fn lemma_mknoddata3_prefix(s: Seq<u8>, t: Seq<u8>, at: int)
    requires
        0 <= at,
        settled(spec_mknoddata3(s, at)),
    ensures
        #[trigger] spec_mknoddata3(s + t, at) == spec_mknoddata3(s, at),
{
    broadcast use group_nfs_data_prefix;
}

/// All the NFSv3 argument types.
pub broadcast group group_nfs_types_prefix {
    group_nfs_data_prefix,
    lemma_mknoddata3_prefix,
}

/// An optional time decodes the same whatever follows it.
pub broadcast proof fn lemma_option_nfstime_prefix(s: Seq<u8>, t: Seq<u8>, at: int)
    requires
        0 <= at,
        settled(spec_option_nfstime(s, at)),
    ensures
        #[trigger] spec_option_nfstime(s + t, at) == spec_option_nfstime(s, at),
{
    broadcast use group_nfs_types_prefix;
}

/// A verifier decodes the same whatever follows it.
pub broadcast proof fn lemma_verf8_prefix(s: Seq<u8>, t: Seq<u8>, at: int)
    requires
        0 <= at,
        settled(spec_verf8(s, at)),
    ensures
        #[trigger] spec_verf8(s + t, at) == spec_verf8(s, at),
{
    broadcast use group_nfs_types_prefix;
}

/// An authentication flavor decodes the same whatever follows it.
pub broadcast proof fn lemma_auth_flavor_prefix(s: Seq<u8>, t: Seq<u8>, at: int)
    requires
        0 <= at,
        settled(spec_auth_flavor(s, at)),
    ensures
        #[trigger] spec_auth_flavor(s + t, at) == spec_auth_flavor(s, at),
{
    broadcast use group_nfs_types_prefix;
}

/// A MOUNT directory path decodes the same whatever follows it.
pub broadcast proof fn lemma_dirpath_prefix(s: Seq<u8>, t: Seq<u8>, at: int)
    requires
        0 <= at,
        settled(spec_dirpath(s, at)),
    ensures
        #[trigger] spec_dirpath(s + t, at) == spec_dirpath(s, at),
{
    broadcast use group_nfs_types_prefix;
}

/// The NFSv3 types, credentials' flavors, verifiers and MOUNT paths.
pub broadcast group group_field_prefix {
    group_nfs_types_prefix,
    lemma_option_nfstime_prefix,
    lemma_verf8_prefix,
    lemma_auth_flavor_prefix,
    lemma_dirpath_prefix,
}

/// A credential decodes the same whatever follows it.
pub broadcast proof fn lemma_auth_prefix(s: Seq<u8>, t: Seq<u8>, at: int)
    requires
        0 <= at,
        settled(spec_auth(s, at)),
    ensures
        #[trigger] spec_auth(s + t, at) == spec_auth(s, at),
{
    broadcast use group_field_prefix;
}

/// The arguments of `GETATTR` decode the same whatever follows them.
pub broadcast proof fn lemma_get_attr_args_prefix(s: Seq<u8>, t: Seq<u8>, at: int)
    requires
        0 <= at,
        settled(spec_get_attr_args(s, at)),
    ensures
        #[trigger] spec_get_attr_args(s + t, at) == spec_get_attr_args(s, at),
{
    broadcast use group_field_prefix;
}

/// The arguments of `SETATTR` decode the same whatever follows them.
pub broadcast proof fn lemma_set_attr_args_prefix(s: Seq<u8>, t: Seq<u8>, at: int)
    requires
        0 <= at,
        settled(spec_set_attr_args(s, at)),
    ensures
        #[trigger] spec_set_attr_args(s + t, at) == spec_set_attr_args(s, at),
{
    broadcast use group_field_prefix;
}

/// The arguments of `LOOKUP` decode the same whatever follows them.
pub broadcast proof fn lemma_lookup_args_prefix(s: Seq<u8>, t: Seq<u8>, at: int)
    requires
        0 <= at,
        settled(spec_lookup_args(s, at)),
    ensures
        #[trigger] spec_lookup_args(s + t, at) == spec_lookup_args(s, at),
{
    broadcast use group_field_prefix;
}

/// The arguments of `ACCESS` decode the same whatever follows them.
pub broadcast proof fn lemma_access_args_prefix(s: Seq<u8>, t: Seq<u8>, at: int)
    requires
        0 <= at,
        settled(spec_access_args(s, at)),
    ensures
        #[trigger] spec_access_args(s + t, at) == spec_access_args(s, at),
{
    broadcast use group_field_prefix;
}

/// The arguments of `READLINK` decode the same whatever follows them.
pub broadcast proof fn lemma_read_link_args_prefix(s: Seq<u8>, t: Seq<u8>, at: int)
    requires
        0 <= at,
        settled(spec_read_link_args(s, at)),
    ensures
        #[trigger] spec_read_link_args(s + t, at) == spec_read_link_args(s, at),
{
    broadcast use group_field_prefix;
}

/// The arguments of `READ` decode the same whatever follows them.
pub broadcast proof fn lemma_read_args_prefix(s: Seq<u8>, t: Seq<u8>, at: int)
    requires
        0 <= at,
        settled(spec_read_args(s, at)),
    ensures
        #[trigger] spec_read_args(s + t, at) == spec_read_args(s, at),
{
    broadcast use group_field_prefix;
}

/// The arguments of `WRITE` decode the same whatever follows them.
pub broadcast proof fn lemma_write_args_prefix(s: Seq<u8>, t: Seq<u8>, at: int)
    requires
        0 <= at,
        settled(spec_write_args(s, at)),
    ensures
        #[trigger] spec_write_args(s + t, at) == spec_write_args(s, at),
{
    broadcast use group_field_prefix;
}

/// The arguments of `CREATE` decode the same whatever follows them.
pub broadcast proof fn lemma_create_args_prefix(s: Seq<u8>, t: Seq<u8>, at: int)
    requires
        0 <= at,
        settled(spec_create_args(s, at)),
    ensures
        #[trigger] spec_create_args(s + t, at) == spec_create_args(s, at),
{
    broadcast use group_field_prefix;
}

/// The arguments of `MKDIR` decode the same whatever follows them.
pub broadcast proof fn lemma_mk_dir_args_prefix(s: Seq<u8>, t: Seq<u8>, at: int)
    requires
        0 <= at,
        settled(spec_mk_dir_args(s, at)),
    ensures
        #[trigger] spec_mk_dir_args(s + t, at) == spec_mk_dir_args(s, at),
{
    broadcast use group_field_prefix;
}

/// The arguments of `SYMLINK` decode the same whatever follows them.
pub broadcast proof fn lemma_symlink_args_prefix(s: Seq<u8>, t: Seq<u8>, at: int)
    requires
        0 <= at,
        settled(spec_symlink_args(s, at)),
    ensures
        #[trigger] spec_symlink_args(s + t, at) == spec_symlink_args(s, at),
{
    broadcast use group_field_prefix;
}

/// The arguments of `MKNOD` decode the same whatever follows them.
pub broadcast proof fn lemma_mk_node_args_prefix(s: Seq<u8>, t: Seq<u8>, at: int)
    requires
        0 <= at,
        settled(spec_mk_node_args(s, at)),
    ensures
        #[trigger] spec_mk_node_args(s + t, at) == spec_mk_node_args(s, at),
{
    broadcast use group_field_prefix;
}

/// The arguments of `REMOVE` decode the same whatever follows them.
pub broadcast proof fn lemma_remove_args_prefix(s: Seq<u8>, t: Seq<u8>, at: int)
    requires
        0 <= at,
        settled(spec_remove_args(s, at)),
    ensures
        #[trigger] spec_remove_args(s + t, at) == spec_remove_args(s, at),
{
    broadcast use group_field_prefix;
}

/// The arguments of `RMDIR` decode the same whatever follows them.
pub broadcast proof fn lemma_rm_dir_args_prefix(s: Seq<u8>, t: Seq<u8>, at: int)
    requires
        0 <= at,
        settled(spec_rm_dir_args(s, at)),
    ensures
        #[trigger] spec_rm_dir_args(s + t, at) == spec_rm_dir_args(s, at),
{
    broadcast use group_field_prefix;
}

/// The arguments of `RENAME` decode the same whatever follows them.
pub broadcast proof fn lemma_rename_args_prefix(s: Seq<u8>, t: Seq<u8>, at: int)
    requires
        0 <= at,
        settled(spec_rename_args(s, at)),
    ensures
        #[trigger] spec_rename_args(s + t, at) == spec_rename_args(s, at),
{
    broadcast use group_field_prefix;
}

/// The arguments of `LINK` decode the same whatever follows them.
pub broadcast proof fn lemma_link_args_prefix(s: Seq<u8>, t: Seq<u8>, at: int)
    requires
        0 <= at,
        settled(spec_link_args(s, at)),
    ensures
        #[trigger] spec_link_args(s + t, at) == spec_link_args(s, at),
{
    broadcast use group_field_prefix;
}

/// The arguments of `READDIR` decode the same whatever follows them.
pub broadcast proof fn lemma_read_dir_args_prefix(s: Seq<u8>, t: Seq<u8>, at: int)
    requires
        0 <= at,
        settled(spec_read_dir_args(s, at)),
    ensures
        #[trigger] spec_read_dir_args(s + t, at) == spec_read_dir_args(s, at),
{
    broadcast use group_field_prefix;
}

/// The arguments of `READDIRPLUS` decode the same whatever follows them.
pub broadcast proof fn lemma_read_dir_plus_args_prefix(s: Seq<u8>, t: Seq<u8>, at: int)
    requires
        0 <= at,
        settled(spec_read_dir_plus_args(s, at)),
    ensures
        #[trigger] spec_read_dir_plus_args(s + t, at) == spec_read_dir_plus_args(s, at),
{
    broadcast use group_field_prefix;
}

/// The arguments of `FSSTAT` decode the same whatever follows them.
pub broadcast proof fn lemma_fs_stat_args_prefix(s: Seq<u8>, t: Seq<u8>, at: int)
    requires
        0 <= at,
        settled(spec_fs_stat_args(s, at)),
    ensures
        #[trigger] spec_fs_stat_args(s + t, at) == spec_fs_stat_args(s, at),
{
    broadcast use group_field_prefix;
}

/// The arguments of `FSINFO` decode the same whatever follows them.
pub broadcast proof fn lemma_fs_info_args_prefix(s: Seq<u8>, t: Seq<u8>, at: int)
    requires
        0 <= at,
        settled(spec_fs_info_args(s, at)),
    ensures
        #[trigger] spec_fs_info_args(s + t, at) == spec_fs_info_args(s, at),
{
    broadcast use group_field_prefix;
}

/// The arguments of `PATHCONF` decode the same whatever follows them.
pub broadcast proof fn lemma_path_conf_args_prefix(s: Seq<u8>, t: Seq<u8>, at: int)
    requires
        0 <= at,
        settled(spec_path_conf_args(s, at)),
    ensures
        #[trigger] spec_path_conf_args(s + t, at) == spec_path_conf_args(s, at),
{
    broadcast use group_field_prefix;
}

/// The arguments of `COMMIT` decode the same whatever follows them.
pub broadcast proof fn lemma_commit_args_prefix(s: Seq<u8>, t: Seq<u8>, at: int)
    requires
        0 <= at,
        settled(spec_commit_args(s, at)),
    ensures
        #[trigger] spec_commit_args(s + t, at) == spec_commit_args(s, at),
{
    broadcast use group_field_prefix;
}

/// The credentials and the arguments of every NFSv3 procedure.
pub broadcast group group_args_prefix {
    group_field_prefix,
    lemma_auth_prefix,
    lemma_get_attr_args_prefix,
    lemma_set_attr_args_prefix,
    lemma_lookup_args_prefix,
    lemma_access_args_prefix,
    lemma_read_link_args_prefix,
    lemma_read_args_prefix,
    lemma_write_args_prefix,
    lemma_create_args_prefix,
    lemma_mk_dir_args_prefix,
    lemma_symlink_args_prefix,
    lemma_mk_node_args_prefix,
    lemma_remove_args_prefix,
    lemma_rm_dir_args_prefix,
    lemma_rename_args_prefix,
    lemma_link_args_prefix,
    lemma_read_dir_args_prefix,
    lemma_read_dir_plus_args_prefix,
    lemma_fs_stat_args_prefix,
    lemma_fs_info_args_prefix,
    lemma_path_conf_args_prefix,
    lemma_commit_args_prefix,
}

/// A call's program, version, procedure and credential decode the same
/// whatever follows them.
pub broadcast proof fn lemma_call_target_prefix(s: Seq<u8>, t: Seq<u8>, at: int, xid: u32)
    requires
        0 <= at,
        settled_step(spec_call_target(s, at, xid)),
    ensures
        #[trigger] spec_call_target(s + t, at, xid) == spec_call_target(s, at, xid),
{
    broadcast use group_args_prefix;
}

/// A call header decodes the same whatever follows it.
pub broadcast proof fn lemma_call_header_prefix(s: Seq<u8>, t: Seq<u8>, at: int, xid: u32)
    requires
        0 <= at,
        settled_step(spec_call_header(s, at, xid)),
    ensures
        #[trigger] spec_call_header(s + t, at, xid) == spec_call_header(s, at, xid),
{
    broadcast use group_cursor_prefix, lemma_call_target_prefix;
}

/// The arguments of an NFSv3 procedure decode the same whatever follows
/// them.
pub broadcast proof fn lemma_nfs_args_prefix(s: Seq<u8>, t: Seq<u8>, at: int, procedure: u32)
    requires
        0 <= at,
        settled(spec_nfs_args(s, at, procedure)),
    ensures
        #[trigger] spec_nfs_args(s + t, at, procedure) == spec_nfs_args(s, at, procedure),
{
    broadcast use group_args_prefix;
}

/// The arguments of a MOUNT procedure decode the same whatever follows
/// them.
pub broadcast proof fn lemma_mount_args_prefix(s: Seq<u8>, t: Seq<u8>, at: int, procedure: u32)
    requires
        0 <= at,
        settled(spec_mount_args(s, at, procedure)),
    ensures
        #[trigger] spec_mount_args(s + t, at, procedure) == spec_mount_args(s, at, procedure),
{
    broadcast use group_args_prefix;
}

/// Where a failed a boolean stops is not changed by bytes after it, unless it ran out of bytes or padding.
pub broadcast proof fn lemma_stop_bool_prefix(s: Seq<u8>, t: Seq<u8>, at: int)
    requires
        0 <= at,
        settled(spec_bool(s, at)),
    ensures
        #[trigger] stop_bool(s + t, at) == stop_bool(s, at),
{
    broadcast use group_args_prefix;
}

/// Where a failed fixed-length opaque data stops is not changed by bytes after it, unless it ran out of bytes or padding.
pub broadcast proof fn lemma_stop_array_prefix(s: Seq<u8>, t: Seq<u8>, at: int, n: int)
    requires
        0 <= at,
        0 <= n,
        settled(spec_array(s, at, n)),
    ensures
        #[trigger] stop_array(s + t, at, n) == stop_array(s, at, n),
{
    broadcast use group_args_prefix;
}

/// Where a failed discriminant stops is not changed by bytes after it, unless it ran out of bytes or padding.
pub broadcast proof fn lemma_stop_discriminant_prefix(s: Seq<u8>, t: Seq<u8>, at: int)
    requires
        0 <= at,
        settled(spec_u32(s, at)),
    ensures
        #[trigger] stop_discriminant(s + t, at) == stop_discriminant(s, at),
{
    broadcast use group_args_prefix;
}

/// Where a failed pair of `u32`s stops is not changed by bytes after it, unless it ran out of bytes or padding.
pub broadcast proof fn lemma_stop_u32_pair_prefix(s: Seq<u8>, t: Seq<u8>, at: int)
    requires
        0 <= at,
        settled(spec_u32(s, at)),
    ensures
        #[trigger] stop_u32_pair(s + t, at) == stop_u32_pair(s, at),
{
    broadcast use group_args_prefix;
}

/// Stops of the reads of one item.
pub broadcast group group_stop_leaf {
    group_args_prefix,
    lemma_stop_bool_prefix,
    lemma_stop_array_prefix,
    lemma_stop_discriminant_prefix,
    lemma_stop_u32_pair_prefix,
}

/// Where a failed variable-length opaque data stops is not changed by bytes after it, unless it ran out of bytes or padding.
pub broadcast proof fn lemma_stop_vector_prefix(s: Seq<u8>, t: Seq<u8>, at: int)
    requires
        0 <= at,
        settled(spec_vector(s, at)),
    ensures
        #[trigger] stop_vector(s + t, at) == stop_vector(s, at),
{
    broadcast use group_stop_leaf;
}

/// Where a failed bounded opaque data stops is not changed by bytes after it, unless it ran out of bytes or padding.
pub broadcast proof fn lemma_stop_vec_max_size_prefix(s: Seq<u8>, t: Seq<u8>, at: int, max: int)
    requires
        0 <= at,
        settled(spec_vec_max_size(s, at, max)),
    ensures
        #[trigger] stop_vec_max_size(s + t, at, max) == stop_vec_max_size(s, at, max),
{
    broadcast use group_stop_leaf;
}

/// Where a failed optional integer stops is not changed by bytes after it, unless it ran out of bytes or padding.
pub broadcast proof fn lemma_stop_option_prefix(s: Seq<u8>, t: Seq<u8>, at: int)
    requires
        0 <= at,
        settled(spec_bool(s, at)),
    ensures
        #[trigger] stop_option(s + t, at) == stop_option(s, at),
{
    broadcast use group_stop_leaf;
}

/// Where a failed time setting stops is not changed by bytes after it, unless it ran out of bytes or padding.
pub broadcast proof fn lemma_stop_set_time_prefix(s: Seq<u8>, t: Seq<u8>, at: int)
    requires
        0 <= at,
        settled(spec_set_atime(s, at)) || settled(spec_set_mtime(s, at)),
    ensures
        #[trigger] stop_set_time(s + t, at) == stop_set_time(s, at),
{
    broadcast use group_stop_leaf;
}

/// Where a failed file handle stops is not changed by bytes after it, unless it ran out of bytes or padding.
pub broadcast proof fn lemma_stop_nfs_fh3_prefix(s: Seq<u8>, t: Seq<u8>, at: int)
    requires
        0 <= at,
        settled(spec_nfs_fh3(s, at)),
    ensures
        #[trigger] stop_nfs_fh3(s + t, at) == stop_nfs_fh3(s, at),
{
    broadcast use group_stop_leaf;
}

/// Stops up to opaque data, optional values and file handles.
pub broadcast group group_stop_l2 {
    group_stop_leaf,
    lemma_stop_vector_prefix,
    lemma_stop_vec_max_size_prefix,
    lemma_stop_option_prefix,
    lemma_stop_set_time_prefix,
    lemma_stop_nfs_fh3_prefix,
}

/// Where a failed string stops is not changed by bytes after it, unless it ran out of bytes or padding.
pub broadcast proof fn lemma_stop_string_prefix(s: Seq<u8>, t: Seq<u8>, at: int)
    requires
        0 <= at,
        settled(spec_string(s, at)),
    ensures
        #[trigger] stop_string(s + t, at) == stop_string(s, at),
{
    broadcast use group_stop_l2;
}

/// Where a failed bounded string stops is not changed by bytes after it, unless it ran out of bytes or padding.
pub broadcast proof fn lemma_stop_string_max_size_prefix(s: Seq<u8>, t: Seq<u8>, at: int, max: int)
    requires
        0 <= at,
        settled(spec_string_max_size(s, at, max)),
    ensures
        #[trigger] stop_string_max_size(s + t, at, max) == stop_string_max_size(s, at, max),
{
    broadcast use group_stop_l2;
}

/// Where a failed decoding of settable attributes stops is not changed by bytes after it, unless it ran out of bytes or padding.
pub broadcast proof fn lemma_stop_sattr3_prefix(s: Seq<u8>, t: Seq<u8>, at: int)
    requires
        0 <= at,
        settled(spec_sattr3(s, at)),
    ensures
        #[trigger] stop_sattr3(s + t, at) == stop_sattr3(s, at),
{
    broadcast use group_stop_l2;
}

/// Stops up to strings and settable attributes.
pub broadcast group group_stop_l3 {
    group_stop_l2,
    lemma_stop_string_prefix,
    lemma_stop_string_max_size_prefix,
    lemma_stop_sattr3_prefix,
}

/// Where a failed decoding of a directory and name stops is not changed by bytes after it, unless it ran out of bytes or padding.
pub broadcast proof fn lemma_stop_diropargs3_prefix(s: Seq<u8>, t: Seq<u8>, at: int)
    requires
        0 <= at,
        settled(spec_diropargs3(s, at)),
    ensures
        #[trigger] stop_diropargs3(s + t, at) == stop_diropargs3(s, at),
{
    broadcast use group_stop_l3;
}

/// Where a failed decoding of a creation mode stops is not changed by bytes after it, unless it ran out of bytes or padding.
pub broadcast proof fn lemma_stop_createhow3_prefix(s: Seq<u8>, t: Seq<u8>, at: int)
    requires
        0 <= at,
        settled(spec_createhow3(s, at)),
    ensures
        #[trigger] stop_createhow3(s + t, at) == stop_createhow3(s, at),
{
    broadcast use group_stop_l3;
}

/// Where a failed decoding of a link's attributes and target stops is not changed by bytes after it, unless it ran out of bytes or padding.
pub broadcast proof fn lemma_stop_symlinkdata3_prefix(s: Seq<u8>, t: Seq<u8>, at: int)
    requires
        0 <= at,
        settled(spec_symlinkdata3(s, at)),
    ensures
        #[trigger] stop_symlinkdata3(s + t, at) == stop_symlinkdata3(s, at),
{
    broadcast use group_stop_l3;
}

/// Where a failed decoding of device data stops is not changed by bytes after it, unless it ran out of bytes or padding.
pub broadcast proof fn lemma_stop_devicedata3_prefix(s: Seq<u8>, t: Seq<u8>, at: int)
    requires
        0 <= at,
        settled(spec_devicedata3(s, at)),
    ensures
        #[trigger] stop_devicedata3(s + t, at) == stop_devicedata3(s, at),
{
    broadcast use group_stop_l3;
}

/// Where a failed optional time stops is not changed by bytes after it, unless it ran out of bytes or padding.
pub broadcast proof fn lemma_stop_option_nfstime_prefix(s: Seq<u8>, t: Seq<u8>, at: int)
    requires
        0 <= at,
        settled(spec_option_nfstime(s, at)),
    ensures
        #[trigger] stop_option_nfstime(s + t, at) == stop_option_nfstime(s, at),
{
    broadcast use group_stop_l3;
}

/// Where a failed credential stops is not changed by bytes after it, unless it ran out of bytes or padding.
pub broadcast proof fn lemma_stop_auth_prefix(s: Seq<u8>, t: Seq<u8>, at: int)
    requires
        0 <= at,
        settled(spec_auth(s, at)),
    ensures
        #[trigger] stop_auth(s + t, at) == stop_auth(s, at),
{
    broadcast use group_stop_l3;
}

/// Stops up to the NFSv3 argument parts and credentials.
pub broadcast group group_stop_l4 {
    group_stop_l3,
    lemma_stop_diropargs3_prefix,
    lemma_stop_createhow3_prefix,
    lemma_stop_symlinkdata3_prefix,
    lemma_stop_devicedata3_prefix,
    lemma_stop_option_nfstime_prefix,
    lemma_stop_auth_prefix,
}

/// Where a failed decoding of a special file's description stops is not changed by bytes after it, unless it ran out of bytes or padding.
pub broadcast proof fn lemma_stop_mknoddata3_prefix(s: Seq<u8>, t: Seq<u8>, at: int)
    requires
        0 <= at,
        settled(spec_mknoddata3(s, at)),
    ensures
        #[trigger] stop_mknoddata3(s + t, at) == stop_mknoddata3(s, at),
{
    broadcast use group_stop_l4;
}

/// Stops of every decoder of NFSv3 arguments.
pub broadcast group group_stop_prefix {
    group_stop_l4,
    lemma_stop_mknoddata3_prefix,
}

/// A failed decoding of NFSv3 arguments stops at the same place whatever
/// follows, unless it ran out of bytes or padding.
pub broadcast proof fn lemma_nfs_args_stop_prefix(s: Seq<u8>, t: Seq<u8>, at: int, procedure: u32)
    requires
        0 <= at,
        settled(spec_nfs_args(s, at, procedure)),
    ensures
        #[trigger] stop_nfs_args(s + t, at, procedure) == stop_nfs_args(s, at, procedure),
{
    broadcast use group_stop_prefix;
}

/// A failed decoding of MOUNT arguments stops at the same place whatever
/// follows, unless it ran out of bytes or padding.
pub broadcast proof fn lemma_mount_args_stop_prefix(s: Seq<u8>, t: Seq<u8>, at: int, procedure: u32)
    requires
        0 <= at,
        settled(spec_mount_args(s, at, procedure)),
    ensures
        #[trigger] stop_mount_args(s + t, at, procedure) == stop_mount_args(s, at, procedure),
{
    broadcast use group_stop_prefix;
}

/// A call decodes the same whatever follows it.
pub proof fn lemma_call_prefix(s: Seq<u8>, t: Seq<u8>, at: int, xid: u32)
    requires
        0 <= at,
        settled_step(spec_call(s, at, xid)),
    ensures
        spec_call(s + t, at, xid) == spec_call(s, at, xid),
{
    broadcast use lemma_call_header_prefix, lemma_nfs_args_prefix, lemma_mount_args_prefix,
        lemma_nfs_args_stop_prefix, lemma_mount_args_stop_prefix;
}

/// Bytes that arrive after a complete request do not change how it
/// decodes: a request decoded from the bytes `s` is decoded the same,
/// ending at the same offset, from `s` followed by any bytes `t`.
pub proof fn lemma_request_prefix(s: Seq<u8>, t: Seq<u8>)
    requires
        spec_parse_request(s) is Parsed,
    ensures
        spec_parse_request(s + t) == spec_parse_request(s),
{
    broadcast use group_cursor_prefix;
    let p = spec_u32(s, 0)->Ok_0.1;
    let q = spec_u32(s, p)->Ok_0.1;
    let xid = spec_u32(s, p)->Ok_0.0;
    lemma_call_prefix(s, t, q, xid);
}

/// Retrying a decoding once more bytes arrive is invisible: decoding the
/// next request from the bytes `s`, which the stream continues with `t`,
/// either finds the request incomplete (so the caller waits for more) or
/// gives exactly what decoding `s + t` gives. The one exception is bytes
/// that end inside the padding of an opaque item, which are refused as
/// missing padding rather than found incomplete.
pub proof fn lemma_request_retry(s: Seq<u8>, t: Seq<u8>)
    ensures
        spec_parse_request(s) is Incomplete || spec_parse_request(s + t) == spec_parse_request(s)
            || spec_parse_request(s) matches RequestOutcome::Rejected(_, Error::IncorrectPadding, _),
{
    broadcast use group_cursor_prefix;
    if spec_u32(s, 0) is Ok {
        let p = spec_u32(s, 0)->Ok_0.1;
        if spec_u32(s, p) is Ok {
            let q = spec_u32(s, p)->Ok_0.1;
            let xid = spec_u32(s, p)->Ok_0.0;
            if settled_step(spec_call(s, q, xid)) {
                lemma_call_prefix(s, t, q, xid);
            }
        }
    }
}

} // verus!
