//! Procedure handlers of the NFS, MOUNT and port mapper programs.
pub mod mount;
pub mod portmap;
pub mod v3;
pub mod v4;
