//! The RPC, MOUNT and NFS protocols: their XDR data types and the decisions
//! of their procedure handlers.
pub mod nfs;
pub mod rpc;
pub mod xdr;
