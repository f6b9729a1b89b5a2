//! Verified core of an NFSv3 / MOUNT server: XDR parsing and serialization,
//! RPC record framing, request decoding and the decisions of the protocol
//! handlers.
pub mod encoding;
pub mod mount;
pub mod nfsv3;
pub mod nlm;
pub mod parser;
pub mod protocol;
pub mod read_task;
pub mod response_buffer;
pub mod rpc;
pub mod rpc_command;
pub mod vfs;
