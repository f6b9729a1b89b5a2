//! XDR parsing of RPC calls and of the NFSv3, MOUNT and NLM arguments they carry.
pub mod arguments;
pub mod cursor;
pub mod mount;
pub mod nfsv3;
pub mod nlm;
pub mod primitive;
pub mod procedures;
pub mod rpc;
pub mod to_parse;

pub use crate::rpc::Error;
pub use arguments::Arguments;
pub use cursor::Cursor;
pub mod parser_struct;
pub mod prefix;
pub mod stop;
