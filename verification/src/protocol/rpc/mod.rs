//! Decoding of RPC calls and their routing to the programs served.
pub mod transaction_tracker;
pub mod wire;
