//! Verified client logic for the GIO state oracle: query encoding, reply
//! decoding and the state lookups an EVM needs, including the backward block
//! walk that resolves a block number to its hash.
pub mod bytes;
pub mod error;
pub mod hex;
pub mod codec;
pub mod client;
pub mod account;
pub mod walker;
pub mod database;
