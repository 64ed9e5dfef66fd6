//! Legacy Ethereum transactions with chain replay protection.

pub mod big_endian;
pub mod bigint;
pub mod builder;
pub mod chain_id;
pub mod eip_155_transaction;
pub mod format;
pub mod laws;
pub mod message_laws;
pub mod num_bytes;
pub mod number_laws;
pub mod rlp_laws;
pub mod rlp_stream;
pub mod signature_laws;
pub mod types;
