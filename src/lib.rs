//! Chain-agnostic data model of a hash time-locked cross-chain transfer:
//! identities and commitments, addresses and amounts, the successive
//! projections of one transfer, the hexadecimal text form of 32-byte hashes,
//! and the lock-and-complete decisions of the counterparty chain.

pub mod hex_text;
pub mod types;
pub mod counterparty;
