//! Translation of Starknet block data into the Ethereum rich-block
//! representation served over an Ethereum-compatible RPC.
//!
//! The crate covers four pieces, leaves first:
//!
//! * [`felt`]: the native 252-bit field element, carried by its 32-byte
//!   big-endian encoding, with the canonical-range check and the
//!   deterministic truncation to a 20-byte Ethereum address.
//! * [`block_id`]: mapping an Ethereum block identifier (hash, number or
//!   symbolic tag) to the Starknet identifier used to fetch the block.
//! * [`block`]: a uniform read interface over the two Starknet block
//!   variants (hash-only and full transactions), each pending or confirmed.
//! * [`assembler`]: assembly of the Ethereum rich block from a block view,
//!   the configured placeholder defaults and the externally computed
//!   base fee and transaction records.

pub mod assembler;
pub mod block;
pub mod block_id;
pub mod config;
pub mod felt;
pub mod primitives;
