//! Configured placeholder defaults for header fields the native chain does
//! not provide. The values stand in for not-yet-implemented real
//! computations (gas accounting, difficulty, block size); a future real
//! implementation replaces this record's source without touching the
//! assembly algorithm.

use vstd::prelude::*;

use crate::primitives::u256_of;
use crate::primitives::H256;
use crate::primitives::H64;
use crate::primitives::U256;

verus! {

/// The block number that the symbolic `Earliest` identifier maps to.
pub const EARLIEST_BLOCK_NUMBER: u64 = 0;

/// Placeholder gas limit of an assembled header.
pub const DEFAULT_GAS_LIMIT: u64 = 1_000_000;

/// Placeholder gas usage of an assembled header.
pub const DEFAULT_GAS_USED: u64 = 500_000;

/// Placeholder block size of an assembled rich block.
pub const DEFAULT_BLOCK_SIZE: u64 = 1_000_000;

/// The fixed defaults read by the block assembler.
pub struct HeaderDefaults {
    pub gas_limit: U256,
    pub gas_used: U256,
    pub difficulty: U256,
    pub nonce: Option<H64>,
    pub size: Option<U256>,
    pub mix_hash: H256,
    pub total_difficulty: U256,
}

impl HeaderDefaults {
    /// The standard record: zero difficulty, zero nonce and mix hash, and
    /// the configured gas and size placeholders.
    pub fn standard() -> (r: HeaderDefaults)
        ensures
            r.gas_limit == u256_of(DEFAULT_GAS_LIMIT as u128),
            r.gas_used == u256_of(DEFAULT_GAS_USED as u128),
            r.difficulty == u256_of(0),
            r.nonce matches Some(n) && n.is_zero(),
            r.size matches Some(s) && s == u256_of(DEFAULT_BLOCK_SIZE as u128),
            r.mix_hash.is_zero(),
            r.total_difficulty == u256_of(0),
    {
        HeaderDefaults {
            gas_limit: U256::from_u64(DEFAULT_GAS_LIMIT),
            gas_used: U256::from_u64(DEFAULT_GAS_USED),
            difficulty: U256::zero(),
            nonce: Some(H64::zero()),
            size: Some(U256::from_u64(DEFAULT_BLOCK_SIZE)),
            mix_hash: H256::zero(),
            total_difficulty: U256::zero(),
        }
    }
}

} // verus!
