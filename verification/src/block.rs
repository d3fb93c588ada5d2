//! A uniform read interface over the two Starknet block variants. Each
//! variant — transactions as hashes only, or as full records — exists in a
//! pending or a confirmed sub-state; the dispatch over the sub-state is
//! written once, generically over the transaction element type.

use vstd::prelude::*;

use crate::felt::Felt;

verus! {

/// The fields of a pending Starknet block: no block hash and no block
/// number yet.
pub struct PendingBlockData<T> {
    pub parent_hash: Felt,
    pub sequencer_address: Felt,
    pub timestamp: u64,
    pub transactions: Vec<T>,
}

/// The fields of a confirmed Starknet block: everything a pending block
/// carries, plus the block hash and the block number.
pub struct ConfirmedBlockData<T> {
    pub block_hash: Felt,
    pub block_number: u64,
    pub parent_hash: Felt,
    pub sequencer_address: Felt,
    pub timestamp: u64,
    pub transactions: Vec<T>,
}

/// A Starknet block in either finality sub-state, generic over the
/// transaction element type.
pub enum MaybePendingBlock<T> {
    Pending(PendingBlockData<T>),
    Confirmed(ConfirmedBlockData<T>),
}

impl<T> MaybePendingBlock<T> {
    pub open spec fn spec_parent_hash(self) -> Felt {
        match self {
            MaybePendingBlock::Pending(b) => b.parent_hash,
            MaybePendingBlock::Confirmed(b) => b.parent_hash,
        }
    }

    pub open spec fn spec_sequencer_address(self) -> Felt {
        match self {
            MaybePendingBlock::Pending(b) => b.sequencer_address,
            MaybePendingBlock::Confirmed(b) => b.sequencer_address,
        }
    }

    pub open spec fn spec_timestamp(self) -> u64 {
        match self {
            MaybePendingBlock::Pending(b) => b.timestamp,
            MaybePendingBlock::Confirmed(b) => b.timestamp,
        }
    }

    pub open spec fn spec_transactions(self) -> Seq<T> {
        match self {
            MaybePendingBlock::Pending(b) => b.transactions@,
            MaybePendingBlock::Confirmed(b) => b.transactions@,
        }
    }

    /// The block hash: absent exactly on a pending block.
    pub open spec fn spec_block_hash(self) -> Option<Felt> {
        match self {
            MaybePendingBlock::Pending(_) => None,
            MaybePendingBlock::Confirmed(b) => Some(b.block_hash),
        }
    }

    /// The block number: absent exactly on a pending block.
    pub open spec fn spec_block_number(self) -> Option<u64> {
        match self {
            MaybePendingBlock::Pending(_) => None,
            MaybePendingBlock::Confirmed(b) => Some(b.block_number),
        }
    }

    pub fn parent_hash(&self) -> (r: Felt)
        ensures
            r == self.spec_parent_hash(),
    {
        match self {
            MaybePendingBlock::Pending(b) => b.parent_hash,
            MaybePendingBlock::Confirmed(b) => b.parent_hash,
        }
    }

    pub fn sequencer_address(&self) -> (r: Felt)
        ensures
            r == self.spec_sequencer_address(),
    {
        match self {
            MaybePendingBlock::Pending(b) => b.sequencer_address,
            MaybePendingBlock::Confirmed(b) => b.sequencer_address,
        }
    }

    pub fn timestamp(&self) -> (r: u64)
        ensures
            r == self.spec_timestamp(),
    {
        match self {
            MaybePendingBlock::Pending(b) => b.timestamp,
            MaybePendingBlock::Confirmed(b) => b.timestamp,
        }
    }

    pub fn transactions(&self) -> (r: &Vec<T>)
        ensures
            r@ == self.spec_transactions(),
    {
        match self {
            MaybePendingBlock::Pending(b) => &b.transactions,
            MaybePendingBlock::Confirmed(b) => &b.transactions,
        }
    }

    pub fn block_hash(&self) -> (r: Option<Felt>)
        ensures
            r == self.spec_block_hash(),
    {
        match self {
            MaybePendingBlock::Pending(_) => None,
            MaybePendingBlock::Confirmed(b) => Some(b.block_hash),
        }
    }

    pub fn block_number(&self) -> (r: Option<u64>)
        ensures
            r == self.spec_block_number(),
    {
        match self {
            MaybePendingBlock::Pending(_) => None,
            MaybePendingBlock::Confirmed(b) => Some(b.block_number),
        }
    }
}

/// A full Starknet transaction record, named by its hash. The record's
/// other fields are only ever read by the external computation that
/// re-derives Ethereum transactions, never by the assembly itself.
#[derive(Clone, Copy, PartialEq, Eq, Debug)]
pub struct StarknetTransaction {
    pub transaction_hash: Felt,
}

/// A Starknet block whose transactions are given as hashes only.
pub struct BlockWithTxHashes(pub MaybePendingBlock<Felt>);

impl BlockWithTxHashes {
    pub fn new(block: MaybePendingBlock<Felt>) -> (r: Self)
        ensures
            r.0 == block,
    {
        BlockWithTxHashes(block)
    }
}

/// A Starknet block whose transactions are given as full records.
pub struct BlockWithTxs(pub MaybePendingBlock<StarknetTransaction>);

impl BlockWithTxs {
    pub fn new(block: MaybePendingBlock<StarknetTransaction>) -> (r: Self)
        ensures
            r.0 == block,
    {
        BlockWithTxs(block)
    }
}

} // verus!
