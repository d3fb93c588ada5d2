//! Assembly of the Ethereum rich block from a Starknet block view, the
//! configured defaults and the externally computed base fee and, for the
//! full-transaction variant, the externally re-derived transaction records.

use vstd::prelude::*;

use crate::block::BlockWithTxHashes;
use crate::block::BlockWithTxs;
use crate::block::MaybePendingBlock;
use crate::config::HeaderDefaults;
use crate::felt::spec_truncate;
use crate::felt::AddressTruncator;
use crate::felt::Felt;
use crate::primitives::u256_of;
use crate::primitives::Address;
use crate::primitives::Bloom;
use crate::primitives::H256;
use crate::primitives::H64;
use crate::primitives::U256;

verus! {

/// A re-derived Ethereum transaction record, as handed back by the
/// external computation. The assembly never reads its fields; the record
/// is carried into the assembled block unchanged.
#[derive(Clone, Copy, PartialEq, Eq, Debug)]
pub struct EthTransaction {
    pub hash: H256,
}

/// A withdrawal record. The native chain has no withdrawals, so the
/// assembled list is always empty; the type only fixes the output shape.
pub struct Withdrawal {
    pub index: u64,
    pub validator_index: u64,
    pub address: Address,
    pub amount: u64,
}

/// The transactions of an assembled block: hashes only, or full records.
pub enum BlockTransactions {
    Hashes(Vec<H256>),
    Full(Vec<EthTransaction>),
}

/// An Ethereum block header.
pub struct Header {
    pub hash: Option<H256>,
    pub parent_hash: H256,
    pub uncles_hash: H256,
    pub miner: Address,
    pub state_root: H256,
    pub transactions_root: H256,
    pub receipts_root: H256,
    pub number: Option<U256>,
    pub gas_used: U256,
    pub gas_limit: U256,
    pub extra_data: Vec<u8>,
    pub logs_bloom: Bloom,
    pub timestamp: U256,
    pub difficulty: U256,
    pub nonce: Option<H64>,
    pub base_fee_per_gas: Option<U256>,
    pub mix_hash: H256,
    pub withdrawals_root: Option<H256>,
}

/// An Ethereum rich block: the header plus ancillary metadata.
pub struct RichBlock {
    pub header: Header,
    pub total_difficulty: U256,
    pub uncles: Vec<H256>,
    pub transactions: BlockTransactions,
    pub size: Option<U256>,
    pub withdrawals: Option<Vec<Withdrawal>>,
}

/// The fixed literal placed in `extra_data`.
pub open spec fn extra_data_bytes() -> Seq<u8> {
    seq![0x30u8, 0x78u8, 0x30u8, 0x30u8]
}

/// The header `h` is the assembly of the view `v` under defaults `d` and
/// the externally computed base fee:
/// hash and number are carried over exactly when the view is confirmed;
/// parent and uncles hash are the parent's encoding; the miner is the
/// truncated sequencer address; the roots are zero placeholders; the
/// timestamp is widened; everything else comes from `d` or the base fee.
pub open spec fn header_from_view<T>(
    h: Header,
    v: MaybePendingBlock<T>,
    base_fee: U256,
    d: HeaderDefaults,
) -> bool {
    &&& (match v.spec_block_hash() {
        Some(f) => h.hash matches Some(x) && x@ == f@,
        None => h.hash is None,
    })
    &&& h.parent_hash@ == v.spec_parent_hash()@
    &&& h.uncles_hash@ == v.spec_parent_hash()@
    &&& h.miner@ == spec_truncate(v.spec_sequencer_address())
    &&& h.state_root.is_zero()
    &&& h.transactions_root.is_zero()
    &&& h.receipts_root.is_zero()
    &&& (match v.spec_block_number() {
        Some(n) => h.number == Some(u256_of(n as u128)),
        None => h.number is None,
    })
    &&& h.gas_used == d.gas_used
    &&& h.gas_limit == d.gas_limit
    &&& h.extra_data@ == extra_data_bytes()
    &&& h.logs_bloom.is_zero()
    &&& h.timestamp == u256_of(v.spec_timestamp() as u128)
    &&& h.difficulty == d.difficulty
    &&& h.nonce == d.nonce
    &&& h.base_fee_per_gas == Some(base_fee)
    &&& h.mix_hash == d.mix_hash
    &&& (h.withdrawals_root matches Some(w) && w.is_zero())
}

/// The parts of the rich block beside header and transactions are the
/// fixed configured or empty defaults, whatever the input block was.
pub open spec fn rich_parts_from_defaults(r: RichBlock, d: HeaderDefaults) -> bool {
    &&& r.total_difficulty == d.total_difficulty
    &&& r.uncles@.len() == 0
    &&& r.size == d.size
    &&& (r.withdrawals matches Some(w) && w@.len() == 0)
}

/// `hs` encodes the source transaction hashes one for one, in source order.
pub open spec fn tx_hashes_encoded(txs: Seq<Felt>, hs: Seq<H256>) -> bool {
    &&& hs.len() == txs.len()
    &&& forall|i: int| 0 <= i < txs.len() ==> hs[i]@ == txs[i]@
}

/// The fixed `extra_data` literal.
fn default_extra_data() -> (r: Vec<u8>)
    ensures
        r@ == extra_data_bytes(),
{
    let mut v: Vec<u8> = Vec::new();
    v.push(0x30);
    v.push(0x78);
    v.push(0x30);
    v.push(0x30);
    proof {
        assert(v@ =~= extra_data_bytes());
    }
    v
}

/// The header shared by both assembly variants.
fn assemble_header<T>(
    view: &MaybePendingBlock<T>,
    defaults: &HeaderDefaults,
    base_fee_per_gas: U256,
) -> (h: Header)
    ensures
        header_from_view(h, *view, base_fee_per_gas, *defaults),
{
    let parent_hash = view.parent_hash().to_h256();
    let miner = AddressTruncator::truncate(&view.sequencer_address());
    let timestamp = U256::from_u64(view.timestamp());
    let hash = match view.block_hash() {
        Some(f) => Some(f.to_h256()),
        None => None,
    };
    let number = match view.block_number() {
        Some(n) => Some(U256::from_u64(n)),
        None => None,
    };
    Header {
        hash,
        parent_hash,
        uncles_hash: parent_hash,
        miner,
        state_root: H256::zero(),
        transactions_root: H256::zero(),
        receipts_root: H256::zero(),
        number,
        gas_used: defaults.gas_used,
        gas_limit: defaults.gas_limit,
        extra_data: default_extra_data(),
        logs_bloom: Bloom::zero(),
        timestamp,
        difficulty: defaults.difficulty,
        nonce: defaults.nonce,
        base_fee_per_gas: Some(base_fee_per_gas),
        mix_hash: defaults.mix_hash,
        withdrawals_root: Some(H256::zero()),
    }
}

impl BlockWithTxHashes {
    /// Assemble the rich block for a hash-only Starknet block: each source
    /// transaction hash is carried over as its big-endian encoding, in
    /// source order.
    pub fn to_eth_block(&self, defaults: &HeaderDefaults, base_fee_per_gas: U256) -> (r: RichBlock)
        ensures
            header_from_view(r.header, self.0, base_fee_per_gas, *defaults),
            rich_parts_from_defaults(r, *defaults),
            r.transactions matches BlockTransactions::Hashes(hs) && tx_hashes_encoded(
                self.0.spec_transactions(),
                hs@,
            ),
    {
        let header = assemble_header(&self.0, defaults, base_fee_per_gas);
        let txs = self.0.transactions();
        let mut hashes: Vec<H256> = Vec::new();
        let mut i: usize = 0;
        while i < txs.len()
            invariant
                0 <= i <= txs@.len(),
                txs@ == self.0.spec_transactions(),
                hashes@.len() == i,
                forall|j: int| 0 <= j < i ==> hashes@[j]@ == txs@[j]@,
            decreases txs@.len() - i,
        {
            hashes.push(txs[i].to_h256());
            i = i + 1;
        }
        RichBlock {
            header,
            total_difficulty: defaults.total_difficulty,
            uncles: Vec::new(),
            transactions: BlockTransactions::Hashes(hashes),
            size: defaults.size,
            withdrawals: Some(Vec::new()),
        }
    }
}

impl BlockWithTxs {
    /// Assemble the rich block for a full-transaction Starknet block. The
    /// Ethereum transaction records are re-derived by the external
    /// computation from this block's transactions, hash and number, and
    /// are carried into the block unchanged.
    pub fn to_eth_block(
        &self,
        defaults: &HeaderDefaults,
        base_fee_per_gas: U256,
        transactions: Vec<EthTransaction>,
    ) -> (r: RichBlock)
        ensures
            header_from_view(r.header, self.0, base_fee_per_gas, *defaults),
            rich_parts_from_defaults(r, *defaults),
            r.transactions matches BlockTransactions::Full(ts) && ts@ == transactions@,
    {
        let header = assemble_header(&self.0, defaults, base_fee_per_gas);
        RichBlock {
            header,
            total_difficulty: defaults.total_difficulty,
            uncles: Vec::new(),
            transactions: BlockTransactions::Full(transactions),
            size: defaults.size,
            withdrawals: Some(Vec::new()),
        }
    }
}

} // verus!
