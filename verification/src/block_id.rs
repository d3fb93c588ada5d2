//! Translation of an Ethereum block identifier (hash, number or symbolic
//! tag) into the Starknet identifier used to fetch the raw block.

use vstd::prelude::*;

use crate::config::EARLIEST_BLOCK_NUMBER;
use crate::felt::be_val;
use crate::felt::field_modulus;
use crate::felt::Felt;
use crate::primitives::H256;

verus! {

/// An Ethereum block number or symbolic tag.
#[derive(Clone, Copy, PartialEq, Eq, Debug)]
pub enum BlockNumberOrTag {
    Number(u64),
    Latest,
    Finalized,
    Safe,
    Earliest,
    Pending,
}

/// An Ethereum block identifier: a block hash, or a number or tag.
#[derive(Clone, Copy, PartialEq, Eq, Debug)]
pub enum EthereumBlockId {
    Hash(H256),
    Number(BlockNumberOrTag),
}

/// A Starknet symbolic block tag. The chain knows only these two;
/// near-finality notions of the Ethereum side collapse onto `Latest`.
#[derive(Clone, Copy, PartialEq, Eq, Debug)]
pub enum BlockTag {
    Latest,
    Pending,
}

/// A Starknet block identifier.
#[derive(Clone, Copy, PartialEq, Eq, Debug)]
pub enum StarknetBlockId {
    Hash(Felt),
    Number(u64),
    Tag(BlockTag),
}

/// The one failure of identifier translation: an Ethereum block hash that
/// does not fit the native scalar field's canonical range.
#[derive(Clone, Copy, PartialEq, Eq, Debug)]
pub enum ConversionError {
    InvalidFieldElement,
}

/// `r` is the translation of `id`:
/// a hash becomes a field element, and fails exactly when it does not fit
/// the field's canonical range; `Safe`, `Latest` and `Finalized` collapse
/// onto the native `Latest` tag; `Earliest` becomes the configured
/// earliest block number; `Pending` stays `Pending`; a concrete number is
/// kept verbatim.
pub open spec fn translated(id: EthereumBlockId, r: Result<StarknetBlockId, ConversionError>) -> bool {
    match id {
        EthereumBlockId::Hash(h) => {
            if be_val(h@) < field_modulus() {
                r matches Ok(s) && s matches StarknetBlockId::Hash(f) && f@ == h@ && f.in_field()
            } else {
                r matches Err(e) && e == ConversionError::InvalidFieldElement
            }
        },
        EthereumBlockId::Number(t) => match t {
            BlockNumberOrTag::Safe | BlockNumberOrTag::Latest | BlockNumberOrTag::Finalized => (
                r matches Ok(s) && s == StarknetBlockId::Tag(BlockTag::Latest)
            ),
            BlockNumberOrTag::Earliest => (
                r matches Ok(s) && s == StarknetBlockId::Number(EARLIEST_BLOCK_NUMBER)
            ),
            BlockNumberOrTag::Pending => (
                r matches Ok(s) && s == StarknetBlockId::Tag(BlockTag::Pending)
            ),
            BlockNumberOrTag::Number(n) => (
                r matches Ok(s) && s == StarknetBlockId::Number(n)
            ),
        },
    }
}

/// An Ethereum block identifier, ready for translation.
pub struct EthBlockId(pub EthereumBlockId);

impl EthBlockId {
    pub fn new(block_id: EthereumBlockId) -> (r: Self)
        ensures
            r.0 == block_id,
    {
        EthBlockId(block_id)
    }

    /// Map the identifier onto the Starknet one; the only error is a hash
    /// outside the scalar field's canonical range.
    pub fn to_starknet_block_id(&self) -> (r: Result<StarknetBlockId, ConversionError>)
        ensures
            translated(self.0, r),
    {
        match &self.0 {
            EthereumBlockId::Hash(h) => match Felt::from_be_bytes(h.bytes) {
                Some(f) => Ok(StarknetBlockId::Hash(f)),
                None => Err(ConversionError::InvalidFieldElement),
            },
            EthereumBlockId::Number(t) => match t {
                BlockNumberOrTag::Safe | BlockNumberOrTag::Latest | BlockNumberOrTag::Finalized => {
                    Ok(StarknetBlockId::Tag(BlockTag::Latest))
                },
                BlockNumberOrTag::Earliest => Ok(StarknetBlockId::Number(EARLIEST_BLOCK_NUMBER)),
                BlockNumberOrTag::Pending => Ok(StarknetBlockId::Tag(BlockTag::Pending)),
                BlockNumberOrTag::Number(n) => Ok(StarknetBlockId::Number(*n)),
            },
        }
    }
}

impl From<EthBlockId> for EthereumBlockId {
    fn from(eth_block_id: EthBlockId) -> (r: Self) {
        eth_block_id.0
    }
}

impl vstd::std_specs::convert::FromSpecImpl<EthBlockId> for EthereumBlockId {
    open spec fn obeys_from_spec() -> bool {
        true
    }

    open spec fn from_spec(eth_block_id: EthBlockId) -> Self {
        eth_block_id.0
    }
}

} // verus!
