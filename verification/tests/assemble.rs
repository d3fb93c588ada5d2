use starkblock::assembler::BlockTransactions;
use starkblock::assembler::EthTransaction;
use starkblock::assembler::RichBlock;
use starkblock::block::BlockWithTxHashes;
use starkblock::block::BlockWithTxs;
use starkblock::block::ConfirmedBlockData;
use starkblock::block::MaybePendingBlock;
use starkblock::block::PendingBlockData;
use starkblock::block::StarknetTransaction;
use starkblock::config::HeaderDefaults;
use starkblock::felt::Felt;
use starkblock::primitives::H256;
use starkblock::primitives::U256;

fn felt_with_prefix(prefix: &[u8]) -> Felt {
    let mut bytes = [0u8; 32];
    bytes[..prefix.len()].copy_from_slice(prefix);
    Felt { bytes }
}

fn pending_hash_block(transactions: Vec<Felt>) -> BlockWithTxHashes {
    BlockWithTxHashes::new(MaybePendingBlock::Pending(PendingBlockData {
        parent_hash: felt_with_prefix(&[0xab, 0xcd]),
        sequencer_address: felt_with_prefix(&[0x01]),
        timestamp: 1000,
        transactions,
    }))
}

fn confirmed_hash_block(transactions: Vec<Felt>) -> BlockWithTxHashes {
    BlockWithTxHashes::new(MaybePendingBlock::Confirmed(ConfirmedBlockData {
        block_hash: felt_with_prefix(&[0x12, 0x34]),
        block_number: 4242,
        parent_hash: felt_with_prefix(&[0xab, 0xcd]),
        sequencer_address: felt_with_prefix(&[0x01]),
        timestamp: 1000,
        transactions,
    }))
}

fn assert_fixed_parts(block: &RichBlock, defaults: &HeaderDefaults) {
    assert_eq!(block.total_difficulty, defaults.total_difficulty);
    assert!(block.uncles.is_empty());
    assert_eq!(block.size, defaults.size);
    assert!(block.withdrawals.as_ref().unwrap().is_empty());
}

#[test]
fn confirmed_hash_only_block_is_assembled_field_for_field() {
    let t1 = felt_with_prefix(&[0x11]);
    let t2 = felt_with_prefix(&[0x22]);
    let defaults = HeaderDefaults::standard();
    let block = confirmed_hash_block(vec![t1, t2]).to_eth_block(&defaults, U256::from_u64(9));
    assert_eq!(
        block.header.hash.map(|h| h.bytes),
        Some(felt_with_prefix(&[0x12, 0x34]).bytes)
    );
    assert_eq!(block.header.parent_hash.bytes, felt_with_prefix(&[0xab, 0xcd]).bytes);
    assert_eq!(block.header.uncles_hash.bytes, block.header.parent_hash.bytes);
    assert_eq!(block.header.number, Some(U256::from_u64(4242)));
    assert_eq!(block.header.timestamp, U256::from_u64(1000));
    match &block.transactions {
        BlockTransactions::Hashes(hs) => {
            assert_eq!(hs.len(), 2);
            assert_eq!(hs[0].bytes, t1.bytes);
            assert_eq!(hs[1].bytes, t2.bytes);
        }
        other => panic!("expected hash transactions, got another variant: {}", kind(other)),
    }
}

fn kind(t: &BlockTransactions) -> &'static str {
    match t {
        BlockTransactions::Hashes(_) => "hashes",
        BlockTransactions::Full(_) => "full",
    }
}

#[test]
fn pending_block_lacks_hash_and_number() {
    let defaults = HeaderDefaults::standard();
    let block = pending_hash_block(vec![]).to_eth_block(&defaults, U256::from_u64(9));
    assert!(block.header.hash.is_none());
    assert!(block.header.number.is_none());
    assert_eq!(block.header.state_root.bytes, [0u8; 32]);
    assert_eq!(block.header.withdrawals_root.map(|h| h.bytes), Some([0u8; 32]));
}

#[test]
fn pending_full_block_lacks_hash_and_number() {
    let defaults = HeaderDefaults::standard();
    let view = BlockWithTxs::new(MaybePendingBlock::Pending(PendingBlockData {
        parent_hash: felt_with_prefix(&[0xab]),
        sequencer_address: felt_with_prefix(&[0x01]),
        timestamp: 7,
        transactions: vec![],
    }));
    let block = view.to_eth_block(&defaults, U256::from_u64(9), vec![]);
    assert!(block.header.hash.is_none());
    assert!(block.header.number.is_none());
    assert_eq!(block.header.state_root.bytes, [0u8; 32]);
    assert_eq!(block.header.withdrawals_root.map(|h| h.bytes), Some([0u8; 32]));
}

#[test]
fn transaction_order_is_preserved() {
    let t1 = felt_with_prefix(&[0x01]);
    let t2 = felt_with_prefix(&[0x02]);
    let t3 = felt_with_prefix(&[0x03]);
    let defaults = HeaderDefaults::standard();
    let block = pending_hash_block(vec![t1, t2, t3]).to_eth_block(&defaults, U256::from_u64(1));
    match &block.transactions {
        BlockTransactions::Hashes(hs) => {
            let expected: Vec<[u8; 32]> = vec![t1.bytes, t2.bytes, t3.bytes];
            let got: Vec<[u8; 32]> = hs.iter().map(|h| h.bytes).collect();
            assert_eq!(got, expected);
        }
        other => panic!("expected hash transactions, got another variant: {}", kind(other)),
    }
}

#[test]
fn ancillary_fields_are_the_fixed_defaults() {
    let defaults = HeaderDefaults::standard();
    let fee = U256::from_u64(3);
    assert_fixed_parts(&pending_hash_block(vec![]).to_eth_block(&defaults, fee), &defaults);
    assert_fixed_parts(&confirmed_hash_block(vec![]).to_eth_block(&defaults, fee), &defaults);
    let full = BlockWithTxs::new(MaybePendingBlock::Confirmed(ConfirmedBlockData {
        block_hash: felt_with_prefix(&[0x12]),
        block_number: 1,
        parent_hash: felt_with_prefix(&[0xab]),
        sequencer_address: felt_with_prefix(&[0x01]),
        timestamp: 7,
        transactions: vec![StarknetTransaction {
            transaction_hash: felt_with_prefix(&[0x44]),
        }],
    }));
    assert_fixed_parts(&full.to_eth_block(&defaults, fee, vec![]), &defaults);
}

#[test]
fn placeholder_header_fields_come_from_the_defaults() {
    let defaults = HeaderDefaults::standard();
    let fee = U256::from_u64(55);
    let block = confirmed_hash_block(vec![]).to_eth_block(&defaults, fee);
    assert_eq!(block.header.gas_limit, defaults.gas_limit);
    assert_eq!(block.header.gas_used, defaults.gas_used);
    assert_eq!(block.header.difficulty, defaults.difficulty);
    assert_eq!(block.header.nonce.map(|n| n.bytes), Some([0u8; 8]));
    assert_eq!(block.header.mix_hash.bytes, [0u8; 32]);
    assert_eq!(block.header.base_fee_per_gas, Some(fee));
    assert_eq!(block.header.transactions_root.bytes, [0u8; 32]);
    assert_eq!(block.header.receipts_root.bytes, [0u8; 32]);
    assert_eq!(block.header.extra_data, b"0x00".to_vec());
    assert_eq!(block.header.logs_bloom.bytes, [0u8; 256]);
}

#[test]
fn miner_is_the_truncated_sequencer_address() {
    let low20: [u8; 20] = [
        0xaa, 0xbb, 0xcc, 0xdd, 0xee, 0xff, 0x00, 0x11, 0x22, 0x33, 0x44, 0x55, 0x66, 0x77, 0x88,
        0x99, 0xaa, 0xbb, 0xcc, 0xdd,
    ];
    let mut sequencer = [0u8; 32];
    sequencer[12..].copy_from_slice(&low20);
    let defaults = HeaderDefaults::standard();
    let view = BlockWithTxHashes::new(MaybePendingBlock::Pending(PendingBlockData {
        parent_hash: felt_with_prefix(&[0xab]),
        sequencer_address: Felt { bytes: sequencer },
        timestamp: 7,
        transactions: vec![],
    }));
    let block = view.to_eth_block(&defaults, U256::from_u64(1));
    assert_eq!(block.header.miner.bytes, low20);
}

#[test]
fn full_transactions_are_carried_over_unchanged() {
    let defaults = HeaderDefaults::standard();
    let records = vec![
        EthTransaction { hash: H256 { bytes: [0x77u8; 32] } },
        EthTransaction { hash: H256 { bytes: [0x88u8; 32] } },
    ];
    let view = BlockWithTxs::new(MaybePendingBlock::Confirmed(ConfirmedBlockData {
        block_hash: felt_with_prefix(&[0x12]),
        block_number: 10,
        parent_hash: felt_with_prefix(&[0xab]),
        sequencer_address: felt_with_prefix(&[0x01]),
        timestamp: 7,
        transactions: vec![],
    }));
    let block = view.to_eth_block(&defaults, U256::from_u64(1), records);
    match &block.transactions {
        BlockTransactions::Full(ts) => {
            assert_eq!(ts.len(), 2);
            assert_eq!(ts[0].hash.bytes, [0x77u8; 32]);
            assert_eq!(ts[1].hash.bytes, [0x88u8; 32]);
        }
        other => panic!("expected full transactions, got another variant: {}", kind(other)),
    }
}

#[test]
fn confirmed_hash_and_number_are_the_encoded_source_fields() {
    let defaults = HeaderDefaults::standard();
    let block = confirmed_hash_block(vec![]).to_eth_block(&defaults, U256::from_u64(1));
    assert_eq!(
        block.header.hash.map(|h| h.bytes),
        Some(felt_with_prefix(&[0x12, 0x34]).bytes)
    );
    assert_eq!(block.header.number, Some(U256::from_u64(4242)));
}
