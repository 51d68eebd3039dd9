use ledger_node::chain::CanonChain;
use ledger_node::pool::{MemoryPool, POOL_BLOCK_CAPACITY};
use ledger_node::types::{Block, Transaction};
use ledger_node::LedgerError;

fn plain_tx(id: u64, serial: u64, commitment: u64, ciphertext: u64) -> Transaction {
    Transaction {
        id,
        serial_numbers: vec![serial],
        commitments: vec![commitment],
        ciphertext_ids: vec![ciphertext],
    }
}

fn plain_block(height: u32, hash: u64, transactions: Vec<Transaction>) -> Block {
    Block {
        height,
        hash,
        previous_hash: hash.wrapping_sub(1),
        timestamp: 100 + height as i64,
        difficulty_target: 999,
        ledger_root: 5_000 + height as u64,
        transactions,
        nonce: 1,
    }
}

#[test]
fn pool_rejects_duplicate_transaction() {
    let mut pool = MemoryPool::new();
    assert!(pool.add_transaction(&plain_tx(1, 11, 12, 13)).is_ok());
    assert!(matches!(
        pool.add_transaction(&plain_tx(1, 99, 98, 97)),
        Err(LedgerError::Duplicate)
    ));
    assert_eq!(pool.transactions.len(), 1);
    let snapshot = pool.transactions();
    assert_eq!(snapshot.len(), 1);
    assert_eq!(snapshot[0].id, 1);
    assert_eq!(snapshot[0].serial_numbers, vec![11]);
}

#[test]
fn pool_rejects_duplicate_block_and_enforces_capacity() {
    let mut pool = MemoryPool::new();
    assert!(pool.add_block(&plain_block(5, 500, vec![])).is_ok());
    assert!(matches!(
        pool.add_block(&plain_block(6, 500, vec![])),
        Err(LedgerError::Duplicate)
    ));
    for i in 1..POOL_BLOCK_CAPACITY as u64 {
        assert!(pool.add_block(&plain_block(5, 500 + i, vec![])).is_ok());
    }
    assert_eq!(pool.blocks.len(), POOL_BLOCK_CAPACITY);
    assert!(matches!(
        pool.add_block(&plain_block(5, 9_999_999, vec![])),
        Err(LedgerError::Capacity)
    ));
    assert_eq!(pool.blocks.len(), POOL_BLOCK_CAPACITY);
}

#[test]
fn pool_contains_checks() {
    let mut pool = MemoryPool::new();
    pool.add_transaction(&plain_tx(8, 1, 2, 3)).unwrap();
    pool.add_block(&plain_block(4, 44, vec![])).unwrap();
    assert!(pool.contains_transaction(8));
    assert!(!pool.contains_transaction(9));
    assert!(pool.contains_block(44));
    assert!(!pool.contains_block(45));
}

#[test]
fn chain_lookups_find_what_blocks_carry() {
    let mut chain = CanonChain::new(plain_block(0, 0, vec![])).unwrap();
    chain
        .add_next_block(&plain_block(1, 10, vec![plain_tx(7, 71, 72, 73)]))
        .unwrap();
    chain
        .add_next_block(&plain_block(2, 20, vec![plain_tx(8, 81, 82, 83)]))
        .unwrap();

    assert_eq!(chain.latest_block_height(), 2);
    assert_eq!(chain.latest_block_hash(), 20);
    assert_eq!(chain.latest_ledger_root(), 5_002);
    assert_eq!(chain.latest_block_timestamp(), 102);
    assert_eq!(chain.latest_block_difficulty_target(), 999);

    assert!(chain.contains_block_height(2));
    assert!(!chain.contains_block_height(3));
    assert!(chain.contains_block_hash(10));
    assert!(!chain.contains_block_hash(11));
    assert!(chain.contains_ledger_root(5_001));
    assert!(!chain.contains_ledger_root(5_009));
    assert!(chain.contains_transaction(7));
    assert!(chain.contains_transaction(8));
    assert!(!chain.contains_transaction(9));
    assert!(chain.contains_serial_number(81));
    assert!(!chain.contains_serial_number(89));
    assert!(chain.contains_commitment(72));
    assert!(!chain.contains_commitment(79));
    assert!(chain.contains_ciphertext_id(83));
    assert!(!chain.contains_ciphertext_id(89));

    assert_eq!(chain.get_block_hash(1).unwrap(), 10);
    assert_eq!(chain.get_previous_block_hash(1).unwrap(), 9);
    let header = chain.get_block_header(2).unwrap();
    assert_eq!(header.height, 2);
    assert_eq!(header.timestamp, 102);
    assert_eq!(header.ledger_root, 5_002);
    let txs = chain.get_block_transactions(1).unwrap();
    assert_eq!(txs.len(), 1);
    assert_eq!(txs[0].id, 7);
    let b = chain.get_block(2).unwrap();
    assert_eq!(b.hash, 20);
    let t = chain.get_transaction(8).unwrap();
    assert_eq!(t.id, 8);
    assert_eq!(t.commitments, vec![82]);
    assert!(matches!(
        chain.get_transaction(9),
        Err(LedgerError::LookupMiss)
    ));
    assert!(matches!(chain.get_block(3), Err(LedgerError::LookupMiss)));
    assert!(matches!(
        chain.get_block_hash(3),
        Err(LedgerError::LookupMiss)
    ));
}

#[test]
fn ledger_getters_delegate_to_chain() {
    let genesis = plain_block(0, 0, vec![plain_tx(3, 31, 32, 33)]);
    let mut ledger = ledger_node::ledger::Ledger::open(genesis).unwrap();
    ledger
        .canon
        .add_next_block(&plain_block(1, 10, vec![]))
        .unwrap();
    assert_eq!(ledger.latest_block_height(), 1);
    assert_eq!(ledger.latest_block_hash(), 10);
    assert_eq!(ledger.latest_ledger_root(), 5_001);
    assert_eq!(ledger.latest_block_timestamp().unwrap(), 101);
    assert_eq!(ledger.latest_block_difficulty_target().unwrap(), 999);
    assert_eq!(ledger.latest_block_header().unwrap().height, 1);
    assert_eq!(ledger.latest_block_transactions().unwrap().len(), 0);
    assert_eq!(ledger.latest_block().unwrap().hash, 10);
    assert!(ledger.contains_ledger_root(5_000).unwrap());
    assert!(ledger.contains_block_height(1).unwrap());
    assert!(ledger.contains_block_hash(0).unwrap());
    assert!(ledger.contains_transaction(3).unwrap());
    assert!(ledger.contains_serial_number(31).unwrap());
    assert!(ledger.contains_commitment(32).unwrap());
    assert!(ledger.contains_ciphertext_id(33).unwrap());
    assert!(!ledger.contains_transaction(4).unwrap());
    assert_eq!(ledger.get_transaction(3).unwrap().id, 3);
    assert_eq!(ledger.get_block_hash(1).unwrap(), 10);
    assert_eq!(ledger.get_previous_block_hash(1).unwrap(), 9);
    assert_eq!(ledger.get_block_header(0).unwrap().height, 0);
    assert_eq!(ledger.get_block_transactions(0).unwrap()[0].id, 3);
    assert_eq!(ledger.get_block(1).unwrap().hash, 10);
    assert!(matches!(
        ledger.get_block(9),
        Err(LedgerError::LookupMiss)
    ));
}
