use ledger_node::chain::CanonChain;
use ledger_node::ledger::Ledger;
use ledger_node::pool::MemoryPool;
use ledger_node::request::{LedgerRequest, Message, SinkAction};
use ledger_node::types::{Block, Transaction};
use ledger_node::LedgerError;

fn tx(id: u64) -> Transaction {
    Transaction {
        id,
        serial_numbers: vec![id * 10 + 1],
        commitments: vec![id * 10 + 2],
        ciphertext_ids: vec![id * 10 + 3],
    }
}

fn block(height: u32, hash: u64, transactions: Vec<Transaction>) -> Block {
    Block {
        height,
        hash,
        previous_hash: if hash > 0 { hash - 1 } else { 0 },
        timestamp: 1_600_000_000 + height as i64,
        difficulty_target: 1 << 40,
        ledger_root: 7_000 + height as u64,
        transactions,
        nonce: 42,
    }
}

/// A ledger whose canon chain runs from genesis up to `height`.
fn ledger_of_height(height: u32) -> Ledger {
    let mut ledger = Ledger::open(block(0, 0, vec![])).unwrap();
    for h in 1..=height {
        ledger
            .canon
            .add_next_block(&block(h, h as u64, vec![]))
            .unwrap();
    }
    assert_eq!(ledger.latest_block_height(), height);
    ledger
}

#[test]
fn open_requires_genesis_height_zero() {
    assert!(Ledger::open(block(0, 0, vec![])).is_ok());
    assert!(matches!(
        Ledger::open(block(3, 9, vec![])),
        Err(LedgerError::AppendError)
    ));
}

#[test]
fn append_increments_height_by_exactly_one() {
    let mut chain = CanonChain::new(block(0, 0, vec![])).unwrap();
    assert_eq!(chain.latest_block_height(), 0);
    chain.add_next_block(&block(1, 1, vec![])).unwrap();
    assert_eq!(chain.latest_block_height(), 1);
    // A gap is refused and the chain is unchanged.
    assert!(matches!(
        chain.add_next_block(&block(3, 3, vec![])),
        Err(LedgerError::AppendError)
    ));
    assert_eq!(chain.latest_block_height(), 1);
    // Re-appending the current height is refused too.
    assert!(matches!(
        chain.add_next_block(&block(1, 17, vec![])),
        Err(LedgerError::AppendError)
    ));
    assert_eq!(chain.latest_block_height(), 1);
}

#[test]
fn unconfirmed_transaction_pools_and_propagates() {
    let mut ledger = ledger_of_height(10);
    let outcome = ledger.update(LedgerRequest::UnconfirmedTransaction(1, tx(100)));
    assert!(outcome.result.is_ok());
    assert_eq!(outcome.actions.len(), 1);
    match &outcome.actions[0] {
        SinkAction::Propagate(peer, Message::UnconfirmedTransaction(t)) => {
            assert_eq!(*peer, 1);
            assert_eq!(t.id, 100);
        }
        other => panic!("unexpected action: {:?}", action_tag(other)),
    }
    assert_eq!(ledger.memory_pool.transactions.len(), 1);
    assert_eq!(ledger.memory_pool.transactions[0].id, 100);
}

#[test]
fn unconfirmed_transaction_duplicate_is_silently_ignored() {
    let mut ledger = ledger_of_height(10);
    let first = ledger.update(LedgerRequest::UnconfirmedTransaction(1, tx(100)));
    assert_eq!(first.actions.len(), 1);
    // The same transaction again: exactly one pooled entry stays, and no
    // second propagate is issued.
    let second = ledger.update(LedgerRequest::UnconfirmedTransaction(2, tx(100)));
    assert!(second.result.is_ok());
    assert_eq!(second.actions.len(), 0);
    assert_eq!(ledger.memory_pool.transactions.len(), 1);
}

#[test]
fn transaction_already_in_canon_is_ignored() {
    let mut ledger = Ledger::open(block(0, 0, vec![])).unwrap();
    ledger
        .canon
        .add_next_block(&block(1, 1, vec![tx(55)]))
        .unwrap();
    let outcome = ledger.update(LedgerRequest::UnconfirmedTransaction(4, tx(55)));
    assert!(outcome.result.is_ok());
    assert_eq!(outcome.actions.len(), 0);
    assert_eq!(ledger.memory_pool.transactions.len(), 0);
}

#[test]
fn sync_request_hit_propagates_block() {
    let mut ledger = ledger_of_height(10);
    let outcome = ledger.update(LedgerRequest::SyncRequest(7, 5));
    assert!(outcome.result.is_ok());
    assert_eq!(outcome.actions.len(), 1);
    match &outcome.actions[0] {
        SinkAction::Propagate(peer, Message::SyncResponse(height, b)) => {
            assert_eq!(*peer, 7);
            assert_eq!(*height, 5);
            assert_eq!(b.height, 5);
            assert_eq!(b.hash, 5);
        }
        other => panic!("unexpected action: {:?}", action_tag(other)),
    }
    assert_eq!(ledger.latest_block_height(), 10);
}

#[test]
fn sync_request_miss_reports_failure() {
    let mut ledger = ledger_of_height(10);
    let outcome = ledger.update(LedgerRequest::SyncRequest(7, 50));
    assert!(outcome.result.is_ok());
    assert_eq!(outcome.actions.len(), 1);
    match &outcome.actions[0] {
        SinkAction::ReportFailure(peer, e) => {
            assert_eq!(*peer, 7);
            assert_eq!(*e, LedgerError::LookupMiss);
        }
        other => panic!("unexpected action: {:?}", action_tag(other)),
    }
    assert_eq!(ledger.latest_block_height(), 10);
}

#[test]
fn stale_unconfirmed_block_is_rejected_untouched() {
    let mut ledger = ledger_of_height(10);
    let outcome = ledger.update(LedgerRequest::UnconfirmedBlock(3, block(3, 90, vec![])));
    assert!(matches!(outcome.result, Err(LedgerError::StaleHeight)));
    assert_eq!(outcome.actions.len(), 0);
    assert_eq!(ledger.latest_block_height(), 10);
    assert_eq!(ledger.memory_pool.transactions.len(), 0);
    assert_eq!(ledger.memory_pool.blocks.len(), 0);
}

/// The coordinator's height check compares `height + 1` against the
/// current height, while the store demands `height == current + 1`; the
/// two never agree, so a block of the very next height is treated as a
/// future block and staged in the pool rather than appended.
#[test]
fn next_height_block_is_staged_not_appended() {
    let mut ledger = ledger_of_height(10);
    let first = ledger.update(LedgerRequest::UnconfirmedTransaction(1, tx(100)));
    assert_eq!(first.actions.len(), 1);
    let block_11 = block(11, 11, vec![tx(100)]);
    let outcome = ledger.update(LedgerRequest::UnconfirmedBlock(2, block_11));
    assert!(outcome.result.is_ok());
    // The block is staged and propagated; the chain and the pooled
    // transactions are untouched.
    assert_eq!(ledger.latest_block_height(), 10);
    assert_eq!(ledger.memory_pool.blocks.len(), 1);
    assert_eq!(ledger.memory_pool.blocks[0].height, 11);
    assert_eq!(ledger.memory_pool.transactions.len(), 1);
    assert_eq!(outcome.actions.len(), 1);
    match &outcome.actions[0] {
        SinkAction::Propagate(peer, Message::UnconfirmedBlock(height, b)) => {
            assert_eq!(*peer, 2);
            assert_eq!(*height, 11);
            assert_eq!(b.hash, 11);
        }
        other => panic!("unexpected action: {:?}", action_tag(other)),
    }
}

/// A block the height check admits (height one below the current height) reaches
/// the store, which re-validates and rejects it; the refusal is logged
/// and swallowed, mutating nothing.
#[test]
fn admitted_block_is_rejected_by_store() {
    let mut ledger = ledger_of_height(10);
    ledger.update(LedgerRequest::UnconfirmedTransaction(1, tx(100)));
    let outcome = ledger.update(LedgerRequest::UnconfirmedBlock(2, block(9, 90, vec![])));
    assert!(outcome.result.is_ok());
    assert_eq!(outcome.actions.len(), 0);
    assert_eq!(ledger.latest_block_height(), 10);
    assert_eq!(ledger.memory_pool.transactions.len(), 1);
    assert_eq!(ledger.memory_pool.blocks.len(), 0);
}

#[test]
fn unconfirmed_block_already_in_canon_is_ignored() {
    let mut ledger = ledger_of_height(10);
    // Hash 5 is already a canon block's hash; the future-height block
    // carrying it is dropped without staging or propagating.
    let outcome = ledger.update(LedgerRequest::UnconfirmedBlock(2, block(12, 5, vec![])));
    assert!(outcome.result.is_ok());
    assert_eq!(outcome.actions.len(), 0);
    assert_eq!(ledger.memory_pool.blocks.len(), 0);
}

#[test]
fn sync_response_failing_height_check_reports_failure() {
    let mut ledger = ledger_of_height(10);
    let outcome = ledger.update(LedgerRequest::SyncResponse(6, 11, block(11, 11, vec![])));
    assert!(outcome.result.is_ok());
    assert_eq!(outcome.actions.len(), 1);
    match &outcome.actions[0] {
        SinkAction::ReportFailure(peer, e) => {
            assert_eq!(*peer, 6);
            assert_eq!(*e, LedgerError::AppendError);
        }
        other => panic!("unexpected action: {:?}", action_tag(other)),
    }
    assert_eq!(ledger.latest_block_height(), 10);
}

#[test]
fn sync_block_passing_height_check_is_swallowed_by_store() {
    let mut ledger = ledger_of_height(10);
    let r = ledger.add_sync_block(&block(9, 90, vec![]));
    assert!(r.is_ok());
    assert_eq!(ledger.latest_block_height(), 10);
}

#[test]
fn mine_sets_flag_and_snapshots_head() {
    let mut ledger = ledger_of_height(10);
    ledger.update(LedgerRequest::UnconfirmedTransaction(1, tx(100)));
    let job = ledger.mine_next_block(777, 1_700_000_000).unwrap();
    assert!(ledger.is_mining);
    assert_eq!(job.previous_block_hash, 10);
    assert_eq!(job.block_height, 11);
    assert_eq!(job.block_timestamp, 1_700_000_000);
    assert_eq!(job.previous_timestamp, 1_600_000_010);
    assert_eq!(job.previous_difficulty_target, 1 << 40);
    assert_eq!(job.ledger_root, 7_010);
    assert_eq!(job.recipient, 777);
    assert_eq!(job.transactions.len(), 1);
    assert_eq!(job.transactions[0].id, 100);
}

#[test]
fn second_mine_request_is_a_no_op() {
    let mut ledger = ledger_of_height(10);
    let first = ledger.update(LedgerRequest::Mine(777));
    assert!(first.result.is_ok());
    assert!(first.job.is_some());
    assert!(ledger.is_mining);
    // Back-to-back: the second call observes the in-progress flag, spawns
    // nothing, and succeeds with no side effect.
    let second = ledger.update(LedgerRequest::Mine(888));
    assert!(second.result.is_ok());
    assert!(second.job.is_none());
    assert_eq!(second.actions.len(), 0);
    assert!(ledger.is_mining);
    assert_eq!(ledger.latest_block_height(), 10);
}

#[test]
fn finish_mining_broadcasts_exactly_on_success() {
    let mut ledger = ledger_of_height(10);
    ledger.mine_next_block(777, 0).unwrap();
    assert!(ledger.is_mining);
    let actions = ledger.finish_mining(Ok(block(11, 11, vec![])));
    assert!(!ledger.is_mining);
    assert_eq!(actions.len(), 1);
    match &actions[0] {
        SinkAction::Broadcast(Message::UnconfirmedBlock(height, b)) => {
            assert_eq!(*height, 11);
            assert_eq!(b.hash, 11);
        }
        other => panic!("unexpected action: {:?}", action_tag(other)),
    }
    // A failed attempt lowers the flag and broadcasts nothing.
    ledger.mine_next_block(777, 0).unwrap();
    let none = ledger.finish_mining(Err(LedgerError::SearchFailure));
    assert!(!ledger.is_mining);
    assert_eq!(none.len(), 0);
}

#[test]
fn miner_job_assembles_block_with_coinbase_first() {
    let mut ledger = ledger_of_height(2);
    ledger.update(LedgerRequest::UnconfirmedTransaction(1, tx(100)));
    let job = ledger.mine_next_block(777, 123).unwrap();
    let b = job.assemble_block(tx(500), 333, 1 << 39, 9);
    assert_eq!(b.height, 3);
    assert_eq!(b.previous_hash, 2);
    assert_eq!(b.timestamp, 123);
    assert_eq!(b.difficulty_target, 1 << 39);
    assert_eq!(b.ledger_root, 7_002);
    assert_eq!(b.nonce, 9);
    assert_eq!(b.hash, 333);
    assert_eq!(b.transactions.len(), 2);
    assert_eq!(b.transactions[0].id, 500);
    assert_eq!(b.transactions[1].id, 100);
}

#[test]
fn cancel_mining_raises_terminator() {
    let mut ledger = ledger_of_height(1);
    assert!(!ledger.terminator);
    ledger.cancel_mining();
    assert!(ledger.terminator);
    assert!(!ledger.mining_active());
}

#[test]
fn pool_cleared_when_store_accepts_sync_block() {
    // Driving the store directly: a successful append through the
    // coordinator's pool-clearing path empties the pooled transactions.
    let mut pool = MemoryPool::new();
    pool.add_transaction(&tx(100)).unwrap();
    assert_eq!(pool.transactions.len(), 1);
    pool.clear_transactions();
    assert_eq!(pool.transactions.len(), 0);
    assert!(pool.blocks.is_empty());
}

fn action_tag(action: &SinkAction) -> &'static str {
    match action {
        SinkAction::Broadcast(_) => "broadcast",
        SinkAction::Propagate(_, _) => "propagate",
        SinkAction::ReportFailure(_, _) => "report_failure",
    }
}
