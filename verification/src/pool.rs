//! The memory pool: the staging area for unconfirmed transactions and for
//! blocks that arrive ahead of the canon chain. Exclusively owned by the
//! ledger coordinator, which is the only component that mutates it.

use vstd::prelude::*;

use crate::LedgerError;
use crate::types::{Block, BlockView, Transaction, TxView, blocks_contain_hash, txs_contain_id};

verus! {

/// The most pending blocks the pool will stage at once.
pub const POOL_BLOCK_CAPACITY: usize = 256;

/// The pool of unconfirmed transactions, keyed by transaction ID, and of
/// pending out-of-order blocks, keyed by block hash.
#[derive(Debug)]
pub struct MemoryPool {
    /// The unconfirmed transactions, in arrival order, unique by ID.
    pub transactions: Vec<Transaction>,
    /// The pending blocks, in arrival order, unique by hash.
    pub blocks: Vec<Block>,
}

/// The mathematical value of a [`MemoryPool`].
pub ghost struct PoolView {
    pub transactions: Seq<TxView>,
    pub blocks: Seq<BlockView>,
}

impl View for MemoryPool {
    type V = PoolView;

    open spec fn view(&self) -> PoolView {
        PoolView { transactions: self.transactions.deep_view(), blocks: self.blocks.deep_view() }
    }
}

impl PoolView {
    /// The pool's invariant: transaction IDs are unique, block hashes are
    /// unique, and the staged blocks fit the pool's capacity.
    pub open spec fn wf(self) -> bool {
        &&& forall|i: int, j: int|
            0 <= i < j < self.transactions.len() ==> self.transactions[i].id
                != self.transactions[j].id
        &&& forall|i: int, j: int|
            0 <= i < j < self.blocks.len() ==> self.blocks[i].hash != self.blocks[j].hash
        &&& self.blocks.len() <= POOL_BLOCK_CAPACITY
    }
}

impl MemoryPool {
    /// Creates an empty pool.
    pub fn new() -> (r: MemoryPool)
        ensures
            r@.transactions.len() == 0,
            r@.blocks.len() == 0,
            r@.wf(),
    {
        MemoryPool { transactions: Vec::new(), blocks: Vec::new() }
    }

    /// Returns whether the pool holds a transaction with the given ID.
    pub fn contains_transaction(&self, id: u64) -> (r: bool)
        ensures
            r == txs_contain_id(self@.transactions, id),
    {
        let mut i: usize = 0;
        while i < self.transactions.len()
            invariant
                i <= self.transactions@.len(),
                forall|j: int| 0 <= j < i ==> self@.transactions[j].id != id,
            decreases self.transactions@.len() - i,
        {
            if self.transactions[i].id == id {
                proof {
                    assert(self@.transactions[i as int].id == id);
                }
                return true;
            }
            i = i + 1;
        }
        false
    }

    /// Returns whether the pool stages a block with the given hash.
    pub fn contains_block(&self, hash: u64) -> (r: bool)
        ensures
            r == blocks_contain_hash(self@.blocks, hash),
    {
        let mut i: usize = 0;
        while i < self.blocks.len()
            invariant
                i <= self.blocks@.len(),
                forall|j: int| 0 <= j < i ==> self@.blocks[j].hash != hash,
            decreases self.blocks@.len() - i,
        {
            if self.blocks[i].hash == hash {
                proof {
                    assert(self@.blocks[i as int].hash == hash);
                }
                return true;
            }
            i = i + 1;
        }
        false
    }

    /// Adds an unconfirmed transaction to the pool. Fails with `Duplicate`
    /// exactly when a transaction with the same ID is already pooled.
    pub fn add_transaction(&mut self, transaction: &Transaction) -> (r: Result<(), LedgerError>)
        requires
            old(self)@.wf(),
        ensures
            final(self)@.wf(),
            final(self)@.blocks == old(self)@.blocks,
            txs_contain_id(old(self)@.transactions, transaction@.id) ==> {
                &&& r == Result::<(), LedgerError>::Err(LedgerError::Duplicate)
                &&& final(self)@.transactions == old(self)@.transactions
            },
            !txs_contain_id(old(self)@.transactions, transaction@.id) ==> {
                &&& r == Result::<(), LedgerError>::Ok(())
                &&& final(self)@.transactions == old(self)@.transactions.push(transaction@)
            },
    {
        if self.contains_transaction(transaction.id) {
            return Err(LedgerError::Duplicate);
        }
        self.transactions.push(transaction.duplicate());
        proof {
            assert(self@.transactions =~= old(self)@.transactions.push(transaction@));
            assert forall|i: int, j: int|
                0 <= i < j < self@.transactions.len() implies self@.transactions[i].id
                != self@.transactions[j].id by {
                if j == self@.transactions.len() - 1 {
                    assert(old(self)@.transactions[i].id != transaction@.id);
                }
            }
        }
        Ok(())
    }

    /// Stages an unconfirmed out-of-order block. Fails with `Duplicate`
    /// exactly when a block with the same hash is already staged, and with
    /// `Capacity` when the pool is full.
    pub fn add_block(&mut self, block: &Block) -> (r: Result<(), LedgerError>)
        requires
            old(self)@.wf(),
        ensures
            final(self)@.wf(),
            final(self)@.transactions == old(self)@.transactions,
            blocks_contain_hash(old(self)@.blocks, block@.hash) ==> {
                &&& r == Result::<(), LedgerError>::Err(LedgerError::Duplicate)
                &&& final(self)@.blocks == old(self)@.blocks
            },
            (!blocks_contain_hash(old(self)@.blocks, block@.hash) && old(self)@.blocks.len()
                >= POOL_BLOCK_CAPACITY) ==> {
                &&& r == Result::<(), LedgerError>::Err(LedgerError::Capacity)
                &&& final(self)@.blocks == old(self)@.blocks
            },
            (!blocks_contain_hash(old(self)@.blocks, block@.hash) && old(self)@.blocks.len()
                < POOL_BLOCK_CAPACITY) ==> {
                &&& r == Result::<(), LedgerError>::Ok(())
                &&& final(self)@.blocks == old(self)@.blocks.push(block@)
            },
    {
        if self.contains_block(block.hash) {
            return Err(LedgerError::Duplicate);
        }
        if self.blocks.len() >= POOL_BLOCK_CAPACITY {
            return Err(LedgerError::Capacity);
        }
        self.blocks.push(block.duplicate());
        proof {
            assert(self@.blocks =~= old(self)@.blocks.push(block@));
            assert forall|i: int, j: int|
                0 <= i < j < self@.transactions.len() implies self@.transactions[i].id
                != self@.transactions[j].id by {
                assert(old(self)@.transactions[i].id != old(self)@.transactions[j].id);
            }
            assert forall|i: int, j: int|
                0 <= i < j < self@.blocks.len() implies self@.blocks[i].hash
                != self@.blocks[j].hash by {
                if j == self@.blocks.len() - 1 {
                    assert(old(self)@.blocks[i].hash != block@.hash);
                }
            }
        }
        Ok(())
    }

    /// Returns a stable snapshot of the pooled transactions, in arrival
    /// order, usable for assembling a new block.
    pub fn transactions(&self) -> (r: Vec<Transaction>)
        ensures
            r.deep_view() == self@.transactions,
    {
        let mut r: Vec<Transaction> = Vec::new();
        let mut i: usize = 0;
        while i < self.transactions.len()
            invariant
                i <= self.transactions@.len(),
                r@.len() == i,
                forall|j: int| 0 <= j < i ==> #[trigger] r@[j]@ == self.transactions@[j]@,
            decreases self.transactions@.len() - i,
        {
            r.push(self.transactions[i].duplicate());
            i = i + 1;
        }
        proof {
            assert(r.deep_view() =~= self@.transactions);
        }
        r
    }

    /// Removes every pooled transaction. Staged blocks are kept.
    pub fn clear_transactions(&mut self)
        ensures
            final(self)@.transactions.len() == 0,
            final(self)@.blocks == old(self)@.blocks,
            old(self)@.wf() ==> final(self)@.wf(),
    {
        self.transactions = Vec::new();
    }
}

} // verus!
