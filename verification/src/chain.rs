//! The canonical chain store model: the append-only sequence of finalized
//! blocks, with height, hash and identifier lookups, and a single append
//! operation that succeeds only when the candidate's height is exactly the
//! current height plus one.

use vstd::prelude::*;

use crate::LedgerError;
use crate::types::{Block, BlockHeader, BlockView, Transaction, TxView, txs_contain_id};

verus! {

/// The canon chain invariant: at least the genesis block is present, and the
/// block at position `i` has height `i`.
pub open spec fn chain_wf(chain: Seq<BlockView>) -> bool {
    &&& 1 <= chain.len()
    &&& forall|i: int| 0 <= i < chain.len() ==> #[trigger] chain[i].height as int == i
}

/// Returns whether a block holds a transaction with the given ID.
pub open spec fn block_has_tx(b: BlockView, id: u64) -> bool {
    txs_contain_id(b.transactions, id)
}

/// Returns whether a block holds the given serial number.
pub open spec fn block_has_serial_number(b: BlockView, sn: u64) -> bool {
    exists|i: int| 0 <= i < b.transactions.len() && b.transactions[i].serial_numbers.contains(sn)
}

/// Returns whether a block holds the given commitment.
pub open spec fn block_has_commitment(b: BlockView, cm: u64) -> bool {
    exists|i: int| 0 <= i < b.transactions.len() && b.transactions[i].commitments.contains(cm)
}

/// Returns whether a block holds the given ciphertext ID.
pub open spec fn block_has_ciphertext_id(b: BlockView, cid: u64) -> bool {
    exists|i: int| 0 <= i < b.transactions.len() && b.transactions[i].ciphertext_ids.contains(cid)
}

/// Returns whether any block of the chain satisfies `block_has_tx`.
pub open spec fn chain_has_tx(chain: Seq<BlockView>, id: u64) -> bool {
    exists|i: int| 0 <= i < chain.len() && block_has_tx(chain[i], id)
}

/// Returns whether `t` is one of the chain's transactions.
pub open spec fn tx_in_chain(chain: Seq<BlockView>, t: TxView) -> bool {
    exists|i: int, j: int|
        0 <= i < chain.len() && 0 <= j < chain[i].transactions.len() && chain[i].transactions[j]
            == t
}

/// Returns whether any block of the chain holds the given serial number.
pub open spec fn chain_has_serial_number(chain: Seq<BlockView>, sn: u64) -> bool {
    exists|i: int| 0 <= i < chain.len() && block_has_serial_number(chain[i], sn)
}

/// Returns whether any block of the chain holds the given commitment.
pub open spec fn chain_has_commitment(chain: Seq<BlockView>, cm: u64) -> bool {
    exists|i: int| 0 <= i < chain.len() && block_has_commitment(chain[i], cm)
}

/// Returns whether any block of the chain holds the given ciphertext ID.
pub open spec fn chain_has_ciphertext_id(chain: Seq<BlockView>, cid: u64) -> bool {
    exists|i: int| 0 <= i < chain.len() && block_has_ciphertext_id(chain[i], cid)
}

/// Returns whether any block of the chain has the given hash.
pub open spec fn chain_has_hash(chain: Seq<BlockView>, hash: u64) -> bool {
    exists|i: int| 0 <= i < chain.len() && chain[i].hash == hash
}

/// Returns whether any block of the chain carries the given ledger root.
pub open spec fn chain_has_ledger_root(chain: Seq<BlockView>, root: u64) -> bool {
    exists|i: int| 0 <= i < chain.len() && chain[i].ledger_root == root
}

/// The canonical chain of finalized blocks.
#[derive(Debug)]
pub struct CanonChain {
    /// The finalized blocks, position `i` holding the block of height `i`.
    pub blocks: Vec<Block>,
}

impl View for CanonChain {
    type V = Seq<BlockView>;

    open spec fn view(&self) -> Seq<BlockView> {
        self.blocks.deep_view()
    }
}

impl Block {
    /// Returns whether the block holds a transaction with the given ID.
    pub fn has_transaction(&self, id: u64) -> (r: bool)
        ensures
            r == block_has_tx(self@, id),
    {
        let mut i: usize = 0;
        while i < self.transactions.len()
            invariant
                i <= self.transactions@.len(),
                forall|j: int| 0 <= j < i ==> self@.transactions[j].id != id,
            decreases self.transactions@.len() - i,
        {
            if self.transactions[i].id == id {
                proof {
                    assert(self@.transactions[i as int].id == id);
                }
                return true;
            }
            i = i + 1;
        }
        false
    }

    /// Returns whether the block holds the given serial number.
    pub fn has_serial_number(&self, sn: u64) -> (r: bool)
        ensures
            r == block_has_serial_number(self@, sn),
    {
        let mut i: usize = 0;
        while i < self.transactions.len()
            invariant
                i <= self.transactions@.len(),
                forall|j: int| 0 <= j < i ==> !self@.transactions[j].serial_numbers.contains(sn),
            decreases self.transactions@.len() - i,
        {
            if self.transactions[i].contains_serial_number(sn) {
                proof {
                    assert(self@.transactions[i as int].serial_numbers.contains(sn));
                }
                return true;
            }
            i = i + 1;
        }
        false
    }

    /// Returns whether the block holds the given commitment.
    pub fn has_commitment(&self, cm: u64) -> (r: bool)
        ensures
            r == block_has_commitment(self@, cm),
    {
        let mut i: usize = 0;
        while i < self.transactions.len()
            invariant
                i <= self.transactions@.len(),
                forall|j: int| 0 <= j < i ==> !self@.transactions[j].commitments.contains(cm),
            decreases self.transactions@.len() - i,
        {
            if self.transactions[i].contains_commitment(cm) {
                proof {
                    assert(self@.transactions[i as int].commitments.contains(cm));
                }
                return true;
            }
            i = i + 1;
        }
        false
    }

    /// Returns whether the block holds the given ciphertext ID.
    pub fn has_ciphertext_id(&self, cid: u64) -> (r: bool)
        ensures
            r == block_has_ciphertext_id(self@, cid),
    {
        let mut i: usize = 0;
        while i < self.transactions.len()
            invariant
                i <= self.transactions@.len(),
                forall|j: int| 0 <= j < i ==> !self@.transactions[j].ciphertext_ids.contains(cid),
            decreases self.transactions@.len() - i,
        {
            if self.transactions[i].contains_ciphertext_id(cid) {
                proof {
                    assert(self@.transactions[i as int].ciphertext_ids.contains(cid));
                }
                return true;
            }
            i = i + 1;
        }
        false
    }
}

impl CanonChain {
    /// Creates a chain from its genesis block, which must have height 0.
    pub fn new(genesis: Block) -> (r: Result<CanonChain, LedgerError>)
        ensures
            genesis@.height == 0 ==> {
                &&& r is Ok
                &&& r.unwrap()@ == seq![genesis@]
                &&& chain_wf(r.unwrap()@)
            },
            genesis@.height != 0 ==> r == Result::<CanonChain, LedgerError>::Err(
                LedgerError::AppendError,
            ),
    {
        if genesis.height != 0 {
            return Err(LedgerError::AppendError);
        }
        let mut blocks: Vec<Block> = Vec::new();
        blocks.push(genesis);
        let r = CanonChain { blocks };
        proof {
            assert(r@ =~= seq![r.blocks@[0]@]);
        }
        Ok(r)
    }

    /// The height of the chain's tip.
    pub fn latest_block_height(&self) -> (r: u32)
        requires
            chain_wf(self@),
        ensures
            r == self@.last().height,
            r as int == self@.len() - 1,
    {
        self.blocks[self.blocks.len() - 1].height
    }

    /// The hash of the chain's tip.
    pub fn latest_block_hash(&self) -> (r: u64)
        requires
            chain_wf(self@),
        ensures
            r == self@.last().hash,
    {
        self.blocks[self.blocks.len() - 1].hash
    }

    /// The ledger root of the chain's tip.
    pub fn latest_ledger_root(&self) -> (r: u64)
        requires
            chain_wf(self@),
        ensures
            r == self@.last().ledger_root,
    {
        self.blocks[self.blocks.len() - 1].ledger_root
    }

    /// The timestamp of the chain's tip.
    pub fn latest_block_timestamp(&self) -> (r: i64)
        requires
            chain_wf(self@),
        ensures
            r == self@.last().timestamp,
    {
        self.blocks[self.blocks.len() - 1].timestamp
    }

    /// The difficulty target of the chain's tip.
    pub fn latest_block_difficulty_target(&self) -> (r: u64)
        requires
            chain_wf(self@),
        ensures
            r == self@.last().difficulty_target,
    {
        self.blocks[self.blocks.len() - 1].difficulty_target
    }

    /// Appends `block` as the chain's next block. Succeeds exactly when the
    /// candidate's height is the current height plus one; on failure the
    /// chain is unchanged.
    pub fn add_next_block(&mut self, block: &Block) -> (r: Result<(), LedgerError>)
        requires
            chain_wf(old(self)@),
        ensures
            chain_wf(final(self)@),
            block@.height as int == old(self)@.len() ==> {
                &&& r == Result::<(), LedgerError>::Ok(())
                &&& final(self)@ == old(self)@.push(block@)
            },
            block@.height as int != old(self)@.len() ==> {
                &&& r == Result::<(), LedgerError>::Err(LedgerError::AppendError)
                &&& final(self)@ == old(self)@
            },
    {
        let latest = self.latest_block_height();
        if !(latest < u32::MAX && block.height == latest + 1) {
            return Err(LedgerError::AppendError);
        }
        self.blocks.push(block.duplicate());
        proof {
            assert(self@ =~= old(self)@.push(block@));
        }
        Ok(())
    }

    /// Returns whether the chain holds a block of the given height.
    pub fn contains_block_height(&self, height: u32) -> (r: bool)
        ensures
            r == (height < self@.len()),
    {
        (height as usize) < self.blocks.len()
    }

    /// Returns whether the chain holds a block with the given hash.
    pub fn contains_block_hash(&self, hash: u64) -> (r: bool)
        ensures
            r == chain_has_hash(self@, hash),
    {
        let mut i: usize = 0;
        while i < self.blocks.len()
            invariant
                i <= self.blocks@.len(),
                forall|j: int| 0 <= j < i ==> self@[j].hash != hash,
            decreases self.blocks@.len() - i,
        {
            if self.blocks[i].hash == hash {
                proof {
                    assert(self@[i as int].hash == hash);
                }
                return true;
            }
            i = i + 1;
        }
        false
    }

    /// Returns whether the chain holds a block carrying the given ledger
    /// root.
    pub fn contains_ledger_root(&self, root: u64) -> (r: bool)
        ensures
            r == chain_has_ledger_root(self@, root),
    {
        let mut i: usize = 0;
        while i < self.blocks.len()
            invariant
                i <= self.blocks@.len(),
                forall|j: int| 0 <= j < i ==> self@[j].ledger_root != root,
            decreases self.blocks@.len() - i,
        {
            if self.blocks[i].ledger_root == root {
                proof {
                    assert(self@[i as int].ledger_root == root);
                }
                return true;
            }
            i = i + 1;
        }
        false
    }

    /// Returns whether the chain holds a transaction with the given ID.
    pub fn contains_transaction(&self, id: u64) -> (r: bool)
        ensures
            r == chain_has_tx(self@, id),
    {
        let mut i: usize = 0;
        while i < self.blocks.len()
            invariant
                i <= self.blocks@.len(),
                forall|j: int| 0 <= j < i ==> !block_has_tx(self@[j], id),
            decreases self.blocks@.len() - i,
        {
            if self.blocks[i].has_transaction(id) {
                proof {
                    assert(block_has_tx(self@[i as int], id));
                }
                return true;
            }
            i = i + 1;
        }
        false
    }

    /// Returns whether the chain holds the given serial number.
    pub fn contains_serial_number(&self, sn: u64) -> (r: bool)
        ensures
            r == chain_has_serial_number(self@, sn),
    {
        let mut i: usize = 0;
        while i < self.blocks.len()
            invariant
                i <= self.blocks@.len(),
                forall|j: int| 0 <= j < i ==> !block_has_serial_number(self@[j], sn),
            decreases self.blocks@.len() - i,
        {
            if self.blocks[i].has_serial_number(sn) {
                proof {
                    assert(block_has_serial_number(self@[i as int], sn));
                }
                return true;
            }
            i = i + 1;
        }
        false
    }

    /// Returns whether the chain holds the given commitment.
    pub fn contains_commitment(&self, cm: u64) -> (r: bool)
        ensures
            r == chain_has_commitment(self@, cm),
    {
        let mut i: usize = 0;
        while i < self.blocks.len()
            invariant
                i <= self.blocks@.len(),
                forall|j: int| 0 <= j < i ==> !block_has_commitment(self@[j], cm),
            decreases self.blocks@.len() - i,
        {
            if self.blocks[i].has_commitment(cm) {
                proof {
                    assert(block_has_commitment(self@[i as int], cm));
                }
                return true;
            }
            i = i + 1;
        }
        false
    }

    /// Returns whether the chain holds the given ciphertext ID.
    pub fn contains_ciphertext_id(&self, cid: u64) -> (r: bool)
        ensures
            r == chain_has_ciphertext_id(self@, cid),
    {
        let mut i: usize = 0;
        while i < self.blocks.len()
            invariant
                i <= self.blocks@.len(),
                forall|j: int| 0 <= j < i ==> !block_has_ciphertext_id(self@[j], cid),
            decreases self.blocks@.len() - i,
        {
            if self.blocks[i].has_ciphertext_id(cid) {
                proof {
                    assert(block_has_ciphertext_id(self@[i as int], cid));
                }
                return true;
            }
            i = i + 1;
        }
        false
    }

    /// Returns the block of the given height, or `LookupMiss` when the
    /// chain does not reach it.
    pub fn get_block(&self, height: u32) -> (r: Result<Block, LedgerError>)
        ensures
            height < self@.len() ==> (r matches Ok(b) && b@ == self@[height as int]),
            height >= self@.len() ==> (r matches Err(e) && e == LedgerError::LookupMiss),
    {
        if (height as usize) < self.blocks.len() {
            Ok(self.blocks[height as usize].duplicate())
        } else {
            Err(LedgerError::LookupMiss)
        }
    }

    /// Returns the hash of the block at the given height.
    pub fn get_block_hash(&self, height: u32) -> (r: Result<u64, LedgerError>)
        ensures
            height < self@.len() ==> r == Result::<u64, LedgerError>::Ok(
                self@[height as int].hash,
            ),
            height >= self@.len() ==> r == Result::<u64, LedgerError>::Err(
                LedgerError::LookupMiss,
            ),
    {
        if (height as usize) < self.blocks.len() {
            Ok(self.blocks[height as usize].hash)
        } else {
            Err(LedgerError::LookupMiss)
        }
    }

    /// Returns the previous-block hash recorded by the block at the given
    /// height.
    pub fn get_previous_block_hash(&self, height: u32) -> (r: Result<u64, LedgerError>)
        ensures
            height < self@.len() ==> r == Result::<u64, LedgerError>::Ok(
                self@[height as int].previous_hash,
            ),
            height >= self@.len() ==> r == Result::<u64, LedgerError>::Err(
                LedgerError::LookupMiss,
            ),
    {
        if (height as usize) < self.blocks.len() {
            Ok(self.blocks[height as usize].previous_hash)
        } else {
            Err(LedgerError::LookupMiss)
        }
    }

    /// Returns the header of the block at the given height.
    pub fn get_block_header(&self, height: u32) -> (r: Result<BlockHeader, LedgerError>)
        ensures
            height < self@.len() ==> (r matches Ok(h) && h == (BlockHeader {
                height: self@[height as int].height,
                timestamp: self@[height as int].timestamp,
                difficulty_target: self@[height as int].difficulty_target,
                ledger_root: self@[height as int].ledger_root,
                nonce: self@[height as int].nonce,
            })),
            height >= self@.len() ==> (r matches Err(e) && e == LedgerError::LookupMiss),
    {
        if (height as usize) < self.blocks.len() {
            Ok(self.blocks[height as usize].header())
        } else {
            Err(LedgerError::LookupMiss)
        }
    }

    /// Returns the transactions of the block at the given height.
    pub fn get_block_transactions(&self, height: u32) -> (r: Result<Vec<Transaction>, LedgerError>)
        ensures
            height < self@.len() ==> (r matches Ok(txs) && txs.deep_view() == self@[
                height as int
            ].transactions),
            height >= self@.len() ==> (r matches Err(e) && e == LedgerError::LookupMiss),
    {
        if (height as usize) < self.blocks.len() {
            let b = self.blocks[height as usize].duplicate();
            Ok(b.transactions)
        } else {
            Err(LedgerError::LookupMiss)
        }
    }

    /// Returns the transaction with the given ID, or `LookupMiss` when no
    /// block of the chain holds it.
    pub fn get_transaction(&self, id: u64) -> (r: Result<Transaction, LedgerError>)
        ensures
            chain_has_tx(self@, id) ==> (r matches Ok(t) && t@.id == id && tx_in_chain(
                self@,
                t@,
            )),
            !chain_has_tx(self@, id) ==> (r matches Err(e) && e == LedgerError::LookupMiss),
    {
        let mut i: usize = 0;
        while i < self.blocks.len()
            invariant
                i <= self.blocks@.len(),
                forall|j: int| 0 <= j < i ==> !block_has_tx(self@[j], id),
            decreases self.blocks@.len() - i,
        {
            let block = &self.blocks[i];
            let mut k: usize = 0;
            while k < block.transactions.len()
                invariant
                    i < self.blocks@.len(),
                    block@ == self@[i as int],
                    k <= block.transactions@.len(),
                    forall|j: int| 0 <= j < k ==> block@.transactions[j].id != id,
                decreases block.transactions@.len() - k,
            {
                if block.transactions[k].id == id {
                    proof {
                        assert(block@.transactions[k as int].id == id);
                        assert(block_has_tx(block@, id));
                        assert(self@[i as int] == block@);
                        assert(chain_has_tx(self@, id));
                        assert(self@[i as int].transactions[k as int] == block@.transactions[
                            k as int
                        ]);
                    }
                    return Ok(block.transactions[k].duplicate());
                }
                k = k + 1;
            }
            i = i + 1;
        }
        Err(LedgerError::LookupMiss)
    }
}

} // verus!
