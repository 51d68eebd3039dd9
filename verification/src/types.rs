//! Plain-value models of the chain's data: transactions, blocks and block
//! headers. The cryptographic content of these objects (proofs, signatures,
//! record ciphertexts) lives with outside collaborators; the coordinator's
//! logic reads only the identifiers and header fields modelled here.

use vstd::prelude::*;

verus! {

/// A transaction, identified by its transaction ID. It carries the serial
/// numbers, commitments and ciphertext IDs used for duplicate and
/// double-spend detection. Immutable once constructed.
#[derive(Debug)]
pub struct Transaction {
    pub id: u64,
    pub serial_numbers: Vec<u64>,
    pub commitments: Vec<u64>,
    pub ciphertext_ids: Vec<u64>,
}

/// The mathematical value of a [`Transaction`].
pub ghost struct TxView {
    pub id: u64,
    pub serial_numbers: Seq<u64>,
    pub commitments: Seq<u64>,
    pub ciphertext_ids: Seq<u64>,
}

impl View for Transaction {
    type V = TxView;

    open spec fn view(&self) -> TxView {
        TxView {
            id: self.id,
            serial_numbers: self.serial_numbers@,
            commitments: self.commitments@,
            ciphertext_ids: self.ciphertext_ids@,
        }
    }
}

impl DeepView for Transaction {
    type V = TxView;

    open spec fn deep_view(&self) -> TxView {
        self.view()
    }
}

/// A block of the chain. Its height increases strictly by one along the
/// canon chain; the remaining fields are the header data the coordinator
/// snapshots for mining, plus the ordered transaction set.
#[derive(Debug)]
pub struct Block {
    pub height: u32,
    pub hash: u64,
    pub previous_hash: u64,
    pub timestamp: i64,
    pub difficulty_target: u64,
    pub ledger_root: u64,
    pub transactions: Vec<Transaction>,
    pub nonce: u64,
}

/// The mathematical value of a [`Block`].
pub ghost struct BlockView {
    pub height: u32,
    pub hash: u64,
    pub previous_hash: u64,
    pub timestamp: i64,
    pub difficulty_target: u64,
    pub ledger_root: u64,
    pub transactions: Seq<TxView>,
    pub nonce: u64,
}

impl View for Block {
    type V = BlockView;

    open spec fn view(&self) -> BlockView {
        BlockView {
            height: self.height,
            hash: self.hash,
            previous_hash: self.previous_hash,
            timestamp: self.timestamp,
            difficulty_target: self.difficulty_target,
            ledger_root: self.ledger_root,
            transactions: self.transactions.deep_view(),
            nonce: self.nonce,
        }
    }
}

impl DeepView for Block {
    type V = BlockView;

    open spec fn deep_view(&self) -> BlockView {
        self.view()
    }
}

/// The header of a block: every field of the block except its transactions
/// and hashes.
#[derive(Clone, Copy, Debug, PartialEq, Eq, Structural)]
pub struct BlockHeader {
    pub height: u32,
    pub timestamp: i64,
    pub difficulty_target: u64,
    pub ledger_root: u64,
    pub nonce: u64,
}

impl Transaction {
    /// Returns a value-identical copy of this transaction.
    pub fn duplicate(&self) -> (r: Transaction)
        ensures
            r@ == self@,
    {
        let r = Transaction {
            id: self.id,
            serial_numbers: self.serial_numbers.clone(),
            commitments: self.commitments.clone(),
            ciphertext_ids: self.ciphertext_ids.clone(),
        };
        proof {
            assert(r.serial_numbers@ =~= self.serial_numbers@);
            assert(r.commitments@ =~= self.commitments@);
            assert(r.ciphertext_ids@ =~= self.ciphertext_ids@);
        }
        r
    }

    /// Returns whether the transaction carries the given serial number.
    pub fn contains_serial_number(&self, serial_number: u64) -> (r: bool)
        ensures
            r == self@.serial_numbers.contains(serial_number),
    {
        contains_u64(&self.serial_numbers, serial_number)
    }

    /// Returns whether the transaction carries the given commitment.
    pub fn contains_commitment(&self, commitment: u64) -> (r: bool)
        ensures
            r == self@.commitments.contains(commitment),
    {
        contains_u64(&self.commitments, commitment)
    }

    /// Returns whether the transaction carries the given ciphertext ID.
    pub fn contains_ciphertext_id(&self, ciphertext_id: u64) -> (r: bool)
        ensures
            r == self@.ciphertext_ids.contains(ciphertext_id),
    {
        contains_u64(&self.ciphertext_ids, ciphertext_id)
    }
}

/// Returns whether `values` holds `target`.
fn contains_u64(values: &Vec<u64>, target: u64) -> (r: bool)
    ensures
        r == values@.contains(target),
{
    let mut i: usize = 0;
    while i < values.len()
        invariant
            i <= values@.len(),
            forall|j: int| 0 <= j < i ==> values@[j] != target,
        decreases values@.len() - i,
    {
        if values[i] == target {
            return true;
        }
        i = i + 1;
    }
    false
}

impl Block {
    /// Returns a value-identical copy of this block.
    pub fn duplicate(&self) -> (r: Block)
        ensures
            r@ == self@,
    {
        let mut transactions: Vec<Transaction> = Vec::new();
        let mut i: usize = 0;
        while i < self.transactions.len()
            invariant
                i <= self.transactions@.len(),
                transactions@.len() == i,
                forall|j: int|
                    0 <= j < i ==> #[trigger] transactions@[j]@ == self.transactions@[j]@,
            decreases self.transactions@.len() - i,
        {
            transactions.push(self.transactions[i].duplicate());
            i = i + 1;
        }
        let r = Block {
            height: self.height,
            hash: self.hash,
            previous_hash: self.previous_hash,
            timestamp: self.timestamp,
            difficulty_target: self.difficulty_target,
            ledger_root: self.ledger_root,
            transactions,
            nonce: self.nonce,
        };
        proof {
            assert(r.transactions.deep_view() =~= self.transactions.deep_view());
        }
        r
    }

    /// Returns the block's header.
    pub fn header(&self) -> (r: BlockHeader)
        ensures
            r == (BlockHeader {
                height: self.height,
                timestamp: self.timestamp,
                difficulty_target: self.difficulty_target,
                ledger_root: self.ledger_root,
                nonce: self.nonce,
            }),
    {
        BlockHeader {
            height: self.height,
            timestamp: self.timestamp,
            difficulty_target: self.difficulty_target,
            ledger_root: self.ledger_root,
            nonce: self.nonce,
        }
    }
}

/// Returns whether a sequence of transactions holds one with the given ID.
pub open spec fn txs_contain_id(txs: Seq<TxView>, id: u64) -> bool {
    exists|i: int| 0 <= i < txs.len() && txs[i].id == id
}

/// Returns whether a sequence of blocks holds one with the given hash.
pub open spec fn blocks_contain_hash(blocks: Seq<BlockView>, hash: u64) -> bool {
    exists|i: int| 0 <= i < blocks.len() && blocks[i].hash == hash
}

} // verus!
