//! The ledger coordinator: the single component permitted to mutate the
//! canon chain and the memory pool. It consumes one request at a time, in
//! arrival order, and instead of touching the network itself it returns the
//! outbound sink actions and the mining snapshot its caller must carry out.

use vstd::prelude::*;

use crate::LedgerError;
use crate::chain::{CanonChain, chain_has_hash, chain_has_tx, chain_wf};
use crate::clock::current_timestamp;
use crate::pool::{MemoryPool, POOL_BLOCK_CAPACITY, PoolView};
use crate::request::{
    ActionView, LedgerRequest, Message, MessageView, MinerJob, MinerJobView, RequestView,
    SinkAction,
};
use crate::types::{Block, BlockView, Transaction, TxView, blocks_contain_hash, txs_contain_id};

verus! {

/// A ledger coordinator: the canonical chain, the memory pool, and the two
/// flags shared with an in-flight mining attempt.
#[derive(Debug)]
pub struct Ledger {
    /// The canonical chain of finalized blocks.
    pub canon: CanonChain,
    /// The pool of unconfirmed transactions and out-of-order blocks.
    pub memory_pool: MemoryPool,
    /// The cancellation signal an in-flight mining search must observe.
    pub terminator: bool,
    /// Whether a mining attempt is in flight.
    pub is_mining: bool,
}

/// The mathematical value of a [`Ledger`].
pub ghost struct LedgerView {
    pub canon: Seq<BlockView>,
    pub pool: PoolView,
    pub terminator: bool,
    pub is_mining: bool,
}

impl View for Ledger {
    type V = LedgerView;

    open spec fn view(&self) -> LedgerView {
        LedgerView {
            canon: self.canon@,
            pool: self.memory_pool@,
            terminator: self.terminator,
            is_mining: self.is_mining,
        }
    }
}

impl LedgerView {
    /// The coordinator's invariant: the chain and the pool are each
    /// well-formed.
    pub open spec fn wf(self) -> bool {
        chain_wf(self.canon) && self.pool.wf()
    }

    /// The height of the chain's tip.
    pub open spec fn height(self) -> int {
        self.canon.len() - 1
    }
}

/// What one coordinator step produces: the state it leaves behind, the
/// result it reports, the sink actions it issues, and the mining snapshot
/// it asks its caller to spawn, if any.
pub ghost struct StepView {
    pub state: LedgerView,
    pub result: Result<(), LedgerError>,
    pub actions: Seq<ActionView>,
    pub job: Option<MinerJobView>,
}

/// The state after a successful append: the block joins the chain and the
/// pooled transactions are invalidated in bulk. Staged pool blocks and the
/// mining flags are kept.
pub open spec fn apply_append(s: LedgerView, b: BlockView) -> LedgerView {
    LedgerView {
        canon: s.canon.push(b),
        pool: PoolView { transactions: Seq::empty(), blocks: s.pool.blocks },
        terminator: s.terminator,
        is_mining: s.is_mining,
    }
}

/// A step that leaves the state alone and issues nothing.
pub open spec fn quiet_step(s: LedgerView, result: Result<(), LedgerError>) -> StepView {
    StepView { state: s, result, actions: Seq::empty(), job: None }
}

/// The mining step. When an attempt is already in flight it is a silent
/// no-op; otherwise the in-progress flag is raised and the chain head and
/// pooled transactions are snapshotted into a job for a detached task. The
/// target height is the snapshotted height plus one.
pub open spec fn mine_step(s: LedgerView, recipient: u64, now: i64) -> StepView {
    if s.is_mining {
        quiet_step(s, Ok(()))
    } else {
        StepView {
            state: LedgerView {
                canon: s.canon,
                pool: s.pool,
                terminator: s.terminator,
                is_mining: true,
            },
            result: Ok(()),
            actions: Seq::empty(),
            job: Some(
                MinerJobView {
                    previous_block_hash: s.canon.last().hash,
                    block_height: s.canon.len() as u64,
                    block_timestamp: now,
                    previous_timestamp: s.canon.last().timestamp,
                    previous_difficulty_target: s.canon.last().difficulty_target,
                    ledger_root: s.canon.last().ledger_root,
                    transactions: s.pool.transactions,
                    recipient,
                },
            ),
        }
    }
}

/// The sync-request step: a hit hands the block of the requested height to
/// the sink; a miss reports the lookup failure to the asking peer. The
/// state is never touched.
pub open spec fn sync_request_step(s: LedgerView, peer: u64, height: u32) -> StepView {
    if height < s.canon.len() {
        StepView {
            state: s,
            result: Ok(()),
            actions: seq![
                ActionView::Propagate(
                    peer,
                    MessageView::SyncResponse(s.canon[height as int].height, s.canon[height as int]),
                ),
            ],
            job: None,
        }
    } else {
        StepView {
            state: s,
            result: Ok(()),
            actions: seq![ActionView::ReportFailure(peer, LedgerError::LookupMiss)],
            job: None,
        }
    }
}

/// The effect of handing a sync block to the coordinator: when the height check
/// `height + 1 == current height` admits it, the append is attempted and
/// the store's own rule (`height == current height + 1`) decides; a store
/// rejection is logged and swallowed. A block that fails the height check is refused.
pub open spec fn sync_block_apply(s: LedgerView, b: BlockView) -> LedgerView {
    if b.height as int + 1 == s.height() && b.height as int == s.canon.len() {
        apply_append(s, b)
    } else {
        s
    }
}

/// The result [`sync_block_apply`]'s attempt reports: `Ok` when the height check passes, `AppendError` otherwise.
pub open spec fn sync_block_result(s: LedgerView, b: BlockView) -> Result<(), LedgerError> {
    if b.height as int + 1 == s.height() {
        Ok(())
    } else {
        Err(LedgerError::AppendError)
    }
}

/// The sync-response step: the append is attempted as in
/// [`sync_block_apply`]; a refusal at the height check is reported back to the
/// originating peer rather than escalated.
pub open spec fn sync_response_step(s: LedgerView, peer: u64, b: BlockView) -> StepView {
    if b.height as int + 1 == s.height() {
        StepView { state: sync_block_apply(s, b), result: Ok(()), actions: Seq::empty(), job: None }
    } else {
        StepView {
            state: s,
            result: Ok(()),
            actions: seq![ActionView::ReportFailure(peer, LedgerError::AppendError)],
            job: None,
        }
    }
}

/// The unconfirmed-block step, a three-way branch on the block's height
/// against the current height `H`:
/// with `height + 1 == H`, the append is attempted and a
/// success propagates the block onward; with `height + 1 > H` the block is
/// staged in the pool when it is new, propagating on success and
/// swallowing duplicate and capacity refusals; otherwise the block is
/// stale and rejected untouched.
pub open spec fn unconfirmed_block_step(s: LedgerView, peer: u64, b: BlockView) -> StepView {
    if b.height as int + 1 == s.height() {
        if b.height as int == s.canon.len() {
            StepView {
                state: apply_append(s, b),
                result: Ok(()),
                actions: seq![
                    ActionView::Propagate(peer, MessageView::UnconfirmedBlock(b.height, b)),
                ],
                job: None,
            }
        } else {
            quiet_step(s, Ok(()))
        }
    } else if b.height as int + 1 > s.height() {
        if chain_has_hash(s.canon, b.hash) {
            quiet_step(s, Ok(()))
        } else if blocks_contain_hash(s.pool.blocks, b.hash) || s.pool.blocks.len()
            >= POOL_BLOCK_CAPACITY {
            quiet_step(s, Ok(()))
        } else {
            StepView {
                state: LedgerView {
                    canon: s.canon,
                    pool: PoolView {
                        transactions: s.pool.transactions,
                        blocks: s.pool.blocks.push(b),
                    },
                    terminator: s.terminator,
                    is_mining: s.is_mining,
                },
                result: Ok(()),
                actions: seq![
                    ActionView::Propagate(peer, MessageView::UnconfirmedBlock(b.height, b)),
                ],
                job: None,
            }
        }
    } else {
        quiet_step(s, Err(LedgerError::StaleHeight))
    }
}

/// The unconfirmed-transaction step: a transaction already in canon or
/// already pooled is silently ignored; a new one is pooled and propagated
/// onward.
pub open spec fn unconfirmed_transaction_step(s: LedgerView, peer: u64, t: TxView) -> StepView {
    if chain_has_tx(s.canon, t.id) {
        quiet_step(s, Ok(()))
    } else if txs_contain_id(s.pool.transactions, t.id) {
        quiet_step(s, Ok(()))
    } else {
        StepView {
            state: LedgerView {
                canon: s.canon,
                pool: PoolView {
                    transactions: s.pool.transactions.push(t),
                    blocks: s.pool.blocks,
                },
                terminator: s.terminator,
                is_mining: s.is_mining,
            },
            result: Ok(()),
            actions: seq![ActionView::Propagate(peer, MessageView::UnconfirmedTransaction(t))],
            job: None,
        }
    }
}

/// One full coordinator step over a request.
pub open spec fn update_step(s: LedgerView, req: RequestView, now: i64) -> StepView {
    match req {
        RequestView::Mine(recipient) => mine_step(s, recipient, now),
        RequestView::SyncRequest(peer, height) => sync_request_step(s, peer, height),
        RequestView::SyncResponse(peer, _height, b) => sync_response_step(s, peer, b),
        RequestView::UnconfirmedBlock(peer, b) => unconfirmed_block_step(s, peer, b),
        RequestView::UnconfirmedTransaction(peer, t) => unconfirmed_transaction_step(s, peer, t),
    }
}

/// The completion of a mining attempt: the in-progress flag is lowered
/// whatever happened, and a successfully mined block is broadcast to every
/// peer. A failed attempt broadcasts nothing.
pub open spec fn finish_mining_step(s: LedgerView, mined: Result<BlockView, LedgerError>) -> StepView {
    StepView {
        state: LedgerView {
            canon: s.canon,
            pool: s.pool,
            terminator: s.terminator,
            is_mining: false,
        },
        result: Ok(()),
        actions: match mined {
            Ok(b) => seq![ActionView::Broadcast(MessageView::UnconfirmedBlock(b.height, b))],
            Err(_) => Seq::empty(),
        },
        job: None,
    }
}

/// What a coordinator call hands back: the result it reports, the sink
/// actions to perform, and the mining snapshot to spawn, if any.
#[derive(Debug)]
pub struct UpdateOutcome {
    pub result: Result<(), LedgerError>,
    pub actions: Vec<SinkAction>,
    pub job: Option<MinerJob>,
}

impl UpdateOutcome {
    /// This outcome together with the state it left behind, as one step.
    pub open spec fn step(self, state: LedgerView) -> StepView {
        StepView {
            state,
            result: self.result,
            actions: self.actions.deep_view(),
            job: self.job.deep_view(),
        }
    }
}

impl Ledger {
    /// Initializes a ledger from its genesis block, which must have height
    /// 0. The pool starts empty and no mining attempt is in flight.
    pub fn open(genesis: Block) -> (r: Result<Ledger, LedgerError>)
        ensures
            genesis@.height == 0 ==> (r matches Ok(l) && l@ == (LedgerView {
                canon: seq![genesis@],
                pool: PoolView { transactions: Seq::empty(), blocks: Seq::empty() },
                terminator: false,
                is_mining: false,
            }) && l@.wf()),
            genesis@.height != 0 ==> (r matches Err(e) && e == LedgerError::AppendError),
    {
        let canon = match CanonChain::new(genesis) {
            Ok(c) => c,
            Err(e) => {
                return Err(e);
            },
        };
        let l = Ledger {
            canon,
            memory_pool: MemoryPool::new(),
            terminator: false,
            is_mining: false,
        };
        proof {
            assert(l@.pool.transactions =~= Seq::<TxView>::empty());
            assert(l@.pool.blocks =~= Seq::<BlockView>::empty());
        }
        Ok(l)
    }

    /// Returns the latest block height.
    pub fn latest_block_height(&self) -> (r: u32)
        requires
            self@.wf(),
        ensures
            r == self@.canon.last().height,
            r as int == self@.height(),
    {
        self.canon.latest_block_height()
    }

    /// Returns the latest block hash.
    pub fn latest_block_hash(&self) -> (r: u64)
        requires
            self@.wf(),
        ensures
            r == self@.canon.last().hash,
    {
        self.canon.latest_block_hash()
    }

    /// Returns the latest ledger root.
    pub fn latest_ledger_root(&self) -> (r: u64)
        requires
            self@.wf(),
        ensures
            r == self@.canon.last().ledger_root,
    {
        self.canon.latest_ledger_root()
    }

    /// Returns the latest block timestamp.
    pub fn latest_block_timestamp(&self) -> (r: Result<i64, LedgerError>)
        requires
            self@.wf(),
        ensures
            r == Result::<i64, LedgerError>::Ok(self@.canon.last().timestamp),
    {
        Ok(self.canon.latest_block_timestamp())
    }

    /// Returns the latest block difficulty target.
    pub fn latest_block_difficulty_target(&self) -> (r: Result<u64, LedgerError>)
        requires
            self@.wf(),
        ensures
            r == Result::<u64, LedgerError>::Ok(self@.canon.last().difficulty_target),
    {
        Ok(self.canon.latest_block_difficulty_target())
    }

    /// Returns the latest block header.
    pub fn latest_block_header(&self) -> (r: Result<crate::types::BlockHeader, LedgerError>)
        requires
            self@.wf(),
        ensures
            (r matches Ok(h) && h == (crate::types::BlockHeader {
                height: self@.canon.last().height,
                timestamp: self@.canon.last().timestamp,
                difficulty_target: self@.canon.last().difficulty_target,
                ledger_root: self@.canon.last().ledger_root,
                nonce: self@.canon.last().nonce,
            })),
    {
        let r = self.canon.get_block_header(self.canon.latest_block_height());
        proof {
            assert(self@.canon[self@.height()] == self@.canon.last());
        }
        r
    }

    /// Returns the transactions from the latest block.
    pub fn latest_block_transactions(&self) -> (r: Result<Vec<Transaction>, LedgerError>)
        requires
            self@.wf(),
        ensures
            (r matches Ok(txs) && txs.deep_view() == self@.canon.last().transactions),
    {
        let r = self.canon.get_block_transactions(self.canon.latest_block_height());
        proof {
            assert(self@.canon[self@.height()] == self@.canon.last());
        }
        r
    }

    /// Returns the latest block.
    pub fn latest_block(&self) -> (r: Result<Block, LedgerError>)
        requires
            self@.wf(),
        ensures
            (r matches Ok(b) && b@ == self@.canon.last()),
    {
        let r = self.canon.get_block(self.canon.latest_block_height());
        proof {
            assert(self@.canon[self@.height()] == self@.canon.last());
        }
        r
    }

    /// Returns `true` if the given ledger root is carried by a canon
    /// block.
    pub fn contains_ledger_root(&self, ledger_root: u64) -> (r: Result<bool, LedgerError>)
        ensures
            r == Result::<bool, LedgerError>::Ok(
                crate::chain::chain_has_ledger_root(self@.canon, ledger_root),
            ),
    {
        Ok(self.canon.contains_ledger_root(ledger_root))
    }

    /// Returns `true` if the given block height is in the canon chain.
    pub fn contains_block_height(&self, block_height: u32) -> (r: Result<bool, LedgerError>)
        ensures
            r == Result::<bool, LedgerError>::Ok(block_height < self@.canon.len()),
    {
        Ok(self.canon.contains_block_height(block_height))
    }

    /// Returns `true` if the given block hash is in the canon chain.
    pub fn contains_block_hash(&self, block_hash: u64) -> (r: Result<bool, LedgerError>)
        ensures
            r == Result::<bool, LedgerError>::Ok(chain_has_hash(self@.canon, block_hash)),
    {
        Ok(self.canon.contains_block_hash(block_hash))
    }

    /// Returns `true` if the given transaction ID is in the canon chain.
    pub fn contains_transaction(&self, transaction_id: u64) -> (r: Result<bool, LedgerError>)
        ensures
            r == Result::<bool, LedgerError>::Ok(chain_has_tx(self@.canon, transaction_id)),
    {
        Ok(self.canon.contains_transaction(transaction_id))
    }

    /// Returns `true` if the given serial number is in the canon chain.
    pub fn contains_serial_number(&self, serial_number: u64) -> (r: Result<bool, LedgerError>)
        ensures
            r == Result::<bool, LedgerError>::Ok(
                crate::chain::chain_has_serial_number(self@.canon, serial_number),
            ),
    {
        Ok(self.canon.contains_serial_number(serial_number))
    }

    /// Returns `true` if the given commitment is in the canon chain.
    pub fn contains_commitment(&self, commitment: u64) -> (r: Result<bool, LedgerError>)
        ensures
            r == Result::<bool, LedgerError>::Ok(
                crate::chain::chain_has_commitment(self@.canon, commitment),
            ),
    {
        Ok(self.canon.contains_commitment(commitment))
    }

    /// Returns `true` if the given ciphertext ID is in the canon chain.
    pub fn contains_ciphertext_id(&self, ciphertext_id: u64) -> (r: Result<bool, LedgerError>)
        ensures
            r == Result::<bool, LedgerError>::Ok(
                crate::chain::chain_has_ciphertext_id(self@.canon, ciphertext_id),
            ),
    {
        Ok(self.canon.contains_ciphertext_id(ciphertext_id))
    }

    /// Returns the transaction with the given transaction ID.
    pub fn get_transaction(&self, transaction_id: u64) -> (r: Result<Transaction, LedgerError>)
        ensures
            chain_has_tx(self@.canon, transaction_id) ==> (r matches Ok(t) && t@.id
                == transaction_id && crate::chain::tx_in_chain(self@.canon, t@)),
            !chain_has_tx(self@.canon, transaction_id) ==> (r matches Err(e) && e
                == LedgerError::LookupMiss),
    {
        self.canon.get_transaction(transaction_id)
    }

    /// Returns the block hash for the given block height.
    pub fn get_block_hash(&self, block_height: u32) -> (r: Result<u64, LedgerError>)
        ensures
            block_height < self@.canon.len() ==> r == Result::<u64, LedgerError>::Ok(
                self@.canon[block_height as int].hash,
            ),
            block_height >= self@.canon.len() ==> r == Result::<u64, LedgerError>::Err(
                LedgerError::LookupMiss,
            ),
    {
        self.canon.get_block_hash(block_height)
    }

    /// Returns the previous block hash for the given block height.
    pub fn get_previous_block_hash(&self, block_height: u32) -> (r: Result<u64, LedgerError>)
        ensures
            block_height < self@.canon.len() ==> r == Result::<u64, LedgerError>::Ok(
                self@.canon[block_height as int].previous_hash,
            ),
            block_height >= self@.canon.len() ==> r == Result::<u64, LedgerError>::Err(
                LedgerError::LookupMiss,
            ),
    {
        self.canon.get_previous_block_hash(block_height)
    }

    /// Returns the block header for the given block height.
    pub fn get_block_header(&self, block_height: u32) -> (r: Result<
        crate::types::BlockHeader,
        LedgerError,
    >)
        ensures
            block_height < self@.canon.len() ==> (r matches Ok(h) && h
                == (crate::types::BlockHeader {
                height: self@.canon[block_height as int].height,
                timestamp: self@.canon[block_height as int].timestamp,
                difficulty_target: self@.canon[block_height as int].difficulty_target,
                ledger_root: self@.canon[block_height as int].ledger_root,
                nonce: self@.canon[block_height as int].nonce,
            })),
            block_height >= self@.canon.len() ==> (r matches Err(e) && e
                == LedgerError::LookupMiss),
    {
        self.canon.get_block_header(block_height)
    }

    /// Returns the transactions from the block of the given block height.
    pub fn get_block_transactions(&self, block_height: u32) -> (r: Result<
        Vec<Transaction>,
        LedgerError,
    >)
        ensures
            block_height < self@.canon.len() ==> (r matches Ok(txs) && txs.deep_view()
                == self@.canon[block_height as int].transactions),
            block_height >= self@.canon.len() ==> (r matches Err(e) && e
                == LedgerError::LookupMiss),
    {
        self.canon.get_block_transactions(block_height)
    }

    /// Returns the block for the given block height.
    pub fn get_block(&self, block_height: u32) -> (r: Result<Block, LedgerError>)
        ensures
            block_height < self@.canon.len() ==> (r matches Ok(b) && b@ == self@.canon[
                block_height as int
            ]),
            block_height >= self@.canon.len() ==> (r matches Err(e) && e
                == LedgerError::LookupMiss),
    {
        self.canon.get_block(block_height)
    }

    /// Begins a mining attempt, returning the snapshot a detached task
    /// must work from. A silent no-op returning no snapshot when an
    /// attempt is already in flight: at most one lives at a time.
    pub fn mine_next_block(&mut self, recipient: u64, now_timestamp: i64) -> (job: Option<
        MinerJob,
    >)
        requires
            old(self)@.wf(),
        ensures
            final(self)@.wf(),
            final(self)@ == mine_step(old(self)@, recipient, now_timestamp).state,
            job.deep_view() == mine_step(old(self)@, recipient, now_timestamp).job,
            old(self)@.is_mining ==> job is None && final(self)@ == old(self)@,
    {
        if self.is_mining {
            return None;
        }
        self.is_mining = true;
        let previous_block_hash = self.canon.latest_block_hash();
        let latest = self.canon.latest_block_height();
        let previous_timestamp = self.canon.latest_block_timestamp();
        let previous_difficulty_target = self.canon.latest_block_difficulty_target();
        let ledger_root = self.canon.latest_ledger_root();
        let transactions = self.memory_pool.transactions();
        Some(
            MinerJob {
                previous_block_hash,
                block_height: latest as u64 + 1,
                block_timestamp: now_timestamp,
                previous_timestamp,
                previous_difficulty_target,
                ledger_root,
                transactions,
                recipient,
            },
        )
    }

    /// Hands the coordinator the outcome of a detached mining attempt.
    /// The in-progress flag is lowered whatever happened; a mined block is
    /// broadcast to every peer, a failure broadcasts nothing.
    pub fn finish_mining(&mut self, outcome: Result<Block, LedgerError>) -> (actions: Vec<
        SinkAction,
    >)
        ensures
            final(self)@ == finish_mining_step(
                old(self)@,
                match outcome {
                    Ok(b) => Ok(b@),
                    Err(e) => Err(e),
                },
            ).state,
            actions.deep_view() == finish_mining_step(
                old(self)@,
                match outcome {
                    Ok(b) => Ok(b@),
                    Err(e) => Err(e),
                },
            ).actions,
    {
        self.is_mining = false;
        let mut actions: Vec<SinkAction> = Vec::new();
        match outcome {
            Ok(block) => {
                let height = block.height;
                actions.push(SinkAction::Broadcast(Message::UnconfirmedBlock(height, block)));
                proof {
                    assert(actions.deep_view() =~= finish_mining_step(
                        old(self)@,
                        Ok(block@),
                    ).actions);
                }
                actions
            },
            Err(_) => {
                proof {
                    assert(actions.deep_view() =~= Seq::<ActionView>::empty());
                }
                actions
            },
        }
    }

    /// Requests that an in-flight mining search abandon its work: raises
    /// the shared cancellation signal the search polls.
    pub fn cancel_mining(&mut self)
        ensures
            final(self)@ == (LedgerView {
                terminator: true,
                canon: old(self)@.canon,
                pool: old(self)@.pool,
                is_mining: old(self)@.is_mining,
            }),
    {
        self.terminator = true;
    }

    /// Returns whether a mining attempt is in flight.
    pub fn mining_active(&self) -> (r: bool)
        ensures
            r == self@.is_mining,
    {
        self.is_mining
    }

    /// Adds the given block as the next block in the ledger when the height check
    /// `height + 1 == current height` admits it; the store's own append
    /// rule then re-validates, and its refusal is logged and swallowed. A
    /// block that fails the height check is refused with `AppendError`.
    pub fn add_sync_block(&mut self, block: &Block) -> (r: Result<(), LedgerError>)
        requires
            old(self)@.wf(),
        ensures
            final(self)@.wf(),
            final(self)@ == sync_block_apply(old(self)@, block@),
            r == sync_block_result(old(self)@, block@),
    {
        let latest = self.canon.latest_block_height();
        if block.height as u64 + 1 == latest as u64 {
            match self.canon.add_next_block(block) {
                Ok(()) => {
                    self.memory_pool.clear_transactions();
                    proof {
                        assert(self@.pool.transactions =~= Seq::<TxView>::empty());
                    }
                },
                Err(_) => {},
            }
            Ok(())
        } else {
            Err(LedgerError::AppendError)
        }
    }

    /// Adds the given unconfirmed block: appended when its
    /// height admits it, into the memory pool when it is strictly ahead
    /// and new, and refused as stale otherwise. A pooled or appended block
    /// is propagated to every peer but the originator.
    pub fn add_unconfirmed_block(&mut self, peer: u64, block: &Block) -> (r: UpdateOutcome)
        requires
            old(self)@.wf(),
        ensures
            final(self)@.wf(),
            r.step(final(self)@) == unconfirmed_block_step(old(self)@, peer, block@),
    {
        let latest = self.canon.latest_block_height();
        let mut actions: Vec<SinkAction> = Vec::new();
        if block.height as u64 + 1 == latest as u64 {
            match self.canon.add_next_block(block) {
                Ok(()) => {
                    self.memory_pool.clear_transactions();
                    actions.push(
                        SinkAction::Propagate(
                            peer,
                            Message::UnconfirmedBlock(block.height, block.duplicate()),
                        ),
                    );
                    proof {
                        assert(self@.pool.transactions =~= Seq::<TxView>::empty());
                        assert(actions.deep_view() =~= unconfirmed_block_step(
                            old(self)@,
                            peer,
                            block@,
                        ).actions);
                    }
                    UpdateOutcome { result: Ok(()), actions, job: None }
                },
                Err(_) => {
                    proof {
                        assert(actions.deep_view() =~= Seq::<ActionView>::empty());
                    }
                    UpdateOutcome { result: Ok(()), actions, job: None }
                },
            }
        } else if block.height as u64 + 1 > latest as u64 {
            if self.canon.contains_block_hash(block.hash) {
                proof {
                    assert(actions.deep_view() =~= Seq::<ActionView>::empty());
                }
                UpdateOutcome { result: Ok(()), actions, job: None }
            } else {
                match self.memory_pool.add_block(block) {
                    Ok(()) => {
                        actions.push(
                            SinkAction::Propagate(
                                peer,
                                Message::UnconfirmedBlock(block.height, block.duplicate()),
                            ),
                        );
                        proof {
                            assert(actions.deep_view() =~= unconfirmed_block_step(
                                old(self)@,
                                peer,
                                block@,
                            ).actions);
                        }
                        UpdateOutcome { result: Ok(()), actions, job: None }
                    },
                    Err(_) => {
                        proof {
                            assert(actions.deep_view() =~= Seq::<ActionView>::empty());
                        }
                        UpdateOutcome { result: Ok(()), actions, job: None }
                    },
                }
            }
        } else {
            proof {
                assert(actions.deep_view() =~= Seq::<ActionView>::empty());
            }
            UpdateOutcome { result: Err(LedgerError::StaleHeight), actions, job: None }
        }
    }

    /// Adds the given unconfirmed transaction to the memory pool, unless
    /// its ID is already known to the canon chain or the pool; duplicates
    /// are silently ignored. A newly pooled transaction is propagated to
    /// every peer but the originator.
    pub fn add_unconfirmed_transaction(&mut self, peer: u64, transaction: &Transaction) -> (r:
        UpdateOutcome)
        requires
            old(self)@.wf(),
        ensures
            final(self)@.wf(),
            r.step(final(self)@) == unconfirmed_transaction_step(old(self)@, peer, transaction@),
    {
        let mut actions: Vec<SinkAction> = Vec::new();
        if !self.canon.contains_transaction(transaction.id) {
            match self.memory_pool.add_transaction(transaction) {
                Ok(()) => {
                    actions.push(
                        SinkAction::Propagate(
                            peer,
                            Message::UnconfirmedTransaction(transaction.duplicate()),
                        ),
                    );
                    proof {
                        assert(actions.deep_view() =~= unconfirmed_transaction_step(
                            old(self)@,
                            peer,
                            transaction@,
                        ).actions);
                    }
                    UpdateOutcome { result: Ok(()), actions, job: None }
                },
                Err(_) => {
                    proof {
                        assert(actions.deep_view() =~= Seq::<ActionView>::empty());
                    }
                    UpdateOutcome { result: Ok(()), actions, job: None }
                },
            }
        } else {
            proof {
                assert(actions.deep_view() =~= Seq::<ActionView>::empty());
            }
            UpdateOutcome { result: Ok(()), actions, job: None }
        }
    }

    /// Performs the given request. All requests must come through here,
    /// one at a time, so that a unified view of chain and pool is
    /// preserved. The returned outcome carries the sink actions and, for a
    /// mining request, the snapshot a detached task must work from; the
    /// timestamp stamped into that snapshot is read from the clock as the
    /// request is handled.
    pub fn update(&mut self, request: LedgerRequest) -> (r: UpdateOutcome)
        requires
            old(self)@.wf(),
        ensures
            final(self)@.wf(),
            exists|now: i64| r.step(final(self)@) == update_step(old(self)@, request@, now),
    {
        match request {
            LedgerRequest::Mine(recipient) => {
                let now: i64 = current_timestamp();
                let job = self.mine_next_block(recipient, now);
                let r = UpdateOutcome { result: Ok(()), actions: Vec::new(), job };
                proof {
                    assert(r.actions.deep_view() =~= Seq::<ActionView>::empty());
                    assert(r.step(self@) == update_step(old(self)@, request@, now));
                }
                r
            },
            LedgerRequest::SyncRequest(peer, height) => {
                let mut actions: Vec<SinkAction> = Vec::new();
                match self.canon.get_block(height) {
                    Ok(block) => {
                        let h = block.height;
                        actions.push(
                            SinkAction::Propagate(peer, Message::SyncResponse(h, block)),
                        );
                    },
                    Err(e) => {
                        actions.push(SinkAction::ReportFailure(peer, e));
                    },
                }
                let r = UpdateOutcome { result: Ok(()), actions, job: None };
                proof {
                    assert(r.actions.deep_view() =~= sync_request_step(
                        old(self)@,
                        peer,
                        height,
                    ).actions);
                    assert(r.step(self@) == update_step(old(self)@, request@, 0));
                }
                r
            },
            LedgerRequest::SyncResponse(peer, _height, block) => {
                let mut actions: Vec<SinkAction> = Vec::new();
                match self.add_sync_block(&block) {
                    Ok(()) => {},
                    Err(e) => {
                        actions.push(SinkAction::ReportFailure(peer, e));
                    },
                }
                let r = UpdateOutcome { result: Ok(()), actions, job: None };
                proof {
                    assert(r.actions.deep_view() =~= sync_response_step(
                        old(self)@,
                        peer,
                        block@,
                    ).actions);
                    assert(r.step(self@) == update_step(old(self)@, request@, 0));
                }
                r
            },
            LedgerRequest::UnconfirmedBlock(peer, block) => {
                let r = self.add_unconfirmed_block(peer, &block);
                proof {
                    assert(r.step(self@) == update_step(old(self)@, request@, 0));
                }
                r
            },
            LedgerRequest::UnconfirmedTransaction(peer, transaction) => {
                let r = self.add_unconfirmed_transaction(peer, &transaction);
                proof {
                    assert(r.step(self@) == update_step(old(self)@, request@, 0));
                }
                r
            },
        }
    }
}

} // verus!
