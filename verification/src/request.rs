//! The coordinator's inbound requests, its outbound sink actions, and the
//! snapshot handed to a spawned mining task. Peers and recipient addresses
//! are carried as plain identifiers; delivering an action to the network is
//! the caller's business.

use vstd::prelude::*;

use crate::LedgerError;
use crate::types::{Block, BlockView, Transaction, TxView};

verus! {

/// A message carried by an outbound sink action.
#[derive(Debug)]
pub enum Message {
    /// An unconfirmed block, keyed by its height.
    UnconfirmedBlock(u32, Block),
    /// A block answering a sync request, keyed by its height.
    SyncResponse(u32, Block),
    /// An unconfirmed transaction.
    UnconfirmedTransaction(Transaction),
}

/// The mathematical value of a [`Message`].
pub ghost enum MessageView {
    UnconfirmedBlock(u32, BlockView),
    SyncResponse(u32, BlockView),
    UnconfirmedTransaction(TxView),
}

impl View for Message {
    type V = MessageView;

    open spec fn view(&self) -> MessageView {
        match self {
            Message::UnconfirmedBlock(h, b) => MessageView::UnconfirmedBlock(*h, b@),
            Message::SyncResponse(h, b) => MessageView::SyncResponse(*h, b@),
            Message::UnconfirmedTransaction(t) => MessageView::UnconfirmedTransaction(t@),
        }
    }
}

/// An outbound action the coordinator asks the peer fan-out sink to
/// perform. The sink delivers a broadcast to every peer, a propagate to
/// every peer but the named originator, and a failure report to the one
/// named peer.
#[derive(Debug)]
pub enum SinkAction {
    Broadcast(Message),
    Propagate(u64, Message),
    ReportFailure(u64, LedgerError),
}

/// The mathematical value of a [`SinkAction`].
pub ghost enum ActionView {
    Broadcast(MessageView),
    Propagate(u64, MessageView),
    ReportFailure(u64, LedgerError),
}

impl View for SinkAction {
    type V = ActionView;

    open spec fn view(&self) -> ActionView {
        match self {
            SinkAction::Broadcast(m) => ActionView::Broadcast(m@),
            SinkAction::Propagate(p, m) => ActionView::Propagate(*p, m@),
            SinkAction::ReportFailure(p, e) => ActionView::ReportFailure(*p, *e),
        }
    }
}

impl DeepView for SinkAction {
    type V = ActionView;

    open spec fn deep_view(&self) -> ActionView {
        self.view()
    }
}

/// A request the ledger coordinator processes.
#[derive(Debug)]
pub enum LedgerRequest {
    /// Mine the next block, paying the given recipient address.
    Mine(u64),
    /// A peer asks for the canon block of the given height.
    SyncRequest(u64, u32),
    /// A peer answers a sync request with the block of the given height.
    SyncResponse(u64, u32, Block),
    /// A peer forwards an unconfirmed block.
    UnconfirmedBlock(u64, Block),
    /// A peer forwards an unconfirmed transaction.
    UnconfirmedTransaction(u64, Transaction),
}

/// The mathematical value of a [`LedgerRequest`].
pub ghost enum RequestView {
    Mine(u64),
    SyncRequest(u64, u32),
    SyncResponse(u64, u32, BlockView),
    UnconfirmedBlock(u64, BlockView),
    UnconfirmedTransaction(u64, TxView),
}

impl View for LedgerRequest {
    type V = RequestView;

    open spec fn view(&self) -> RequestView {
        match self {
            LedgerRequest::Mine(a) => RequestView::Mine(*a),
            LedgerRequest::SyncRequest(p, h) => RequestView::SyncRequest(*p, *h),
            LedgerRequest::SyncResponse(p, h, b) => RequestView::SyncResponse(*p, *h, b@),
            LedgerRequest::UnconfirmedBlock(p, b) => RequestView::UnconfirmedBlock(*p, b@),
            LedgerRequest::UnconfirmedTransaction(p, t) => RequestView::UnconfirmedTransaction(
                *p,
                t@,
            ),
        }
    }
}

/// The snapshot a mining attempt works from: the chain head's fields, the
/// pooled transactions to merge behind the coinbase, and the recipient of
/// the block reward. The target height is the snapshotted height plus one,
/// kept as a wide integer so the snapshot exists for every chain.
#[derive(Debug)]
pub struct MinerJob {
    pub previous_block_hash: u64,
    pub block_height: u64,
    pub block_timestamp: i64,
    pub previous_timestamp: i64,
    pub previous_difficulty_target: u64,
    pub ledger_root: u64,
    pub transactions: Vec<Transaction>,
    pub recipient: u64,
}

/// The mathematical value of a [`MinerJob`].
pub ghost struct MinerJobView {
    pub previous_block_hash: u64,
    pub block_height: u64,
    pub block_timestamp: i64,
    pub previous_timestamp: i64,
    pub previous_difficulty_target: u64,
    pub ledger_root: u64,
    pub transactions: Seq<TxView>,
    pub recipient: u64,
}

impl MinerJob {
    /// Assembles the candidate block a successful proof-of-work search
    /// yields: the coinbase transaction first, then the snapshotted pool
    /// transactions, under the snapshotted header fields. The block hash,
    /// the difficulty target the search was run against, and the winning
    /// nonce come from the search itself.
    pub fn assemble_block(
        &self,
        coinbase: Transaction,
        hash: u64,
        difficulty_target: u64,
        nonce: u64,
    ) -> (r: Block)
        requires
            self.block_height <= u32::MAX,
        ensures
            r@ == (BlockView {
                height: self.block_height as u32,
                hash,
                previous_hash: self@.previous_block_hash,
                timestamp: self@.block_timestamp,
                difficulty_target,
                ledger_root: self@.ledger_root,
                transactions: seq![coinbase@] + self@.transactions,
                nonce,
            }),
    {
        let mut transactions: Vec<Transaction> = Vec::new();
        transactions.push(coinbase);
        let mut i: usize = 0;
        while i < self.transactions.len()
            invariant
                i <= self.transactions@.len(),
                transactions@.len() == i + 1,
                transactions@[0]@ == coinbase@,
                forall|j: int|
                    1 <= j <= i ==> #[trigger] transactions@[j]@ == self.transactions@[j - 1]@,
            decreases self.transactions@.len() - i,
        {
            transactions.push(self.transactions[i].duplicate());
            i = i + 1;
        }
        proof {
            assert(transactions.deep_view() =~= seq![coinbase@] + self@.transactions);
        }
        Block {
            height: self.block_height as u32,
            hash,
            previous_hash: self.previous_block_hash,
            timestamp: self.block_timestamp,
            difficulty_target,
            ledger_root: self.ledger_root,
            transactions,
            nonce,
        }
    }
}

impl DeepView for MinerJob {
    type V = MinerJobView;

    open spec fn deep_view(&self) -> MinerJobView {
        self.view()
    }
}

impl View for MinerJob {
    type V = MinerJobView;

    open spec fn view(&self) -> MinerJobView {
        MinerJobView {
            previous_block_hash: self.previous_block_hash,
            block_height: self.block_height,
            block_timestamp: self.block_timestamp,
            previous_timestamp: self.previous_timestamp,
            previous_difficulty_target: self.previous_difficulty_target,
            ledger_root: self.ledger_root,
            transactions: self.transactions.deep_view(),
            recipient: self.recipient,
        }
    }
}

} // verus!
