//! The coordinator's cross-cutting guarantees, stated over the step
//! functions of [`crate::ledger`] and proved once and for all.

use vstd::prelude::*;

use crate::LedgerError;
use crate::ledger::{
    LedgerView, apply_append, mine_step, unconfirmed_block_step, unconfirmed_transaction_step,
    update_step,
};
use crate::request::RequestView;
use crate::types::{BlockView, TxView, txs_contain_id};

verus! {

/// Law: one coordinator step never shrinks the canon chain, and whenever
/// it grows, it grows by exactly one block whose height is exactly the
/// old height plus one, with every older block kept in place.
pub proof fn lemma_monotonic_append(s: LedgerView, req: RequestView, now: i64)
    ensures
        ({
            let t = update_step(s, req, now).state;
            &&& s.canon.len() <= t.canon.len() <= s.canon.len() + 1
            &&& t.canon.len() == s.canon.len() + 1 ==> {
                &&& t.canon.last().height as int == s.canon.len()
                &&& forall|i: int| 0 <= i < s.canon.len() ==> t.canon[i] == s.canon[i]
            }
        }),
{
}

/// One coordinator state after a whole sequence of requests, each paired
/// with the clock reading it was handled at.
pub open spec fn run_steps(s: LedgerView, reqs: Seq<(RequestView, i64)>) -> LedgerView
    decreases reqs.len(),
{
    if reqs.len() == 0 {
        s
    } else {
        run_steps(update_step(s, reqs[0].0, reqs[0].1).state, reqs.drop_first())
    }
}

/// Law: over any sequence of requests, the canon chain height never
/// decreases.
pub proof fn lemma_monotonic_append_run(s: LedgerView, reqs: Seq<(RequestView, i64)>)
    ensures
        s.canon.len() <= run_steps(s, reqs).canon.len(),
    decreases reqs.len(),
{
    if reqs.len() > 0 {
        lemma_monotonic_append(s, reqs[0].0, reqs[0].1);
        lemma_monotonic_append_run(update_step(s, reqs[0].0, reqs[0].1).state, reqs.drop_first());
    }
}

/// Law: two mining requests in immediate succession spawn at most one
/// task; when the first spawns one, the second is a pure no-op.
pub proof fn lemma_mining_mutual_exclusion(
    s: LedgerView,
    r1: u64,
    r2: u64,
    t1: i64,
    t2: i64,
)
    ensures
        ({
            let first = mine_step(s, r1, t1);
            let second = mine_step(first.state, r2, t2);
            &&& !(first.job is Some && second.job is Some)
            &&& first.job is Some ==> {
                &&& second.state == first.state
                &&& second.job is None
                &&& second.actions.len() == 0
            }
        }),
{
}

/// Law: submitting the same unconfirmed transaction twice leaves exactly
/// the state the first submission produced — at most one pooled entry —
/// and the second submission issues no action at all; across both
/// submissions at most one propagate is issued.
pub proof fn lemma_transaction_dedup(s: LedgerView, p1: u64, p2: u64, t: TxView)
    ensures
        ({
            let first = unconfirmed_transaction_step(s, p1, t);
            let second = unconfirmed_transaction_step(first.state, p2, t);
            &&& second.state == first.state
            &&& second.actions.len() == 0
            &&& first.actions.len() <= 1
        }),
{
    let first = unconfirmed_transaction_step(s, p1, t);
    if !crate::chain::chain_has_tx(s.canon, t.id) && !txs_contain_id(s.pool.transactions, t.id) {
        assert(first.state.pool.transactions[s.pool.transactions.len() as int].id == t.id);
        assert(txs_contain_id(first.state.pool.transactions, t.id));
    }
}

/// Law: a successful append invalidates the pooled transactions in bulk —
/// [`apply_append`] always leaves the transaction pool empty — so any
/// coordinator step that grows the canon chain leaves it empty too.
pub proof fn lemma_pool_invalidated_on_append(
    s: LedgerView,
    b: BlockView,
    req: RequestView,
    now: i64,
)
    ensures
        apply_append(s, b).pool.transactions.len() == 0,
        ({
            let t = update_step(s, req, now).state;
            t.canon.len() > s.canon.len() ==> t.pool.transactions.len() == 0
        }),
{
}

/// Law: an unconfirmed block the coordinator's height check finds stale —
/// one whose height plus one lies below the current height — is rejected
/// with `StaleHeight`, mutating neither chain nor pool and issuing no
/// action. (A block exactly at or one below the current height takes the
/// pending-pool or append branch instead, so it is not covered here.)
pub proof fn lemma_stale_block_rejected(s: LedgerView, peer: u64, b: BlockView)
    requires
        b.height as int + 1 < s.height(),
    ensures
        ({
            let step = unconfirmed_block_step(s, peer, b);
            &&& step.state == s
            &&& step.actions.len() == 0
            &&& step.result == Result::<(), LedgerError>::Err(LedgerError::StaleHeight)
        }),
{
}

} // verus!
