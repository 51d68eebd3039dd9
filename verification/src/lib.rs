//! A verified model of a proof-of-work node's ledger coordinator: the single
//! component that serializes every mutation to canonical chain state and to
//! the pending-transaction staging area, while driving block production and
//! fanning results out to the peer network.

use vstd::prelude::*;

pub mod chain;
pub(crate) mod clock;
pub mod laws;
pub mod ledger;
pub mod malice;
pub mod pool;
pub mod prover;
pub mod request;
pub mod types;

verus! {

/// The errors a ledger operation can report.
#[derive(Clone, Copy, Debug, PartialEq, Eq, Structural)]
pub enum LedgerError {
    /// A candidate block's height does not follow the canon chain's tip.
    AppendError,
    /// A transaction or block is already known.
    Duplicate,
    /// The memory pool cannot hold another pending block.
    Capacity,
    /// A block's height lies at or below an already superseded point.
    StaleHeight,
    /// A requested height or identifier is not in the canon chain.
    LookupMiss,
    /// Coinbase or transaction-set assembly failed.
    ConstructionFailure,
    /// The proof-of-work search was exhausted or cancelled.
    SearchFailure,
    /// A peer channel was closed before a message could be delivered.
    SinkUnavailable,
}

} // verus!
