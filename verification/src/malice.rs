//! Named, independently toggleable behavioral deviations used for
//! adversarial testing, and the policy value that decides, at each guarded
//! boundary, whether deviant code runs in place of — or beside — the
//! well-behaved code.

use vstd::prelude::*;

verus! {

/// A set of modes, indicating distinct forms of malicious behavior.
#[derive(Clone, Copy, Debug, PartialEq, Eq, Structural)]
pub enum MaliceMode {
    /// As a malicious validator, allow already seen transactions.
    AllowSeenTransaction,
    /// As a malicious validator, flood the network with large batch proposals.
    BatchProposalFlood,
    /// As a malicious validator, randomly inject confirmed transactions into the ledger.
    DoubleSpend,
    /// As a malicious validator, flood the network with peer responses.
    PeerResponseFlood,
    /// As a malicious validator, resend a confirmed transaction.
    ResendConfirmed,
    /// As a malicious validator, try to confuse the network with a round far in advance.
    RoundsFarAhead,
    /// As a malicious validator, skip transaction uniqueness and correctness checks.
    SkipTransactionCheck,
    /// As a malicious validator, withhold the leader certificate.
    WithholdLeaderCertificate,
    /// As a (malicious) validator, use an alternate bootstrap peer list.
    UseBootstrapPeers,
}

/// The fault-injection policy: the set of enabled malice modes. The
/// coordinator and miner consult it at each guarded boundary instead of
/// inspecting the process environment.
#[derive(Debug)]
pub struct MalicePolicy {
    /// The enabled modes, in the order they were enabled.
    pub enabled: Vec<MaliceMode>,
}

impl MalicePolicy {
    /// A policy with no deviation enabled: every guarded boundary behaves
    /// well.
    pub fn new() -> (r: MalicePolicy)
        ensures
            r.enabled@.len() == 0,
    {
        MalicePolicy { enabled: Vec::new() }
    }

    /// Enables the given mode.
    pub fn enable(&mut self, mode: MaliceMode)
        ensures
            final(self).enabled@ == old(self).enabled@.push(mode),
    {
        self.enabled.push(mode);
    }

    /// Returns whether the given mode is enabled.
    pub fn is_enabled(&self, mode: MaliceMode) -> (r: bool)
        ensures
            r == self.enabled@.contains(mode),
    {
        let mut i: usize = 0;
        while i < self.enabled.len()
            invariant
                i <= self.enabled@.len(),
                forall|j: int| 0 <= j < i ==> self.enabled@[j] != mode,
            decreases self.enabled@.len() - i,
        {
            if self.enabled[i] == mode {
                return true;
            }
            i = i + 1;
        }
        false
    }

    /// Whether a block of injected deviant code, guarded by the given
    /// mode, runs: only when the mode is enabled.
    pub fn runs_injected(&self, mode: MaliceMode) -> (r: bool)
        ensures
            r == self.enabled@.contains(mode),
    {
        self.is_enabled(mode)
    }

    /// Whether a block of well-behaved code, marked for omission under the
    /// given mode, still runs: only when the mode is disabled.
    pub fn runs_omitted(&self, mode: MaliceMode) -> (r: bool)
        ensures
            r == !self.enabled@.contains(mode),
    {
        !self.is_enabled(mode)
    }

    /// Whether the deviant replacement, rather than the well-behaved code,
    /// runs at a boundary guarded by the given mode: only when the mode is
    /// enabled.
    pub fn takes_replacement(&self, mode: MaliceMode) -> (r: bool)
        ensures
            r == self.enabled@.contains(mode),
    {
        self.is_enabled(mode)
    }
}

} // verus!
