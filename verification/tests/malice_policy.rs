use ledger_node::malice::{MaliceMode, MalicePolicy};

#[test]
fn fresh_policy_keeps_every_boundary_well_behaved() {
    let policy = MalicePolicy::new();
    assert!(!policy.is_enabled(MaliceMode::DoubleSpend));
    assert!(!policy.runs_injected(MaliceMode::BatchProposalFlood));
    assert!(policy.runs_omitted(MaliceMode::WithholdLeaderCertificate));
    assert!(!policy.takes_replacement(MaliceMode::UseBootstrapPeers));
}

#[test]
fn enabled_mode_flips_its_boundaries_only() {
    let mut policy = MalicePolicy::new();
    policy.enable(MaliceMode::ResendConfirmed);
    policy.enable(MaliceMode::SkipTransactionCheck);
    assert!(policy.is_enabled(MaliceMode::ResendConfirmed));
    assert!(policy.runs_injected(MaliceMode::SkipTransactionCheck));
    assert!(!policy.runs_omitted(MaliceMode::ResendConfirmed));
    assert!(policy.takes_replacement(MaliceMode::SkipTransactionCheck));
    // Untouched modes stay well behaved.
    assert!(!policy.is_enabled(MaliceMode::AllowSeenTransaction));
    assert!(!policy.is_enabled(MaliceMode::PeerResponseFlood));
    assert!(policy.runs_omitted(MaliceMode::RoundsFarAhead));
}
