use quantum_blockchain::block_proposal::{BlockProposal, ProposalVerifier};
use quantum_blockchain::consensus::VerificationResult;
use quantum_blockchain::reputation::ReputationSystem;
use quantum_blockchain::validator_set::ValidatorSet;

const NOW: u64 = 5_000_000;

fn proposal(proposer: &str, signature: Vec<u8>, timestamp: u64) -> BlockProposal {
    BlockProposal {
        block_hash: "H2".to_string(),
        block_height: 2,
        parent_hash: "H1".to_string(),
        timestamp,
        proposer_id: proposer.to_string(),
        signature,
        transaction_hashes: vec!["t1".to_string(), "t2".to_string()],
        consensus_data: Vec::new(),
        received_at: NOW,
    }
}

fn setup() -> (ValidatorSet, ReputationSystem) {
    let mut validators = ValidatorSet::new();
    validators.add_validator("v1".to_string(), true);
    validators.add_validator("sleepy".to_string(), false);
    let mut reputation = ReputationSystem::new();
    reputation.add_validator("v1".to_string(), NOW);
    (validators, reputation)
}

fn invalid_reason(r: Result<VerificationResult, quantum_blockchain::consensus::ConsensusError>) -> String {
    match r.unwrap() {
        VerificationResult::Invalid(reason) => reason,
        VerificationResult::Valid => panic!("expected a rejection"),
    }
}

#[test]
fn unknown_proposer_is_rejected() {
    let (validators, mut reputation) = setup();
    let verifier = ProposalVerifier::new();
    let r = verifier.verify(&proposal("ghost", vec![1], NOW), &validators, &mut reputation, NOW);
    assert_eq!(invalid_reason(r), "unknown validator");
}

#[test]
fn inactive_proposer_is_rejected() {
    let (validators, mut reputation) = setup();
    let verifier = ProposalVerifier::new();
    let r = verifier.verify(&proposal("sleepy", vec![1], NOW), &validators, &mut reputation, NOW);
    assert_eq!(invalid_reason(r), "validator not active");
}

#[test]
fn empty_signature_is_rejected_and_reputation_untouched() {
    let (validators, mut reputation) = setup();
    let verifier = ProposalVerifier::new();
    let r = verifier.verify(&proposal("v1", Vec::new(), NOW), &validators, &mut reputation, NOW);
    assert_eq!(invalid_reason(r), "invalid signature");
    assert_eq!(reputation.get_reputation("v1").unwrap().score, 5000);
}

#[test]
fn skewed_timestamp_is_rejected() {
    let (validators, mut reputation) = setup();
    let verifier = ProposalVerifier::new();
    let r = verifier.verify(
        &proposal("v1", vec![1], NOW - 300_001),
        &validators,
        &mut reputation,
        NOW,
    );
    assert_eq!(invalid_reason(r), "invalid timestamp");
    // the widest accepted skew, in either direction, still passes
    let r = verifier.verify(
        &proposal("v1", vec![1], NOW + 300_000),
        &validators,
        &mut reputation,
        NOW,
    );
    assert!(matches!(r.unwrap(), VerificationResult::Valid));
}

#[test]
fn valid_proposal_rewards_proposer() {
    let (validators, mut reputation) = setup();
    let verifier = ProposalVerifier::new();
    let r = verifier.verify(&proposal("v1", vec![1, 2], NOW), &validators, &mut reputation, NOW);
    assert!(matches!(r.unwrap(), VerificationResult::Valid));
    let rep = reputation.get_reputation("v1").unwrap();
    assert_eq!(rep.score, 5200);
    assert_eq!(rep.successful_proposals, 1);
    assert_eq!(rep.last_seen_ms, NOW);
}

#[test]
fn verification_works_without_ledger_record() {
    // the reward is best-effort: a proposer the ledger does not know
    // still gets a valid verdict
    let mut validators = ValidatorSet::new();
    validators.add_validator("v9".to_string(), true);
    let mut reputation = ReputationSystem::new();
    let verifier = ProposalVerifier::new();
    let r = verifier.verify(&proposal("v9", vec![1], NOW), &validators, &mut reputation, NOW);
    assert!(matches!(r.unwrap(), VerificationResult::Valid));
    assert!(reputation.get_reputation("v9").is_none());
}

#[test]
fn proposal_age_and_expiry() {
    let p = proposal("v1", vec![1], NOW);
    assert_eq!(p.age(NOW + 400), 400);
    assert!(!p.is_expired(400, NOW + 400));
    assert!(p.is_expired(399, NOW + 400));
    // a clock running backwards reads as age zero
    assert_eq!(p.age(NOW - 50), 0);
    assert_eq!(p.transaction_count(), 2);
}

#[test]
fn proposal_constructor_carries_fields() {
    let p = BlockProposal::new(
        "H7".to_string(),
        7,
        "H6".to_string(),
        "v1".to_string(),
        vec!["a".to_string()],
        vec![9, 9],
        vec![1],
    );
    assert_eq!(p.block_hash, "H7");
    assert_eq!(p.block_height, 7);
    assert_eq!(p.parent_hash, "H6");
    assert_eq!(p.proposer_id, "v1");
    assert_eq!(p.signature, vec![9, 9]);
    assert_eq!(p.transaction_count(), 1);
}

#[test]
fn validator_directory_counts_active() {
    let mut validators = ValidatorSet::new();
    validators.add_validator("a".to_string(), true);
    validators.add_validator("b".to_string(), false);
    validators.add_validator("c".to_string(), true);
    validators.add_validator("a".to_string(), false);
    assert_eq!(validators.count_active(), 2);
    assert!(validators.contains("b"));
    assert!(!validators.contains("d"));
    assert!(validators.get_validator("a").unwrap().is_active);
    assert!(validators.get_validator("d").is_none());
}
