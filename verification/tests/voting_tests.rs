use quantum_blockchain::consensus::ConsensusError;
use quantum_blockchain::reputation::ReputationSystem;
use quantum_blockchain::validator_set::ValidatorSet;
use quantum_blockchain::voting::{ProposalVote, VotingCoordinator};

const NOW: u64 = 2_000_000;

fn directory(n: usize) -> ValidatorSet {
    let mut set = ValidatorSet::new();
    for i in 0..n {
        set.add_validator(format!("v{}", i + 1), true);
    }
    set
}

fn ledger(n: usize) -> ReputationSystem {
    let mut sys = ReputationSystem::new();
    for i in 0..n {
        sys.add_validator(format!("v{}", i + 1), NOW);
    }
    sys
}

fn vote(validator: &str, hash: &str, height: u64, in_favor: bool) -> ProposalVote {
    ProposalVote {
        block_hash: hash.to_string(),
        block_height: height,
        validator_id: validator.to_string(),
        is_in_favor: in_favor,
        signature: vec![1, 2, 3],
        timestamp: NOW,
    }
}

#[test]
fn vote_from_unknown_validator_is_refused() {
    let validators = directory(2);
    let mut reputation = ledger(2);
    let mut coordinator = VotingCoordinator::new(6600);
    let r = coordinator.process_vote(vote("ghost", "H", 1, true), &validators, &mut reputation, NOW);
    assert!(matches!(r, Err(ConsensusError::InvalidProposer(_))));
    assert_eq!(coordinator.votes.len(), 0);
}

#[test]
fn first_vote_accepted_second_is_double_vote() {
    let validators = directory(3);
    let mut reputation = ledger(3);
    let mut coordinator = VotingCoordinator::new(6600);
    let r = coordinator.process_vote(vote("v1", "H", 1, true), &validators, &mut reputation, NOW);
    assert_eq!(r.unwrap(), true);
    let count_before = coordinator.votes.len();
    let r = coordinator.process_vote(vote("v1", "H", 1, false), &validators, &mut reputation, NOW);
    assert!(matches!(r, Err(ConsensusError::ValidationFailed(_))));
    assert_eq!(coordinator.votes.len(), count_before);
}

#[test]
fn double_vote_penalizes_offender() {
    let validators = directory(3);
    let mut reputation = ledger(3);
    let mut coordinator = VotingCoordinator::new(6600);
    coordinator
        .process_vote(vote("v2", "H3", 1, true), &validators, &mut reputation, NOW)
        .unwrap();
    let r = coordinator.process_vote(vote("v2", "H3", 1, true), &validators, &mut reputation, NOW);
    assert!(matches!(r, Err(ConsensusError::ValidationFailed(_))));
    let rep = reputation.get_reputation("v2").unwrap();
    assert_eq!(rep.double_votes, 1);
    assert_eq!(rep.score, 3000);
}

#[test]
fn same_validator_may_vote_on_two_hashes() {
    let validators = directory(2);
    let mut reputation = ledger(2);
    let mut coordinator = VotingCoordinator::new(6600);
    coordinator
        .process_vote(vote("v1", "H1", 1, true), &validators, &mut reputation, NOW)
        .unwrap();
    let r = coordinator.process_vote(vote("v1", "H2", 2, true), &validators, &mut reputation, NOW);
    assert_eq!(r.unwrap(), true);
    assert_eq!(coordinator.votes.len(), 2);
}

#[test]
fn tally_on_unknown_hash_is_none() {
    let validators = directory(3);
    let coordinator = VotingCoordinator::new(6600);
    assert!(coordinator.tally_votes("nowhere", &validators).is_none());
}

#[test]
fn quorum_boundary_with_ten_active_validators() {
    let validators = directory(10);
    let mut reputation = ledger(10);
    let mut coordinator = VotingCoordinator::new(6600);
    for i in 0..5 {
        coordinator
            .process_vote(
                vote(&format!("v{}", i + 1), "H", 7, true),
                &validators,
                &mut reputation,
                NOW,
            )
            .unwrap();
    }
    // floor(10 * 2 / 3) = 6: five votes miss quorum
    let result = coordinator.tally_votes("H", &validators).unwrap();
    assert!(!result.reached_quorum);
    coordinator
        .process_vote(vote("v6", "H", 7, true), &validators, &mut reputation, NOW)
        .unwrap();
    // the sixth vote reaches it exactly
    let result = coordinator.tally_votes("H", &validators).unwrap();
    assert!(result.reached_quorum);
}

#[test]
fn approval_boundary_at_exact_threshold() {
    let validators = directory(4);
    let mut reputation = ledger(4);
    // three in favor of four votes: exactly 75.00 percent
    let mut coordinator = VotingCoordinator::new(7500);
    for (v, favor) in [("v1", true), ("v2", true), ("v3", true), ("v4", false)] {
        coordinator
            .process_vote(vote(v, "H", 3, favor), &validators, &mut reputation, NOW)
            .unwrap();
    }
    let result = coordinator.tally_votes("H", &validators).unwrap();
    assert_eq!(result.approval_percentage, 7500);
    assert!(result.reached_quorum);
    assert!(result.is_approved);

    // one hundredth of a percent above the share: no longer approved
    let mut coordinator = VotingCoordinator::new(7501);
    for (v, favor) in [("v1", true), ("v2", true), ("v3", true), ("v4", false)] {
        coordinator
            .process_vote(vote(v, "H", 3, favor), &validators, &mut reputation, NOW)
            .unwrap();
    }
    let result = coordinator.tally_votes("H", &validators).unwrap();
    assert!(result.reached_quorum);
    assert!(!result.is_approved);
}

#[test]
fn approval_needs_quorum_too() {
    let validators = directory(10);
    let mut reputation = ledger(10);
    let mut coordinator = VotingCoordinator::new(5000);
    // two unanimous votes: full approval share, no quorum
    coordinator
        .process_vote(vote("v1", "H", 1, true), &validators, &mut reputation, NOW)
        .unwrap();
    coordinator
        .process_vote(vote("v2", "H", 1, true), &validators, &mut reputation, NOW)
        .unwrap();
    let result = coordinator.tally_votes("H", &validators).unwrap();
    assert_eq!(result.approval_percentage, 10000);
    assert!(!result.reached_quorum);
    assert!(!result.is_approved);
    assert!(!coordinator.has_reached_finality("H", &validators));
}

#[test]
fn scenario_four_validators_three_in_favor() {
    let validators = directory(4);
    let mut reputation = ledger(4);
    let mut coordinator = VotingCoordinator::new(6600);
    for (v, favor) in [("v1", true), ("v2", true), ("v3", true), ("v4", false)] {
        coordinator
            .process_vote(vote(v, "H", 10, favor), &validators, &mut reputation, NOW)
            .unwrap();
    }
    let result = coordinator.tally_votes("H", &validators).unwrap();
    assert_eq!(result.total_votes, 4);
    assert_eq!(result.votes_in_favor, 3);
    assert_eq!(result.votes_against, 1);
    assert_eq!(result.approval_percentage, 7500);
    assert!(result.reached_quorum);
    assert!(result.is_approved);
    assert_eq!(result.block_height, 10);
    assert_eq!(result.block_hash, "H");
    assert!(coordinator.has_reached_finality("H", &validators));
}

#[test]
fn clear_votes_purges_only_that_hash() {
    let validators = directory(3);
    let mut reputation = ledger(3);
    let mut coordinator = VotingCoordinator::new(6600);
    coordinator
        .process_vote(vote("v1", "H1", 1, true), &validators, &mut reputation, NOW)
        .unwrap();
    coordinator
        .process_vote(vote("v2", "H2", 2, true), &validators, &mut reputation, NOW)
        .unwrap();
    coordinator.clear_votes("H1");
    assert!(coordinator.tally_votes("H1", &validators).is_none());
    assert!(coordinator.tally_votes("H2", &validators).is_some());
    // after the purge the validator may vote on the hash again
    let r = coordinator.process_vote(vote("v1", "H1", 1, false), &validators, &mut reputation, NOW);
    assert_eq!(r.unwrap(), true);
}
