use quantum_blockchain::reputation::{
    ReputationAction, ReputationConfig, ReputationError, ReputationSystem,
};

const NOW: u64 = 1_000_000;

fn ledger_with(ids: &[&str]) -> ReputationSystem {
    let mut sys = ReputationSystem::new();
    for id in ids {
        sys.add_validator(id.to_string(), NOW);
    }
    sys
}

#[test]
fn fresh_validator_starts_neutral() {
    let sys = ledger_with(&["v1"]);
    let rep = sys.get_reputation("v1").unwrap();
    assert_eq!(rep.score, 5000);
    assert_eq!(rep.double_votes, 0);
    assert!(!rep.is_banned);
    assert_eq!(rep.last_seen_ms, NOW);
}

#[test]
fn add_validator_is_idempotent() {
    let mut sys = ledger_with(&["v1"]);
    sys.add_validator("v1".to_string(), NOW + 5);
    assert_eq!(sys.reputations.len(), 1);
    assert_eq!(sys.get_reputation("v1").unwrap().last_seen_ms, NOW);
}

#[test]
fn update_on_unregistered_id_fails_and_creates_nothing() {
    let mut sys = ledger_with(&["v1"]);
    let r = sys.update_reputation("ghost", ReputationAction::CorrectVote, NOW);
    assert!(matches!(r, Err(ReputationError::UnknownValidator)));
    assert_eq!(sys.reputations.len(), 1);
    assert!(sys.get_reputation("ghost").is_none());
}

#[test]
fn action_deltas_apply_exactly() {
    let mut sys = ledger_with(&["v1"]);
    let score = sys
        .update_reputation("v1", ReputationAction::ValidBlockProposed, NOW)
        .unwrap();
    assert_eq!(score, 5200);
    let score = sys
        .update_reputation("v1", ReputationAction::CorrectVote, NOW)
        .unwrap();
    assert_eq!(score, 5300);
    let score = sys
        .update_reputation("v1", ReputationAction::IncorrectVote, NOW)
        .unwrap();
    assert_eq!(score, 4800);
    let score = sys
        .update_reputation("v1", ReputationAction::Timeout, NOW)
        .unwrap();
    assert_eq!(score, 4500);
    let rep = sys.get_reputation("v1").unwrap();
    assert_eq!(rep.successful_proposals, 1);
    assert_eq!(rep.correct_votes, 1);
    assert_eq!(rep.incorrect_votes, 1);
    assert_eq!(rep.timeouts, 1);
}

#[test]
fn score_clamps_at_the_top() {
    let mut sys = ledger_with(&["v1"]);
    sys.set_reputation("v1", 9950).unwrap();
    let score = sys
        .update_reputation("v1", ReputationAction::ValidBlockProposed, NOW)
        .unwrap();
    assert_eq!(score, 10000);
}

#[test]
fn double_vote_decreases_score_twice_and_counts() {
    let mut sys = ledger_with(&["v1"]);
    let s1 = sys
        .update_reputation("v1", ReputationAction::DoubleVote, NOW)
        .unwrap();
    assert_eq!(s1, 3000);
    assert_eq!(sys.get_reputation("v1").unwrap().double_votes, 1);
    let s2 = sys
        .update_reputation("v1", ReputationAction::DoubleVote, NOW + 1)
        .unwrap();
    assert!(s2 < s1);
    assert_eq!(s2, 1000);
    assert_eq!(sys.get_reputation("v1").unwrap().double_votes, 2);
    // the second double vote sank the score under the ban threshold
    assert!(sys.is_banned("v1"));
    let r = sys.update_reputation("v1", ReputationAction::DoubleVote, NOW + 2);
    assert!(matches!(r, Err(ReputationError::Banned)));
    assert_eq!(sys.get_reputation("v1").unwrap().double_votes, 2);
}

#[test]
fn ban_escalation_duration_is_exact() {
    let mut sys = ledger_with(&["v1"]);
    sys.set_reputation("v1", 1600).unwrap();
    let score = sys
        .update_reputation("v1", ReputationAction::DoubleVote, NOW)
        .unwrap();
    // 1600 - 2000 clamps to 0, the ban floor lifts it back to 1000
    assert_eq!(score, 1000);
    let rep = sys.get_reputation("v1").unwrap();
    assert!(rep.is_banned);
    // double_votes = 1, invalid_proposals = 0 after the increment:
    // duration = 3_600_000 * (1 + 1) * (1 + 0)
    assert_eq!(rep.banned_until_ms, Some(NOW + 7_200_000));
}

#[test]
fn ban_escalation_multiplies_both_counters() {
    let mut sys = ledger_with(&["v1"]);
    sys.update_reputation("v1", ReputationAction::InvalidBlockProposed, NOW)
        .unwrap();
    sys.set_reputation("v1", 1600).unwrap();
    sys.update_reputation("v1", ReputationAction::DoubleVote, NOW)
        .unwrap();
    let rep = sys.get_reputation("v1").unwrap();
    // double_votes = 1 and invalid_proposals = 1 after the increments:
    // duration = 3_600_000 * 2 * 2
    assert_eq!(rep.banned_until_ms, Some(NOW + 14_400_000));
}

#[test]
fn ban_expires_lazily() {
    let mut sys = ledger_with(&["v1"]);
    sys.ban_validator("v1", 1_000, NOW).unwrap();
    assert!(sys.is_banned("v1"));
    let r = sys.update_reputation("v1", ReputationAction::CorrectVote, NOW + 500);
    assert!(matches!(r, Err(ReputationError::Banned)));
    let r = sys.update_reputation("v1", ReputationAction::CorrectVote, NOW + 1_000);
    assert_eq!(r.unwrap(), 5100);
    assert!(!sys.is_banned("v1"));
}

#[test]
fn explicit_ban_floors_score() {
    let mut sys = ledger_with(&["v1"]);
    sys.set_reputation("v1", 200).unwrap();
    sys.ban_validator("v1", 5_000, NOW).unwrap();
    let rep = sys.get_reputation("v1").unwrap();
    assert!(rep.is_banned);
    assert_eq!(rep.score, 1000);
    assert_eq!(rep.banned_until_ms, Some(NOW + 5_000));
}

#[test]
fn set_reputation_clamps_to_scale() {
    let mut sys = ledger_with(&["v1"]);
    sys.set_reputation("v1", 60_000).unwrap();
    assert_eq!(sys.get_reputation("v1").unwrap().score, 10000);
    assert!(matches!(
        sys.set_reputation("ghost", 10),
        Err(ReputationError::UnknownValidator)
    ));
}

#[test]
fn scores_stay_on_the_scale() {
    let mut sys = ledger_with(&["v1", "v2"]);
    for _ in 0..10 {
        let _ = sys.update_reputation("v1", ReputationAction::DoubleVote, NOW);
        let _ = sys.update_reputation("v2", ReputationAction::ValidBlockProposed, NOW);
    }
    for rep in &sys.reputations {
        assert!(rep.score <= 10000);
    }
}

#[test]
fn suspicious_and_active_listings() {
    let mut sys = ledger_with(&["v1", "v2", "v3"]);
    sys.set_reputation("v1", 2000).unwrap();
    sys.ban_validator("v2", 10_000, NOW).unwrap();
    let suspicious = sys.get_suspicious_validators();
    assert_eq!(suspicious.len(), 1);
    assert_eq!(suspicious[0].validator_id, "v1");
    assert_eq!(sys.count_suspicious_validators(), 1);
    let active = sys.get_active_validators();
    assert_eq!(active.len(), 2);
    assert!(active.iter().all(|r| r.validator_id != "v2"));
}

#[test]
fn average_of_empty_ledger_is_neutral() {
    let sys = ReputationSystem::new();
    assert_eq!(sys.average_reputation(), 5000);
}

#[test]
fn average_is_the_mean_of_scores() {
    let mut sys = ledger_with(&["v1", "v2"]);
    sys.set_reputation("v1", 4000).unwrap();
    sys.set_reputation("v2", 5000).unwrap();
    assert_eq!(sys.average_reputation(), 4500);
}

#[test]
fn offline_sweep_penalizes_only_silent_validators() {
    let mut sys = ReputationSystem::new();
    sys.add_validator("old".to_string(), 0);
    sys.add_validator("fresh".to_string(), 90_000);
    sys.update_offline_status(10_000, 100_000);
    assert_eq!(sys.get_reputation("old").unwrap().score, 4500);
    assert_eq!(sys.get_reputation("old").unwrap().last_seen_ms, 100_000);
    assert_eq!(sys.get_reputation("fresh").unwrap().score, 5000);
}

#[test]
fn custom_config_drives_the_deltas() {
    let config = ReputationConfig {
        correct_vote_points: 700,
        ..ReputationConfig::default()
    };
    let mut sys = ReputationSystem::with_config(config);
    sys.add_validator("v1".to_string(), NOW);
    let score = sys
        .update_reputation("v1", ReputationAction::CorrectVote, NOW)
        .unwrap();
    assert_eq!(score, 5700);
    assert_eq!(sys.config().correct_vote_points, 700);
}
