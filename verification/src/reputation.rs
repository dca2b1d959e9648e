//! Reputation ledger: per-validator trust scores, behavioral counters,
//! and escalating bans.
//!
//! Scores live on a fixed scale of hundredths of a point: the bounded
//! range `0.0 ..= 100.0` of the protocol becomes `0 ..= 10000` here, the
//! neutral starting score `50.0` becomes `5000`, and every configured
//! delta is likewise a count of hundredths. All clock readings enter as
//! explicit `u64` milliseconds, so the whole ledger is deterministic.

use vstd::prelude::*;
use crate::strutil::str_eq;

verus! {

/// Upper bound of a reputation score, in hundredths of a point (`100.0`).
pub const MAX_SCORE: u32 = 10000;

/// Score given to a freshly registered validator (`50.0`).
pub const NEUTRAL_SCORE: u32 = 5000;

/// A banned validator keeps at least this score (`10.0`).
pub const BAN_FLOOR_SCORE: u32 = 1000;

/// Observed behavior that adjusts a validator's reputation.
#[derive(Clone, Copy, Debug, PartialEq, Eq, Structural)]
pub enum ReputationAction {
    /// The validator proposed a valid block.
    ValidBlockProposed,
    /// The validator proposed an invalid block.
    InvalidBlockProposed,
    /// The validator voted correctly.
    CorrectVote,
    /// The validator voted incorrectly.
    IncorrectVote,
    /// The validator failed to answer within the timeout.
    Timeout,
    /// The validator cast a second vote for the same block.
    DoubleVote,
    /// The validator was offline while expected to be active.
    Offline,
    /// The validator came back online.
    BackOnline,
    /// The validator sent an invalid or malformed message.
    InvalidMessage,
    /// The validator proposed out of turn.
    UnauthorizedProposal,
}

/// Why a ledger operation was refused.
#[derive(Clone, Copy, Debug, PartialEq, Eq, Structural)]
pub enum ReputationError {
    /// The id is not registered in the ledger.
    UnknownValidator,
    /// The validator is banned and the ban has not expired.
    Banned,
}

/// Tunable constants of the ledger. Point values are in hundredths of a
/// point, durations in milliseconds.
#[derive(Clone, Copy, Debug)]
pub struct ReputationConfig {
    /// Points gained for proposing a valid block.
    pub valid_block_points: u32,
    /// Points lost for proposing an invalid block.
    pub invalid_block_penalty: u32,
    /// Points gained for a correct vote.
    pub correct_vote_points: u32,
    /// Points lost for an incorrect vote.
    pub incorrect_vote_penalty: u32,
    /// Points lost for a timeout.
    pub timeout_penalty: u32,
    /// Points lost for a double vote.
    pub double_vote_penalty: u32,
    /// Points lost for going offline.
    pub offline_penalty: u32,
    /// Points gained for coming back online.
    pub back_online_points: u32,
    /// Below this score a validator counts as suspicious.
    pub suspicious_threshold: u32,
    /// Below this score a penalized validator is banned.
    pub ban_threshold: u32,
    /// Length of a first ban; repeat offences scale it up.
    pub initial_ban_duration_ms: u64,
    /// Reserved decay factor, in hundredths; configured but applied
    /// nowhere in the scoring or ban logic.
    pub decay_factor_centi: u32,
}

impl ReputationConfig {
    /// The stock configuration.
    pub open spec fn spec_default() -> ReputationConfig {
        ReputationConfig {
            valid_block_points: 200,
            invalid_block_penalty: 1000,
            correct_vote_points: 100,
            incorrect_vote_penalty: 500,
            timeout_penalty: 300,
            double_vote_penalty: 2000,
            offline_penalty: 500,
            back_online_points: 100,
            suspicious_threshold: 3000,
            ban_threshold: 1500,
            initial_ban_duration_ms: 3600000,
            decay_factor_centi: 90,
        }
    }
}

impl Default for ReputationConfig {
    /// The stock configuration.
    fn default() -> (c: Self)
        ensures
            c == ReputationConfig::spec_default(),
    {
        ReputationConfig {
            valid_block_points: 200,
            invalid_block_penalty: 1000,
            correct_vote_points: 100,
            incorrect_vote_penalty: 500,
            timeout_penalty: 300,
            double_vote_penalty: 2000,
            offline_penalty: 500,
            back_online_points: 100,
            suspicious_threshold: 3000,
            ban_threshold: 1500,
            initial_ban_duration_ms: 3600000,
            decay_factor_centi: 90,
        }
    }
}

/// Reputation record of a single validator.
#[derive(Clone, Debug)]
pub struct ValidatorReputation {
    /// Unique id of the validator.
    pub validator_id: String,
    /// Current score, in hundredths of a point; at most [`MAX_SCORE`].
    pub score: u32,
    /// Valid blocks proposed.
    pub successful_proposals: u64,
    /// Invalid blocks proposed.
    pub invalid_proposals: u64,
    /// Correct votes cast.
    pub correct_votes: u64,
    /// Incorrect votes cast.
    pub incorrect_votes: u64,
    /// Times the validator failed to answer in time.
    pub timeouts: u64,
    /// Double votes detected.
    pub double_votes: u64,
    /// Clock reading of the last reputation-affecting event.
    pub last_seen_ms: u64,
    /// Whether the validator is currently banned.
    pub is_banned: bool,
    /// When the ban runs out; present exactly while banned.
    pub banned_until_ms: Option<u64>,
}

impl ValidatorReputation {
    /// Record invariant: the score stays on the scale and the ban flag
    /// agrees with the ban deadline.
    pub open spec fn wf(self) -> bool {
        &&& self.score <= MAX_SCORE
        &&& self.is_banned <==> self.banned_until_ms is Some
    }
}

/// `x`, cut to the range of `u64`.
pub open spec fn sat_u64(x: int) -> u64 {
    if x > u64::MAX {
        u64::MAX
    } else if x < 0 {
        0
    } else {
        x as u64
    }
}

/// A counter bumped by one, stopping at the top of `u64`.
pub open spec fn inc_sat(c: u64) -> u64 {
    if c == u64::MAX {
        c
    } else {
        (c + 1) as u64
    }
}

/// Whether the action raises the score.
pub open spec fn action_is_positive(action: ReputationAction) -> bool {
    match action {
        ReputationAction::ValidBlockProposed => true,
        ReputationAction::CorrectVote => true,
        ReputationAction::BackOnline => true,
        _ => false,
    }
}

/// Magnitude of the score change for the action, from the configuration.
pub open spec fn action_delta(cfg: ReputationConfig, action: ReputationAction) -> u32 {
    match action {
        ReputationAction::ValidBlockProposed => cfg.valid_block_points,
        ReputationAction::InvalidBlockProposed => cfg.invalid_block_penalty,
        ReputationAction::CorrectVote => cfg.correct_vote_points,
        ReputationAction::IncorrectVote => cfg.incorrect_vote_penalty,
        ReputationAction::Timeout => cfg.timeout_penalty,
        ReputationAction::DoubleVote => cfg.double_vote_penalty,
        ReputationAction::Offline => cfg.offline_penalty,
        ReputationAction::BackOnline => cfg.back_online_points,
        ReputationAction::InvalidMessage => cfg.incorrect_vote_penalty,
        ReputationAction::UnauthorizedProposal => cfg.invalid_block_penalty,
    }
}

/// The record with the counter matching the action bumped.
pub open spec fn bump_counters(r: ValidatorReputation, action: ReputationAction) -> ValidatorReputation {
    match action {
        ReputationAction::ValidBlockProposed => ValidatorReputation {
            successful_proposals: inc_sat(r.successful_proposals),
            ..r
        },
        ReputationAction::InvalidBlockProposed => ValidatorReputation {
            invalid_proposals: inc_sat(r.invalid_proposals),
            ..r
        },
        ReputationAction::CorrectVote => ValidatorReputation {
            correct_votes: inc_sat(r.correct_votes),
            ..r
        },
        ReputationAction::IncorrectVote => ValidatorReputation {
            incorrect_votes: inc_sat(r.incorrect_votes),
            ..r
        },
        ReputationAction::Timeout => ValidatorReputation { timeouts: inc_sat(r.timeouts), ..r },
        ReputationAction::DoubleVote => ValidatorReputation {
            double_votes: inc_sat(r.double_votes),
            ..r
        },
        _ => r,
    }
}

/// The score after applying a delta of the given sign, clamped to the
/// scale.
pub open spec fn clamped_score(score: u32, delta: u32, positive: bool) -> u32 {
    if positive {
        if score + delta > MAX_SCORE {
            MAX_SCORE
        } else {
            (score + delta) as u32
        }
    } else {
        if score >= delta {
            (score - delta) as u32
        } else {
            0
        }
    }
}

/// Whether the validator is banned and the ban has not yet run out.
pub open spec fn still_banned(r: ValidatorReputation, now_ms: u64) -> bool {
    r.is_banned && match r.banned_until_ms {
        Some(until) => now_ms < until,
        None => false,
    }
}

/// The record after the lazy ban-expiry check.
pub open spec fn after_expiry_check(r: ValidatorReputation, now_ms: u64) -> ValidatorReputation {
    match r.banned_until_ms {
        Some(until) => if now_ms >= until {
            ValidatorReputation { is_banned: false, banned_until_ms: None, ..r }
        } else {
            r
        },
        None => r,
    }
}

/// Ban length for a validator with the given (post-increment) infraction
/// counters: the configured initial duration times
/// `(1 + double_votes) * (1 + invalid_proposals)`, cut at `u64::MAX`.
pub open spec fn ban_duration_of(cfg: ReputationConfig, double_votes: u64, invalid_proposals: u64) -> u64 {
    sat_u64(cfg.initial_ban_duration_ms * (1 + double_votes) * (1 + invalid_proposals))
}

/// The record banned for `duration_ms` from `now_ms` on: the flag set,
/// the deadline recorded, and the score floored at [`BAN_FLOOR_SCORE`].
pub open spec fn after_ban(r: ValidatorReputation, duration_ms: u64, now_ms: u64) -> ValidatorReputation {
    ValidatorReputation {
        is_banned: true,
        banned_until_ms: Some(sat_u64(now_ms + duration_ms)),
        score: if r.score < BAN_FLOOR_SCORE {
            BAN_FLOOR_SCORE
        } else {
            r.score
        },
        ..r
    }
}

/// The full effect of one reputation update on a single record.
///
/// `last_seen` is always refreshed. A still-banned validator changes in
/// no other way (the operation fails with [`ReputationError::Banned`]).
/// Otherwise an expired ban is cleared, the matching counter bumped, the
/// signed delta applied and clamped, and — when a real penalty leaves the
/// score under the ban threshold — the validator is banned for
/// [`ban_duration_of`] the post-increment counters.
pub open spec fn after_update(
    r0: ValidatorReputation,
    cfg: ReputationConfig,
    action: ReputationAction,
    now_ms: u64,
) -> ValidatorReputation {
    let r1 = ValidatorReputation { last_seen_ms: now_ms, ..r0 };
    if still_banned(r1, now_ms) {
        r1
    } else {
        let r2 = after_expiry_check(r1, now_ms);
        let r3 = bump_counters(r2, action);
        let positive = action_is_positive(action);
        let delta = action_delta(cfg, action);
        let r4 = ValidatorReputation { score: clamped_score(r3.score, delta, positive), ..r3 };
        if !positive && delta > 0 && r4.score < cfg.ban_threshold {
            after_ban(r4, ban_duration_of(cfg, r4.double_votes, r4.invalid_proposals), now_ms)
        } else {
            r4
        }
    }
}

impl ValidatorReputation {
    /// A fresh record at neutral score, last seen now.
    pub fn new(validator_id: String, now_ms: u64) -> (r: Self)
        ensures
            r == (ValidatorReputation {
                validator_id,
                score: NEUTRAL_SCORE,
                successful_proposals: 0,
                invalid_proposals: 0,
                correct_votes: 0,
                incorrect_votes: 0,
                timeouts: 0,
                double_votes: 0,
                last_seen_ms: now_ms,
                is_banned: false,
                banned_until_ms: None,
            }),
            r.wf(),
    {
        ValidatorReputation {
            validator_id,
            score: NEUTRAL_SCORE,
            successful_proposals: 0,
            invalid_proposals: 0,
            correct_votes: 0,
            incorrect_votes: 0,
            timeouts: 0,
            double_votes: 0,
            last_seen_ms: now_ms,
            is_banned: false,
            banned_until_ms: None,
        }
    }

    /// Refreshes the last-seen clock reading.
    pub fn update_last_seen(&mut self, now_ms: u64)
        ensures
            *final(self) == (ValidatorReputation { last_seen_ms: now_ms, ..*old(self) }),
    {
        self.last_seen_ms = now_ms;
    }

    /// Whether the validator has been silent for longer than the
    /// threshold.
    pub fn is_offline(&self, threshold_ms: u64, now_ms: u64) -> (r: bool)
        ensures
            r == spec_is_offline(*self, threshold_ms, now_ms),
    {
        let elapsed = if now_ms >= self.last_seen_ms {
            now_ms - self.last_seen_ms
        } else {
            0
        };
        elapsed > threshold_ms
    }

    /// Bans the validator for `duration_ms` from `now_ms` on; the score
    /// is floored at [`BAN_FLOOR_SCORE`], never zeroed.
    pub fn ban(&mut self, duration_ms: u64, now_ms: u64)
        ensures
            *final(self) == after_ban(*old(self), duration_ms, now_ms),
            old(self).wf() ==> final(self).wf(),
    {
        self.is_banned = true;
        self.banned_until_ms = Some(now_ms.saturating_add(duration_ms));
        if self.score < BAN_FLOOR_SCORE {
            self.score = BAN_FLOOR_SCORE;
        }
    }

    /// Clears an expired ban; returns whether it just expired.
    pub fn check_ban_status(&mut self, now_ms: u64) -> (expired: bool)
        ensures
            *final(self) == after_expiry_check(*old(self), now_ms),
            expired == (old(self).banned_until_ms matches Some(u) && now_ms >= u),
            old(self).wf() ==> final(self).wf(),
    {
        match self.banned_until_ms {
            Some(until) => {
                if now_ms >= until {
                    self.is_banned = false;
                    self.banned_until_ms = None;
                    true
                } else {
                    false
                }
            },
            None => false,
        }
    }
}

/// Elapsed time since the record was last seen exceeds the threshold.
pub open spec fn spec_is_offline(r: ValidatorReputation, threshold_ms: u64, now_ms: u64) -> bool {
    (if now_ms >= r.last_seen_ms {
        now_ms - r.last_seen_ms
    } else {
        0
    }) > threshold_ms
}


/// A fresh record for a just-registered validator.
pub open spec fn fresh_record(validator_id: String, now_ms: u64) -> ValidatorReputation {
    ValidatorReputation {
        validator_id,
        score: NEUTRAL_SCORE,
        successful_proposals: 0,
        invalid_proposals: 0,
        correct_votes: 0,
        incorrect_votes: 0,
        timeouts: 0,
        double_votes: 0,
        last_seen_ms: now_ms,
        is_banned: false,
        banned_until_ms: None,
    }
}

/// The reputation ledger: one record per registered validator, plus the
/// configuration the scoring rules read.
#[derive(Clone, Debug)]
pub struct ReputationSystem {
    /// One record per validator, in registration order; ids are unique
    /// whenever [`ReputationSystem::wf`] holds, which every method
    /// preserves.
    pub reputations: Vec<ValidatorReputation>,
    /// The scoring constants.
    pub config: ReputationConfig,
}

impl ReputationSystem {
    /// The records, in registration order.
    pub open spec fn reps(self) -> Seq<ValidatorReputation> {
        self.reputations@
    }

    /// Ledger invariant: every record is well-formed and no two records
    /// share an id.
    pub open spec fn wf(self) -> bool {
        &&& forall|i: int| 0 <= i < self.reps().len() ==> (#[trigger] self.reps()[i]).wf()
        &&& forall|i: int, j: int|
            #![trigger self.reps()[i], self.reps()[j]]
            0 <= i < j < self.reps().len() ==> self.reps()[i].validator_id@
                != self.reps()[j].validator_id@
    }

    /// Whether a record carries this id.
    pub open spec fn spec_has(self, id: Seq<char>) -> bool {
        exists|i: int| 0 <= i < self.reps().len() && self.reps()[i].validator_id@ == id
    }

    /// Index of the record with this id (meaningful only when present).
    pub open spec fn spec_idx(self, id: Seq<char>) -> int {
        choose|i: int| 0 <= i < self.reps().len() && self.reps()[i].validator_id@ == id
    }

    /// The record with this id (meaningful only when present).
    pub open spec fn spec_rep(self, id: Seq<char>) -> ValidatorReputation {
        self.reps()[self.spec_idx(id)]
    }

    /// The records after one update of `id` by `action`: unchanged when
    /// the id is unknown, else the one record rewritten by
    /// [`after_update`].
    pub open spec fn spec_after_update(
        self,
        id: Seq<char>,
        action: ReputationAction,
        now_ms: u64,
    ) -> Seq<ValidatorReputation> {
        if self.spec_has(id) {
            self.reps().update(
                self.spec_idx(id),
                after_update(self.spec_rep(id), self.config, action, now_ms),
            )
        } else {
            self.reps()
        }
    }
}

proof fn lemma_found_idx(sys: ReputationSystem, id: Seq<char>, k: int)
    requires
        sys.wf(),
        0 <= k < sys.reps().len(),
        sys.reps()[k].validator_id@ == id,
    ensures
        sys.spec_has(id),
        sys.spec_idx(id) == k,
{
    assert(sys.spec_has(id));
    let i = sys.spec_idx(id);
    assert(0 <= i < sys.reps().len() && sys.reps()[i].validator_id@ == id);
    if i != k {
        let a: int = if i < k {
            i
        } else {
            k
        };
        let b: int = if i < k {
            k
        } else {
            i
        };
        assert(sys.reps()[a].validator_id@ != sys.reps()[b].validator_id@);
        assert(false);
    }
}

impl ReputationSystem {
    /// An empty ledger with the stock configuration.
    pub fn new() -> (s: Self)
        ensures
            s.wf(),
            s.reps() == Seq::<ValidatorReputation>::empty(),
            s.config == ReputationConfig::spec_default(),
    {
        ReputationSystem { reputations: Vec::new(), config: ReputationConfig::default() }
    }

    /// An empty ledger with the given configuration.
    pub fn with_config(config: ReputationConfig) -> (s: Self)
        ensures
            s.wf(),
            s.reps() == Seq::<ValidatorReputation>::empty(),
            s.config == config,
    {
        ReputationSystem { reputations: Vec::new(), config }
    }

    /// The configuration in force.
    pub fn config(&self) -> (c: &ReputationConfig)
        ensures
            *c == self.config,
    {
        &self.config
    }

    /// Replaces the configuration; records are untouched.
    pub fn set_config(&mut self, config: ReputationConfig)
        ensures
            final(self).config == config,
            final(self).reps() == old(self).reps(),
    {
        self.config = config;
    }

    /// Index of the record for this id, if any.
    fn find_index(&self, validator_id: &str) -> (r: Option<usize>)
        requires
            self.wf(),
        ensures
            match r {
                Some(k) => k < self.reps().len() && self.reps()[k as int].validator_id@
                    == validator_id@ && self.spec_has(validator_id@) && self.spec_idx(
                    validator_id@,
                ) == k,
                None => !self.spec_has(validator_id@),
            },
    {
        let n = self.reputations.len();
        let mut k: usize = 0;
        while k < n
            invariant
                0 <= k <= n,
                n == self.reps().len(),
                self.wf(),
                forall|j: int| 0 <= j < k ==> self.reps()[j].validator_id@ != validator_id@,
            decreases n - k,
        {
            if str_eq(self.reputations[k].validator_id.as_str(), validator_id) {
                proof {
                    lemma_found_idx(*self, validator_id@, k as int);
                }
                return Some(k);
            }
            k = k + 1;
        }
        None
    }

    /// Registers a validator at neutral reputation; registering an id
    /// twice changes nothing.
    pub fn add_validator(&mut self, validator_id: String, now_ms: u64)
        requires
            old(self).wf(),
        ensures
            final(self).wf(),
            final(self).config == old(self).config,
            old(self).spec_has(validator_id@) ==> final(self).reps() == old(self).reps(),
            !old(self).spec_has(validator_id@) ==> final(self).reps() == old(self).reps().push(
                fresh_record(validator_id, now_ms),
            ),
    {
        if self.find_index(validator_id.as_str()).is_some() {
            return;
        }
        let ghost s = self.reps();
        let ghost idv = validator_id@;
        let rep = ValidatorReputation::new(validator_id, now_ms);
        self.reputations.push(rep);
        proof {
            let t = self.reps();
            assert forall|i: int, j: int| 0 <= i < j < t.len() implies t[i].validator_id@
                != t[j].validator_id@ by {
                if j == s.len() {
                    assert(t[i] == s[i]);
                    assert(s[i].validator_id@ != idv);
                } else {
                    assert(t[i] == s[i]);
                    assert(t[j] == s[j]);
                }
            }
            assert forall|i: int| 0 <= i < t.len() implies (#[trigger] t[i]).wf() by {
                if i < s.len() {
                    assert(t[i] == s[i]);
                }
            }
        }
    }

    /// Updates one validator's reputation for an observed action.
    ///
    /// Fails with `UnknownValidator` for an unregistered id, touching
    /// nothing; a record is never created implicitly. For a registered
    /// id the record's last-seen time is refreshed, and then: a validator
    /// whose ban still runs is refused with `Banned` and changes no
    /// further; otherwise the action's counter, delta, clamping and — for
    /// a penalty that sinks the score under the ban threshold — the
    /// escalating ban apply, exactly as [`after_update`] states, and the
    /// new score is returned.
    pub fn update_reputation(
        &mut self,
        validator_id: &str,
        action: ReputationAction,
        now_ms: u64,
    ) -> (r: Result<u32, ReputationError>)
        requires
            old(self).wf(),
        ensures
            final(self).wf(),
            final(self).config == old(self).config,
            final(self).reps() == old(self).spec_after_update(validator_id@, action, now_ms),
            !old(self).spec_has(validator_id@) ==> r == Err::<u32, ReputationError>(
                ReputationError::UnknownValidator,
            ),
            old(self).spec_has(validator_id@) && still_banned(
                old(self).spec_rep(validator_id@),
                now_ms,
            ) ==> r == Err::<u32, ReputationError>(ReputationError::Banned),
            old(self).spec_has(validator_id@) && !still_banned(
                old(self).spec_rep(validator_id@),
                now_ms,
            ) ==> r == Ok::<u32, ReputationError>(
                after_update(
                    old(self).spec_rep(validator_id@),
                    old(self).config,
                    action,
                    now_ms,
                ).score,
            ),
    {
        let k = match self.find_index(validator_id) {
            Some(k) => k,
            None => {
                return Err(ReputationError::UnknownValidator);
            },
        };
        let ghost old_sys = *self;
        let rep = self.reputations.remove(k);
        let ghost r0 = rep;
        proof {
            assert(r0 == old_sys.spec_rep(validator_id@));
            assert(r0.wf());
        }
        let banned_now = rep.is_banned && match rep.banned_until_ms {
            Some(until) => now_ms < until,
            None => false,
        };
        proof {
            assert(banned_now == still_banned(r0, now_ms));
        }
        let newrep = apply_action(rep, &self.config, action, now_ms);
        let score = newrep.score;
        let ghost newr = newrep;
        self.reputations.insert(k, newrep);
        proof {
            self.lemma_put(old_sys, k as int, newr);
            assert(self.reps() == old_sys.spec_after_update(validator_id@, action, now_ms));
        }
        if banned_now {
            Err(ReputationError::Banned)
        } else {
            Ok(score)
        }
    }

    /// Restores the ledger invariant and the update shape of the record
    /// list after the record at `k` was taken out, rewritten without
    /// changing its id, and put back.
    proof fn lemma_put(self, old_sys: ReputationSystem, k: int, newr: ValidatorReputation)
        requires
            old_sys.wf(),
            0 <= k < old_sys.reps().len(),
            newr.wf(),
            newr.validator_id@ == old_sys.reps()[k].validator_id@,
            self.reps() == old_sys.reps().remove(k).insert(k, newr),
        ensures
            self.wf(),
            self.reps() == old_sys.reps().update(k, newr),
    {
        let s = old_sys.reps();
        let t = self.reps();
        assert(t =~= s.update(k, newr));
        assert forall|i: int, j: int| 0 <= i < j < t.len() implies t[i].validator_id@
            != t[j].validator_id@ by {
            assert(s[i].validator_id@ != s[j].validator_id@);
            if i != k {
                assert(t[i] == s[i]);
            }
            if j != k {
                assert(t[j] == s[j]);
            }
        }
        assert forall|i: int| 0 <= i < t.len() implies (#[trigger] t[i]).wf() by {
            if i != k {
                assert(t[i] == s[i]);
            }
        }
    }
}

/// A counter bumped by one, stopping at the top of `u64`.
fn inc_counter(c: u64) -> (r: u64)
    ensures
        r == inc_sat(c),
{
    if c == u64::MAX {
        c
    } else {
        c + 1
    }
}

/// Ban length for the given post-increment infraction counters, per
/// [`ban_duration_of`].
fn ban_duration(cfg: &ReputationConfig, double_votes: u64, invalid_proposals: u64) -> (r: u64)
    ensures
        r == ban_duration_of(*cfg, double_votes, invalid_proposals),
{
    if cfg.initial_ban_duration_ms == 0 {
        proof {
            assert(cfg.initial_ban_duration_ms * (1 + double_votes) * (1 + invalid_proposals)
                == 0) by (nonlinear_arith)
                requires
                    cfg.initial_ban_duration_ms == 0,
            ;
        }
        return 0;
    }
    let dv1: u128 = double_votes as u128 + 1;
    let ip1: u128 = invalid_proposals as u128 + 1;
    let ghost target: int = cfg.initial_ban_duration_ms * (1 + double_votes) * (1 + invalid_proposals);
    proof {
        assert(cfg.initial_ban_duration_ms * (1 + double_votes) * (1 + invalid_proposals)
            == cfg.initial_ban_duration_ms * ((1 + double_votes) * (1 + invalid_proposals)))
            by (nonlinear_arith);
    }
    let m = dv1.checked_mul(ip1);
    match m {
        Some(m) => {
            let d = (cfg.initial_ban_duration_ms as u128).checked_mul(m);
            match d {
                Some(d) => {
                    if d > u64::MAX as u128 {
                        u64::MAX
                    } else {
                        d as u64
                    }
                },
                None => {
                    proof {
                        assert(target > u128::MAX);
                    }
                    u64::MAX
                },
            }
        },
        None => {
            proof {
                assert(dv1 * ip1 > u128::MAX);
                assert(cfg.initial_ban_duration_ms >= 1);
                assert(cfg.initial_ban_duration_ms * (dv1 * ip1) >= dv1 * ip1) by (nonlinear_arith)
                    requires
                        cfg.initial_ban_duration_ms >= 1,
                        dv1 * ip1 >= 0,
                ;
                assert(target > u64::MAX);
            }
            u64::MAX
        },
    }
}


/// Applies one action to a single owned record, exactly as
/// [`after_update`] states.
fn apply_action(
    rep: ValidatorReputation,
    cfg: &ReputationConfig,
    action: ReputationAction,
    now_ms: u64,
) -> (r: ValidatorReputation)
    requires
        rep.wf(),
    ensures
        r == after_update(rep, *cfg, action, now_ms),
        r.wf(),
{
    let ghost r0 = rep;
    let mut rep = rep;
    rep.update_last_seen(now_ms);
    let ghost r1 = rep;
    if rep.is_banned {
        let _expired = rep.check_ban_status(now_ms);
        if rep.is_banned {
            proof {
                assert(still_banned(r1, now_ms));
                assert(rep == r1);
            }
            return rep;
        }
    }
    let ghost r2 = rep;
    proof {
        assert(!still_banned(r1, now_ms));
        assert(r2 == after_expiry_check(r1, now_ms));
    }
    match action {
        ReputationAction::ValidBlockProposed => {
            rep.successful_proposals = inc_counter(rep.successful_proposals);
        },
        ReputationAction::InvalidBlockProposed => {
            rep.invalid_proposals = inc_counter(rep.invalid_proposals);
        },
        ReputationAction::CorrectVote => {
            rep.correct_votes = inc_counter(rep.correct_votes);
        },
        ReputationAction::IncorrectVote => {
            rep.incorrect_votes = inc_counter(rep.incorrect_votes);
        },
        ReputationAction::Timeout => {
            rep.timeouts = inc_counter(rep.timeouts);
        },
        ReputationAction::DoubleVote => {
            rep.double_votes = inc_counter(rep.double_votes);
        },
        _ => {},
    }
    let ghost r3 = rep;
    proof {
        assert(r3 == bump_counters(r2, action));
    }
    let positive = match action {
        ReputationAction::ValidBlockProposed => true,
        ReputationAction::CorrectVote => true,
        ReputationAction::BackOnline => true,
        _ => false,
    };
    let delta = match action {
        ReputationAction::ValidBlockProposed => cfg.valid_block_points,
        ReputationAction::InvalidBlockProposed => cfg.invalid_block_penalty,
        ReputationAction::CorrectVote => cfg.correct_vote_points,
        ReputationAction::IncorrectVote => cfg.incorrect_vote_penalty,
        ReputationAction::Timeout => cfg.timeout_penalty,
        ReputationAction::DoubleVote => cfg.double_vote_penalty,
        ReputationAction::Offline => cfg.offline_penalty,
        ReputationAction::BackOnline => cfg.back_online_points,
        ReputationAction::InvalidMessage => cfg.incorrect_vote_penalty,
        ReputationAction::UnauthorizedProposal => cfg.invalid_block_penalty,
    };
    if positive {
        let s = rep.score.saturating_add(delta);
        rep.score = if s > MAX_SCORE {
            MAX_SCORE
        } else {
            s
        };
    } else {
        rep.score = if rep.score >= delta {
            rep.score - delta
        } else {
            0
        };
    }
    let ghost r4 = rep;
    proof {
        assert(positive == action_is_positive(action));
        assert(delta == action_delta(*cfg, action));
        assert(r4.score == clamped_score(r3.score, delta, positive));
    }
    if !positive && delta > 0 && rep.score < cfg.ban_threshold {
        let dur = ban_duration(cfg, rep.double_votes, rep.invalid_proposals);
        rep.ban(dur, now_ms);
    }
    proof {
        assert(rep == after_update(r0, *cfg, action, now_ms));
        assert(rep.wf());
    }
    rep
}

/// Sum of the scores of all records, in hundredths of a point.
pub open spec fn sum_scores(s: Seq<ValidatorReputation>) -> int
    decreases s.len(),
{
    if s.len() == 0 {
        0
    } else {
        sum_scores(s.drop_last()) + s.last().score
    }
}

proof fn lemma_sum_take_succ(s: Seq<ValidatorReputation>, k: int)
    requires
        0 <= k < s.len(),
    ensures
        sum_scores(s.take(k + 1)) == sum_scores(s.take(k)) + s[k].score,
{
    assert(s.take(k + 1).drop_last() =~= s.take(k));
    assert(s.take(k + 1).last() == s[k]);
}

impl ReputationSystem {
    /// Mean score, or the neutral [`NEUTRAL_SCORE`] for an empty ledger.
    pub open spec fn spec_average(self) -> u32 {
        if self.reps().len() == 0 {
            NEUTRAL_SCORE
        } else {
            (sum_scores(self.reps()) / self.reps().len() as int) as u32
        }
    }

    /// The records scoring under the suspicious threshold, in order.
    pub open spec fn spec_suspicious(self) -> Seq<ValidatorReputation> {
        suspicious_of(self.reps(), self.config.suspicious_threshold)
    }

    /// The records not currently banned, in order.
    pub open spec fn spec_active(self) -> Seq<ValidatorReputation> {
        active_of(self.reps())
    }

    /// Bans a validator outright for `duration_ms` from `now_ms` on,
    /// bypassing the scoring path; fails only for an unknown id.
    pub fn ban_validator(
        &mut self,
        validator_id: &str,
        duration_ms: u64,
        now_ms: u64,
    ) -> (r: Result<(), ReputationError>)
        requires
            old(self).wf(),
        ensures
            final(self).wf(),
            final(self).config == old(self).config,
            !old(self).spec_has(validator_id@) ==> r == Err::<(), ReputationError>(
                ReputationError::UnknownValidator,
            ) && final(self).reps() == old(self).reps(),
            old(self).spec_has(validator_id@) ==> r == Ok::<(), ReputationError>(()) && final(self).reps() == old(self).reps().update(
                old(self).spec_idx(validator_id@),
                after_ban(old(self).spec_rep(validator_id@), duration_ms, now_ms),
            ),
    {
        let k = match self.find_index(validator_id) {
            Some(k) => k,
            None => {
                return Err(ReputationError::UnknownValidator);
            },
        };
        let ghost old_sys = *self;
        let mut rep = self.reputations.remove(k);
        proof {
            assert(rep.wf());
        }
        rep.ban(duration_ms, now_ms);
        let ghost newr = rep;
        self.reputations.insert(k, rep);
        proof {
            self.lemma_put(old_sys, k as int, newr);
        }
        Ok(())
    }

    /// Overrides a validator's score; the value is clamped to the scale.
    /// The last-seen time and the counters are untouched.
    pub fn set_reputation(&mut self, validator_id: &str, score: u32) -> (r: Result<
        (),
        ReputationError,
    >)
        requires
            old(self).wf(),
        ensures
            final(self).wf(),
            final(self).config == old(self).config,
            !old(self).spec_has(validator_id@) ==> r == Err::<(), ReputationError>(
                ReputationError::UnknownValidator,
            ) && final(self).reps() == old(self).reps(),
            old(self).spec_has(validator_id@) ==> r == Ok::<(), ReputationError>(()) && final(self).reps() == old(self).reps().update(
                old(self).spec_idx(validator_id@),
                ValidatorReputation {
                    score: if score > MAX_SCORE {
                        MAX_SCORE
                    } else {
                        score
                    },
                    ..old(self).spec_rep(validator_id@)
                },
            ),
    {
        let k = match self.find_index(validator_id) {
            Some(k) => k,
            None => {
                return Err(ReputationError::UnknownValidator);
            },
        };
        let ghost old_sys = *self;
        let mut rep = self.reputations.remove(k);
        proof {
            assert(rep.wf());
        }
        rep.score = if score > MAX_SCORE {
            MAX_SCORE
        } else {
            score
        };
        let ghost newr = rep;
        self.reputations.insert(k, rep);
        proof {
            self.lemma_put(old_sys, k as int, newr);
        }
        Ok(())
    }

    /// The record for an id; `None` exactly when the id is unknown.
    pub fn get_reputation(&self, validator_id: &str) -> (r: Option<&ValidatorReputation>)
        requires
            self.wf(),
        ensures
            match r {
                Some(rep) => self.spec_has(validator_id@) && *rep == self.spec_rep(validator_id@)
                    && rep.validator_id@ == validator_id@,
                None => !self.spec_has(validator_id@),
            },
    {
        match self.find_index(validator_id) {
            Some(k) => Some(&self.reputations[k]),
            None => None,
        }
    }

    /// Whether this validator is currently marked banned; an unknown id
    /// counts as not banned.
    pub fn is_banned(&self, validator_id: &str) -> (r: bool)
        requires
            self.wf(),
        ensures
            r == (self.spec_has(validator_id@) && self.spec_rep(validator_id@).is_banned),
    {
        match self.find_index(validator_id) {
            Some(k) => self.reputations[k].is_banned,
            None => false,
        }
    }

    /// Mean score over all validators, in hundredths of a point; the
    /// neutral score for an empty ledger.
    pub fn average_reputation(&self) -> (r: u32)
        requires
            self.wf(),
        ensures
            r == self.spec_average(),
    {
        let n = self.reputations.len();
        if n == 0 {
            return NEUTRAL_SCORE;
        }
        let mut sum: u128 = 0;
        let mut k: usize = 0;
        while k < n
            invariant
                0 <= k <= n,
                n == self.reps().len(),
                self.wf(),
                sum == sum_scores(self.reps().take(k as int)),
                sum <= k * (MAX_SCORE as int),
            decreases n - k,
        {
            proof {
                lemma_sum_take_succ(self.reps(), k as int);
                assert(self.reps()[k as int].wf());
            }
            sum = sum + self.reputations[k].score as u128;
            k = k + 1;
        }
        proof {
            assert(self.reps().take(n as int) =~= self.reps());
        }
        let avg = sum / (n as u128);
        proof {
            assert(avg <= MAX_SCORE) by (nonlinear_arith)
                requires
                    sum <= n * (MAX_SCORE as int),
                    n >= 1,
                    avg == sum / (n as u128),
            ;
            assert(avg == sum_scores(self.reps()) / (n as int)) by {
                assert(sum == sum_scores(self.reps()));
            }
        }
        avg as u32
    }
}

/// The records of `s` scoring under `threshold`, in order.
pub open spec fn suspicious_of(s: Seq<ValidatorReputation>, threshold: u32) -> Seq<
    ValidatorReputation,
> {
    s.filter(|r: ValidatorReputation| r.score < threshold)
}

/// The records of `s` not currently banned, in order.
pub open spec fn active_of(s: Seq<ValidatorReputation>) -> Seq<ValidatorReputation> {
    s.filter(|r: ValidatorReputation| !r.is_banned)
}

/// The values behind a sequence of borrowed records.
pub open spec fn deref_reps(s: Seq<&ValidatorReputation>) -> Seq<ValidatorReputation> {
    s.map_values(|p: &ValidatorReputation| *p)
}


/// The records, swept for offline validators: every non-banned record
/// whose last-seen time lies further back than the threshold has the
/// `Offline` action applied; every other record is untouched.
pub open spec fn offline_swept(
    s: Seq<ValidatorReputation>,
    cfg: ReputationConfig,
    threshold_ms: u64,
    now_ms: u64,
) -> Seq<ValidatorReputation> {
    Seq::new(
        s.len(),
        |i: int|
            if spec_is_offline(s[i], threshold_ms, now_ms) && !s[i].is_banned {
                after_update(s[i], cfg, ReputationAction::Offline, now_ms)
            } else {
                s[i]
            },
    )
}

impl ReputationSystem {
    /// The validators scoring under the suspicious threshold, in
    /// registration order.
    pub fn get_suspicious_validators(&self) -> (r: Vec<&ValidatorReputation>)
        ensures
            deref_reps(r@) == self.spec_suspicious(),
    {
        let threshold = self.config.suspicious_threshold;
        let n = self.reputations.len();
        let mut out: Vec<&ValidatorReputation> = Vec::new();
        let mut k: usize = 0;
        while k < n
            invariant
                0 <= k <= n,
                n == self.reps().len(),
                threshold == self.config.suspicious_threshold,
                deref_reps(out@) == suspicious_of(self.reps().take(k as int), threshold),
            decreases n - k,
        {
            proof {
                broadcast use Seq::lemma_filter_push;

                assert(self.reps().take(k as int + 1) =~= self.reps().take(k as int).push(
                    self.reps()[k as int],
                ));
            }
            if self.reputations[k].score < threshold {
                let ghost before = out@;
                out.push(&self.reputations[k]);
                proof {
                    assert(deref_reps(out@) =~= deref_reps(before).push(self.reps()[k as int]));
                }
            }
            k = k + 1;
        }
        proof {
            assert(self.reps().take(n as int) =~= self.reps());
        }
        out
    }

    /// How many validators score under the suspicious threshold.
    pub fn count_suspicious_validators(&self) -> (r: usize)
        ensures
            r == self.spec_suspicious().len(),
    {
        let suspicious = self.get_suspicious_validators();
        suspicious.len()
    }

    /// The validators not currently banned, in registration order.
    pub fn get_active_validators(&self) -> (r: Vec<&ValidatorReputation>)
        ensures
            deref_reps(r@) == self.spec_active(),
    {
        let n = self.reputations.len();
        let mut out: Vec<&ValidatorReputation> = Vec::new();
        let mut k: usize = 0;
        while k < n
            invariant
                0 <= k <= n,
                n == self.reps().len(),
                deref_reps(out@) == active_of(self.reps().take(k as int)),
            decreases n - k,
        {
            proof {
                broadcast use Seq::lemma_filter_push;

                assert(self.reps().take(k as int + 1) =~= self.reps().take(k as int).push(
                    self.reps()[k as int],
                ));
            }
            if !self.reputations[k].is_banned {
                let ghost before = out@;
                out.push(&self.reputations[k]);
                proof {
                    assert(deref_reps(out@) =~= deref_reps(before).push(self.reps()[k as int]));
                }
            }
            k = k + 1;
        }
        proof {
            assert(self.reps().take(n as int) =~= self.reps());
        }
        out
    }

    /// Applies the `Offline` action to every registered, non-banned
    /// validator whose last activity lies further back than the
    /// threshold. The set of affected ids is decided on the state as it
    /// was when the sweep began.
    pub fn update_offline_status(&mut self, offline_threshold_ms: u64, now_ms: u64)
        requires
            old(self).wf(),
        ensures
            final(self).wf(),
            final(self).config == old(self).config,
            final(self).reps() == offline_swept(
                old(self).reps(),
                old(self).config,
                offline_threshold_ms,
                now_ms,
            ),
    {
        let ghost orig = *self;
        let n = self.reputations.len();
        let mut k: usize = 0;
        while k < n
            invariant
                0 <= k <= n,
                n == self.reps().len(),
                n == orig.reps().len(),
                self.wf(),
                orig.wf(),
                self.config == orig.config,
                forall|j: int| k <= j < n ==> self.reps()[j] == orig.reps()[j],
                forall|j: int|
                    0 <= j < k ==> self.reps()[j] == offline_swept(
                        orig.reps(),
                        orig.config,
                        offline_threshold_ms,
                        now_ms,
                    )[j],
            decreases n - k,
        {
            let offline = self.reputations[k].is_offline(offline_threshold_ms, now_ms);
            let banned = self.reputations[k].is_banned;
            if offline && !banned {
                let ghost cur = *self;
                let rep = self.reputations.remove(k);
                proof {
                    assert(rep == orig.reps()[k as int]);
                    assert(rep.wf());
                }
                let newrep = apply_action(rep, &self.config, ReputationAction::Offline, now_ms);
                let ghost newr = newrep;
                self.reputations.insert(k, newrep);
                proof {
                    self.lemma_put(cur, k as int, newr);
                }
            }
            k = k + 1;
        }
        proof {
            assert(self.reps() =~= offline_swept(
                orig.reps(),
                orig.config,
                offline_threshold_ms,
                now_ms,
            ));
        }
    }
}

/// Law: in a well-formed ledger every score lies on the bounded scale,
/// from zero to [`MAX_SCORE`] (`0.0` to `100.0` points).
pub proof fn lemma_scores_bounded(sys: ReputationSystem)
    requires
        sys.wf(),
    ensures
        forall|i: int|
            0 <= i < sys.reps().len() ==> (#[trigger] sys.reps()[i]).score <= MAX_SCORE,
{
}

/// Law: one reputation update keeps the record well-formed.
pub proof fn lemma_update_preserves_wf(
    r: ValidatorReputation,
    cfg: ReputationConfig,
    action: ReputationAction,
    now_ms: u64,
)
    requires
        r.wf(),
    ensures
        after_update(r, cfg, action, now_ms).wf(),
{
}

/// Law: a double vote by a validator who is not banned strictly lowers
/// a score standing above the ban floor, and bumps the double-vote
/// counter — and a second double vote under the same conditions does so
/// again.
pub proof fn lemma_double_vote_strictly_decreases(
    r: ValidatorReputation,
    cfg: ReputationConfig,
    now1: u64,
    now2: u64,
)
    requires
        r.wf(),
        cfg.double_vote_penalty > 0,
        !still_banned(r, now1),
        r.score > BAN_FLOOR_SCORE,
        !still_banned(after_update(r, cfg, ReputationAction::DoubleVote, now1), now2),
        after_update(r, cfg, ReputationAction::DoubleVote, now1).score > BAN_FLOOR_SCORE,
    ensures
        after_update(r, cfg, ReputationAction::DoubleVote, now1).score < r.score,
        ({
            let r1 = after_update(r, cfg, ReputationAction::DoubleVote, now1);
            after_update(r1, cfg, ReputationAction::DoubleVote, now2).score < r1.score
        }),
        after_update(r, cfg, ReputationAction::DoubleVote, now1).double_votes == inc_sat(
            r.double_votes,
        ),
        ({
            let r1 = after_update(r, cfg, ReputationAction::DoubleVote, now1);
            after_update(r1, cfg, ReputationAction::DoubleVote, now2).double_votes == inc_sat(
                inc_sat(r.double_votes),
            )
        }),
{
}

/// Law: when one update bans a validator, the ban deadline is
/// `now + initial_ban_duration * (1 + double_votes) * (1 + invalid_proposals)`,
/// with the counters read after their increment, exactly whenever that
/// product does not overflow, and cut at `u64::MAX` where it does.
pub proof fn lemma_ban_escalation(
    r: ValidatorReputation,
    cfg: ReputationConfig,
    action: ReputationAction,
    now_ms: u64,
)
    requires
        r.wf(),
        !still_banned(r, now_ms),
        after_update(r, cfg, action, now_ms).is_banned,
    ensures
        ({
            let u = after_update(r, cfg, action, now_ms);
            u.banned_until_ms == Some(
                sat_u64(now_ms + ban_duration_of(cfg, u.double_votes, u.invalid_proposals)),
            )
        }),
        ({
            let u = after_update(r, cfg, action, now_ms);
            now_ms + cfg.initial_ban_duration_ms * (1 + u.double_votes) * (1
                + u.invalid_proposals) <= u64::MAX ==> u.banned_until_ms == Some(
                (now_ms + cfg.initial_ban_duration_ms * (1 + u.double_votes) * (1
                    + u.invalid_proposals)) as u64,
            )
        }),
{
}

} // verus!
