//! Vote collection and tallying toward finality.

use vstd::prelude::*;
use vstd::string::{StrSliceExecFns, StringExecFns};
use crate::consensus::ConsensusError;
use crate::clock::now_millis;
use crate::reputation::{ReputationAction, ReputationSystem};
use crate::strutil::str_eq;
use crate::validator_set::ValidatorSet;

verus! {

/// One validator's vote on one block proposal.
#[derive(Debug, Clone)]
pub struct ProposalVote {
    /// Hash of the block voted on.
    pub block_hash: String,
    /// Height of the block voted on.
    pub block_height: u64,
    /// Id of the voting validator.
    pub validator_id: String,
    /// Whether the vote is in favor (`true`) or against (`false`).
    pub is_in_favor: bool,
    /// Signature over the vote, held as opaque bytes.
    pub signature: Vec<u8>,
    /// Wall-clock milliseconds at which the vote was cast.
    pub timestamp: u64,
}

impl ProposalVote {
    /// A new vote, stamped with the current clock.
    pub fn new(
        block_hash: String,
        block_height: u64,
        validator_id: String,
        is_in_favor: bool,
        signature: Vec<u8>,
    ) -> (v: Self)
        ensures
            v.block_hash == block_hash,
            v.block_height == block_height,
            v.validator_id == validator_id,
            v.is_in_favor == is_in_favor,
            v.signature == signature,
    {
        let timestamp = now_millis();
        ProposalVote { block_hash, block_height, validator_id, is_in_favor, signature, timestamp }
    }
}

/// Derived summary of the votes recorded for one block hash.
///
/// `approval_percentage` is held in hundredths of a percent: three of
/// four votes in favor read as `7500`.
#[derive(Debug, Clone)]
pub struct VotingResult {
    /// Hash of the block the votes are for.
    pub block_hash: String,
    /// Height taken from the first recorded vote for this hash.
    pub block_height: u64,
    /// Number of votes recorded.
    pub total_votes: usize,
    /// Number of votes in favor.
    pub votes_in_favor: usize,
    /// Number of votes against.
    pub votes_against: usize,
    /// Share of votes in favor, in hundredths of a percent.
    pub approval_percentage: u32,
    /// Whether the vote count reaches two thirds of the active
    /// validators, integer-floored.
    pub reached_quorum: bool,
    /// Whether the tally reached quorum and the approval share meets
    /// the configured threshold.
    pub is_approved: bool,
}

/// Whether two votes come from the same validator for the same block.
pub open spec fn same_pair(a: ProposalVote, b: ProposalVote) -> bool {
    a.validator_id@ == b.validator_id@ && a.block_hash@ == b.block_hash@
}

/// No two votes of `s` share a (validator, block hash) pair.
pub open spec fn wf_votes(s: Seq<ProposalVote>) -> bool {
    forall|i: int, j: int|
        #![trigger s[i], s[j]]
        0 <= i < j < s.len() ==> !same_pair(s[i], s[j])
}

/// Whether `s` holds a vote by `id` for `h`.
pub open spec fn has_vote_in(s: Seq<ProposalVote>, id: Seq<char>, h: Seq<char>) -> bool {
    exists|i: int|
        0 <= i < s.len() && (#[trigger] s[i]).validator_id@ == id && s[i].block_hash@ == h
}

/// The votes of `s` for block hash `h`, in arrival order.
pub open spec fn votes_for(s: Seq<ProposalVote>, h: Seq<char>) -> Seq<ProposalVote> {
    s.filter(|v: ProposalVote| v.block_hash@ == h)
}

/// How many votes of `s` are in favor.
pub open spec fn count_in_favor(s: Seq<ProposalVote>) -> nat {
    s.filter(|v: ProposalVote| v.is_in_favor).len()
}

/// Collects votes per block hash, refuses double votes, and computes
/// quorum and approval.
///
/// The collection itself is not synchronized; a caller sharing one
/// coordinator across threads wraps it in its own lock.
#[derive(Debug)]
pub struct VotingCoordinator {
    /// Every recorded vote, in arrival order; at most one per
    /// (validator, block hash) pair whenever [`VotingCoordinator::wf`]
    /// holds, which every method preserves.
    pub votes: Vec<ProposalVote>,
    /// Share of votes in favor required for approval, in hundredths of
    /// a percent.
    pub approval_threshold: u32,
}

impl VotingCoordinator {
    /// The recorded votes, in arrival order.
    pub open spec fn spec_votes(self) -> Seq<ProposalVote> {
        self.votes@
    }

    /// Coordinator invariant: no validator has two recorded votes for
    /// one block hash.
    pub open spec fn wf(self) -> bool {
        wf_votes(self.spec_votes())
    }

    /// Whether a vote by `id` for `h` is recorded.
    pub open spec fn spec_has_vote(self, id: Seq<char>, h: Seq<char>) -> bool {
        has_vote_in(self.spec_votes(), id, h)
    }

    /// Whether the recorded votes for `h` reach quorum and the approval
    /// threshold.
    pub open spec fn spec_finality(self, h: Seq<char>, active: nat) -> bool {
        let vs = votes_for(self.spec_votes(), h);
        &&& vs.len() > 0
        &&& vs.len() >= active * 2 / 3
        &&& (count_in_favor(vs) as int) * 10000 / (vs.len() as int) >= self.approval_threshold
    }

    /// A coordinator with no recorded votes and the given approval
    /// threshold, in hundredths of a percent.
    pub fn new(approval_threshold: u32) -> (c: Self)
        ensures
            c.wf(),
            c.spec_votes() == Seq::<ProposalVote>::empty(),
            c.approval_threshold == approval_threshold,
    {
        VotingCoordinator { votes: Vec::new(), approval_threshold }
    }

    /// Records one vote.
    ///
    /// A vote from an id the directory does not know is refused with
    /// `InvalidProposer` and changes nothing. A second vote by the same
    /// validator for the same block hash is a double vote: the vote is
    /// not recorded, the offender is penalized in the ledger
    /// (best-effort, errors swallowed), and the call fails with
    /// `ValidationFailed`. Any other vote is appended and `Ok(true)`
    /// returned, with the ledger untouched.
    pub fn process_vote(
        &mut self,
        vote: ProposalVote,
        validators: &ValidatorSet,
        reputation: &mut ReputationSystem,
        now_ms: u64,
    ) -> (r: Result<bool, ConsensusError>)
        requires
            old(self).wf(),
            old(reputation).wf(),
        ensures
            final(self).wf(),
            final(self).approval_threshold == old(self).approval_threshold,
            final(reputation).wf(),
            final(reputation).config == old(reputation).config,
            !validators.spec_contains(vote.validator_id@) ==> (r matches Err(
                ConsensusError::InvalidProposer(_),
            )) && final(self).spec_votes() == old(self).spec_votes() && final(reputation).reps()
                == old(reputation).reps(),
            validators.spec_contains(vote.validator_id@) && old(self).spec_has_vote(
                vote.validator_id@,
                vote.block_hash@,
            ) ==> (r matches Err(ConsensusError::ValidationFailed(_))) && final(self).spec_votes()
                == old(self).spec_votes() && final(reputation).reps() == old(
                reputation,
            ).spec_after_update(vote.validator_id@, ReputationAction::DoubleVote, now_ms),
            validators.spec_contains(vote.validator_id@) && !old(self).spec_has_vote(
                vote.validator_id@,
                vote.block_hash@,
            ) ==> r == Ok::<bool, ConsensusError>(true) && final(self).spec_votes() == old(
                self,
            ).spec_votes().push(vote) && final(reputation).reps() == old(reputation).reps(),
    {
        if !validators.contains(vote.validator_id.as_str()) {
            return Err(
                ConsensusError::InvalidProposer(String::from_str("unknown validator")),
            );
        }
        let n = self.votes.len();
        let mut k: usize = 0;
        while k < n
            invariant
                0 <= k <= n,
                n == self.spec_votes().len(),
                self.wf(),
                *reputation == *old(reputation),
                old(reputation).wf(),
                validators.spec_contains(vote.validator_id@),
                forall|j: int|
                    0 <= j < k ==> !same_pair(#[trigger] self.spec_votes()[j], vote),
            decreases n - k,
        {
            let dup = self.votes[k].validator_id == vote.validator_id && self.votes[k].block_hash
                == vote.block_hash;
            if dup {
                proof {
                    assert(self.spec_votes()[k as int].validator_id@ == vote.validator_id@
                        && self.spec_votes()[k as int].block_hash@ == vote.block_hash@);
                    assert(self.spec_has_vote(vote.validator_id@, vote.block_hash@));
                }
                let _ = reputation.update_reputation(
                    vote.validator_id.as_str(),
                    ReputationAction::DoubleVote,
                    now_ms,
                );
                return Err(
                    ConsensusError::ValidationFailed(String::from_str("double vote")),
                );
            }
            k = k + 1;
        }
        let ghost s = self.spec_votes();
        self.votes.push(vote);
        proof {
            let t = self.spec_votes();
            assert forall|i: int, j: int| 0 <= i < j < t.len() implies !same_pair(
                t[i],
                t[j],
            ) by {
                if j == s.len() {
                    assert(t[i] == s[i]);
                } else {
                    assert(t[i] == s[i]);
                    assert(t[j] == s[j]);
                }
            }
        }
        Ok(true)
    }

    /// Tallies the recorded votes for one block hash.
    ///
    /// `None` exactly when no vote for the hash is recorded. Otherwise
    /// the counts, the approval share in hundredths of a percent, the
    /// quorum test against two thirds of the active validators
    /// (integer-floored), and the approval verdict, with the height
    /// taken from the first recorded vote.
    pub fn tally_votes(&self, block_hash: &str, validators: &ValidatorSet) -> (r: Option<
        VotingResult,
    >)
        ensures
            (r is None) <==> votes_for(self.spec_votes(), block_hash@).len() == 0,
            r matches Some(res) ==> {
                let vs = votes_for(self.spec_votes(), block_hash@);
                &&& res.block_hash@ == block_hash@
                &&& res.block_height == vs[0].block_height
                &&& res.total_votes == vs.len()
                &&& res.votes_in_favor == count_in_favor(vs)
                &&& res.votes_against == vs.len() - count_in_favor(vs)
                &&& res.approval_percentage == (count_in_favor(vs) as int) * 10000 / (vs.len() as int)
                &&& res.reached_quorum == (vs.len() >= validators.spec_active_count() * 2 / 3)
                &&& res.is_approved == (res.reached_quorum && res.approval_percentage
                    >= self.approval_threshold)
            },
    {
        let n = self.votes.len();
        let mut total: usize = 0;
        let mut favor: usize = 0;
        let mut height: u64 = 0;
        let mut k: usize = 0;
        while k < n
            invariant
                0 <= k <= n,
                n == self.spec_votes().len(),
                total == votes_for(self.spec_votes().take(k as int), block_hash@).len(),
                favor == count_in_favor(votes_for(self.spec_votes().take(k as int), block_hash@)),
                favor <= total <= k,
                total > 0 ==> height == votes_for(
                    self.spec_votes().take(k as int),
                    block_hash@,
                )[0].block_height,
            decreases n - k,
        {
            proof {
                broadcast use Seq::lemma_filter_push;

                assert(self.spec_votes().take(k as int + 1) =~= self.spec_votes().take(
                    k as int,
                ).push(self.spec_votes()[k as int]));
            }
            let ghost pre = votes_for(self.spec_votes().take(k as int), block_hash@);
            if str_eq(self.votes[k].block_hash.as_str(), block_hash) {
                proof {
                    assert(votes_for(self.spec_votes().take(k as int + 1), block_hash@)
                        == pre.push(self.spec_votes()[k as int]));
                    if total == 0 {
                        assert(pre.push(self.spec_votes()[k as int])[0] == self.spec_votes()[k
                            as int]);
                    }
                }
                if total == 0 {
                    height = self.votes[k].block_height;
                }
                total = total + 1;
                if self.votes[k].is_in_favor {
                    favor = favor + 1;
                }
            }
            k = k + 1;
        }
        proof {
            assert(self.spec_votes().take(n as int) =~= self.spec_votes());
        }
        if total == 0 {
            return None;
        }
        let active = validators.count_active();
        let reached_quorum = (total as u128) >= (active as u128) * 2 / 3;
        let pct128 = (favor as u128) * 10000 / (total as u128);
        proof {
            assert(pct128 <= 10000) by (nonlinear_arith)
                requires
                    favor <= total,
                    total >= 1,
                    pct128 == (favor as int) * 10000 / (total as int),
            ;
        }
        let pct = pct128 as u32;
        let is_approved = reached_quorum && pct >= self.approval_threshold;
        Some(
            VotingResult {
                block_hash: String::from_str(block_hash),
                block_height: height,
                total_votes: total,
                votes_in_favor: favor,
                votes_against: total - favor,
                approval_percentage: pct,
                reached_quorum,
                is_approved,
            },
        )
    }

    /// Whether the votes for this hash have made the block final.
    pub fn has_reached_finality(&self, block_hash: &str, validators: &ValidatorSet) -> (r: bool)
        ensures
            r == self.spec_finality(block_hash@, validators.spec_active_count()),
    {
        match self.tally_votes(block_hash, validators) {
            Some(result) => result.is_approved,
            None => false,
        }
    }

    /// Forgets every vote for this block hash; callers purge a hash
    /// once the block is finalized or abandoned, to bound memory.
    pub fn clear_votes(&mut self, block_hash: &str)
        requires
            old(self).wf(),
        ensures
            final(self).wf(),
            final(self).approval_threshold == old(self).approval_threshold,
            final(self).spec_votes() == old(self).spec_votes().filter(
                |v: ProposalVote| v.block_hash@ != block_hash@,
            ),
    {
        let ghost orig = self.spec_votes();
        let mut kept: Vec<ProposalVote> = Vec::new();
        let ghost mut k: int = 0;
        while self.votes.len() > 0
            invariant
                0 <= k <= orig.len(),
                wf_votes(orig),
                self.votes@ == orig.skip(k),
                self.approval_threshold == old(self).approval_threshold,
                kept@ == orig.take(k).filter(|v: ProposalVote| v.block_hash@ != block_hash@),
                forall|i: int|
                    0 <= i < kept@.len() ==> exists|j: int|
                        0 <= j < k && #[trigger] kept@[i] == orig[j],
                wf_votes(kept@),
            decreases self.votes@.len(),
        {
            proof {
                broadcast use Seq::lemma_filter_push;

                assert(orig.take(k + 1) =~= orig.take(k).push(orig[k]));
                assert(orig.skip(k)[0] == orig[k]);
            }
            let v = self.votes.remove(0);
            proof {
                assert(v == orig[k]);
                assert(self.votes@ =~= orig.skip(k + 1));
            }
            let keep = !str_eq(v.block_hash.as_str(), block_hash);
            if keep {
                let ghost before = kept@;
                kept.push(v);
                proof {
                    assert(kept@ == before.push(orig[k]));
                    assert forall|i: int, j: int| 0 <= i < j < kept@.len() implies !same_pair(
                        kept@[i],
                        kept@[j],
                    ) by {
                        if j == before.len() {
                            assert(kept@[i] == before[i]);
                            let jj = choose|jj: int| 0 <= jj < k && before[i] == orig[jj];
                            assert(!same_pair(orig[jj], orig[k]));
                        } else {
                            assert(kept@[i] == before[i]);
                            assert(kept@[j] == before[j]);
                        }
                    }
                    assert forall|i: int| 0 <= i < kept@.len() implies exists|j: int|
                        0 <= j < k + 1 && #[trigger] kept@[i] == orig[j] by {
                        if i < before.len() {
                            assert(kept@[i] == before[i]);
                            let jj = choose|jj: int| 0 <= jj < k && before[i] == orig[jj];
                            assert(kept@[i] == orig[jj]);
                        } else {
                            assert(kept@[i] == orig[k]);
                        }
                    }
                }
            }
            proof {
                k = k + 1;
            }
        }
        proof {
            assert(orig.take(k) =~= orig);
        }
        self.votes = kept;
    }
}

/// Law: after a first vote is recorded, a second vote by the same
/// validator for the same block hash is recognized as a double vote,
/// and the count of recorded votes for that hash grows only by the one
/// accepted vote.
pub proof fn lemma_second_vote_detected(
    s: Seq<ProposalVote>,
    vote: ProposalVote,
    vote2: ProposalVote,
)
    requires
        !has_vote_in(s, vote.validator_id@, vote.block_hash@),
        vote2.validator_id@ == vote.validator_id@,
        vote2.block_hash@ == vote.block_hash@,
    ensures
        has_vote_in(s.push(vote), vote2.validator_id@, vote2.block_hash@),
        votes_for(s.push(vote), vote.block_hash@).len() == votes_for(s, vote.block_hash@).len()
            + 1,
{
    broadcast use Seq::lemma_filter_push;

    assert(s.push(vote)[s.len() as int] == vote);
}

} // verus!
