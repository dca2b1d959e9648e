//! Block proposals and their stateless verification.

use vstd::prelude::*;
use vstd::string::StringExecFns;
use crate::clock::now_millis;
use crate::consensus::{ConsensusError, VerificationResult};
use crate::reputation::{ReputationAction, ReputationSystem};
use crate::validator_set::ValidatorSet;

verus! {

/// Widest accepted distance between a proposal's timestamp and the
/// local clock, in milliseconds (five minutes).
pub const MAX_TIMESTAMP_SKEW_MS: u64 = 300000;

/// A candidate block, as handed to the consensus layer.
#[derive(Debug, Clone)]
pub struct BlockProposal {
    /// Hash of the proposed block.
    pub block_hash: String,
    /// Height of the proposed block.
    pub block_height: u64,
    /// Hash of the parent block.
    pub parent_hash: String,
    /// Wall-clock milliseconds at creation.
    pub timestamp: u64,
    /// Id of the proposing validator.
    pub proposer_id: String,
    /// Signature over the proposal, held as opaque bytes.
    pub signature: Vec<u8>,
    /// Hashes of the transactions the block carries.
    pub transaction_hashes: Vec<String>,
    /// Opaque extension data of the consensus protocol.
    pub consensus_data: Vec<u8>,
    /// Local clock reading at receipt; used only for expiry, never
    /// compared across nodes.
    pub received_at: u64,
}

/// Milliseconds passed since `since`, by a clock now reading `now_ms`;
/// zero if the clock went backwards.
pub open spec fn elapsed_ms(since: u64, now_ms: u64) -> u64 {
    if now_ms >= since {
        (now_ms - since) as u64
    } else {
        0
    }
}

impl BlockProposal {
    /// A new proposal, stamped with the current clock both as its
    /// creation timestamp and its local receipt time.
    pub fn new(
        block_hash: String,
        block_height: u64,
        parent_hash: String,
        proposer_id: String,
        transaction_hashes: Vec<String>,
        signature: Vec<u8>,
        consensus_data: Vec<u8>,
    ) -> (p: Self)
        ensures
            p.block_hash == block_hash,
            p.block_height == block_height,
            p.parent_hash == parent_hash,
            p.proposer_id == proposer_id,
            p.transaction_hashes == transaction_hashes,
            p.signature == signature,
            p.consensus_data == consensus_data,
    {
        let timestamp = now_millis();
        let received_at = now_millis();
        BlockProposal {
            block_hash,
            block_height,
            parent_hash,
            timestamp,
            proposer_id,
            signature,
            transaction_hashes,
            consensus_data,
            received_at,
        }
    }

    /// Whether more local time than `timeout_ms` has passed since
    /// receipt.
    pub fn is_expired(&self, timeout_ms: u64, now_ms: u64) -> (r: bool)
        ensures
            r == (elapsed_ms(self.received_at, now_ms) > timeout_ms),
    {
        let age = self.age(now_ms);
        age > timeout_ms
    }

    /// Local milliseconds since receipt; zero if the clock went
    /// backwards.
    pub fn age(&self, now_ms: u64) -> (r: u64)
        ensures
            r == elapsed_ms(self.received_at, now_ms),
    {
        if now_ms >= self.received_at {
            now_ms - self.received_at
        } else {
            0
        }
    }

    /// How many transactions the proposal carries.
    pub fn transaction_count(&self) -> (r: usize)
        ensures
            r == self.transaction_hashes@.len(),
    {
        self.transaction_hashes.len()
    }
}

/// Absolute distance between the proposal timestamp and the clock.
pub open spec fn spec_skew(timestamp: u64, now_ms: u64) -> int {
    if now_ms >= timestamp {
        now_ms - timestamp
    } else {
        timestamp - now_ms
    }
}

/// Whether the proposal passes every check of [`ProposalVerifier::verify`]:
/// known and active proposer, a non-empty signature, and a timestamp
/// within [`MAX_TIMESTAMP_SKEW_MS`] of the clock.
pub open spec fn spec_accepts(p: BlockProposal, validators: ValidatorSet, now_ms: u64) -> bool {
    &&& validators.spec_contains(p.proposer_id@)
    &&& validators.spec_is_active(p.proposer_id@)
    &&& p.signature@.len() > 0
    &&& spec_skew(p.timestamp, now_ms) <= MAX_TIMESTAMP_SKEW_MS
}

/// Stateless verifier for block proposals; it consults the validator
/// directory and rewards the proposer through the reputation ledger.
pub struct ProposalVerifier {}

impl ProposalVerifier {
    /// A new verifier.
    pub fn new() -> (v: Self) {
        ProposalVerifier {  }
    }

    /// Verifies one proposal, short-circuiting on the first failing
    /// check.
    ///
    /// The checks run in order: the proposer must be known to the
    /// directory, must be active, the signature must be present (its
    /// cryptographic verification is the crypto collaborator's concern),
    /// and the proposal's timestamp must lie within
    /// [`MAX_TIMESTAMP_SKEW_MS`] of `now_ms`. Each failure yields the
    /// verdict `Invalid` with a distinct reason; a proposal that passes
    /// yields `Valid` and — best-effort, errors swallowed — credits the
    /// proposer with `ValidBlockProposed` in the ledger. Rejected
    /// proposals never touch the ledger.
    pub fn verify(
        &self,
        proposal: &BlockProposal,
        validators: &ValidatorSet,
        reputation: &mut ReputationSystem,
        now_ms: u64,
    ) -> (r: Result<VerificationResult, ConsensusError>)
        requires
            validators.wf(),
            old(reputation).wf(),
        ensures
            final(reputation).wf(),
            final(reputation).config == old(reputation).config,
            r is Ok,
            spec_accepts(*proposal, *validators, now_ms) ==> (r matches Ok(
                VerificationResult::Valid,
            )) && final(reputation).reps() == old(reputation).spec_after_update(
                proposal.proposer_id@,
                ReputationAction::ValidBlockProposed,
                now_ms,
            ),
            !spec_accepts(*proposal, *validators, now_ms) ==> final(reputation).reps() == old(
                reputation,
            ).reps(),
            !validators.spec_contains(proposal.proposer_id@) ==> (r matches Ok(
                VerificationResult::Invalid(m),
            ) && m@ == "unknown validator"@),
            validators.spec_contains(proposal.proposer_id@) && !validators.spec_is_active(
                proposal.proposer_id@,
            ) ==> (r matches Ok(VerificationResult::Invalid(m)) && m@ == "validator not active"@),
            validators.spec_is_active(proposal.proposer_id@) && proposal.signature@.len() == 0
                ==> (r matches Ok(VerificationResult::Invalid(m)) && m@ == "invalid signature"@),
            validators.spec_is_active(proposal.proposer_id@) && proposal.signature@.len() > 0
                && spec_skew(proposal.timestamp, now_ms) > MAX_TIMESTAMP_SKEW_MS ==> (r matches Ok(
                VerificationResult::Invalid(m),
            ) && m@ == "invalid timestamp"@),
    {
        match validators.get_validator(proposal.proposer_id.as_str()) {
            None => {
                return Ok(VerificationResult::Invalid(String::from_str("unknown validator")));
            },
            Some(v) => {
                if !v.is_active {
                    return Ok(
                        VerificationResult::Invalid(String::from_str("validator not active")),
                    );
                }
            },
        }
        if proposal.signature.len() == 0 {
            return Ok(VerificationResult::Invalid(String::from_str("invalid signature")));
        }
        let skew = if now_ms >= proposal.timestamp {
            now_ms - proposal.timestamp
        } else {
            proposal.timestamp - now_ms
        };
        if skew > MAX_TIMESTAMP_SKEW_MS {
            return Ok(VerificationResult::Invalid(String::from_str("invalid timestamp")));
        }
        let _ = reputation.update_reputation(
            proposal.proposer_id.as_str(),
            ReputationAction::ValidBlockProposed,
            now_ms,
        );
        Ok(VerificationResult::Valid)
    }
}

/// Law: the four rejection reasons of [`ProposalVerifier::verify`] are
/// pairwise distinct and none is empty, so a verdict names its failing
/// check unambiguously.
pub proof fn lemma_rejection_reasons_distinct()
    ensures
        "unknown validator"@ != "validator not active"@,
        "unknown validator"@ != "invalid signature"@,
        "unknown validator"@ != "invalid timestamp"@,
        "validator not active"@ != "invalid signature"@,
        "validator not active"@ != "invalid timestamp"@,
        "invalid signature"@ != "invalid timestamp"@,
        "unknown validator"@.len() > 0,
        "validator not active"@.len() > 0,
        "invalid signature"@.len() > 0,
        "invalid timestamp"@.len() > 0,
{
    reveal_strlit("unknown validator");
    reveal_strlit("validator not active");
    reveal_strlit("invalid signature");
    reveal_strlit("invalid timestamp");
    assert(("unknown validator"@).len() == 17);
    assert(("validator not active"@).len() == 20);
    assert(("invalid signature"@).len() == 17);
    assert(("invalid timestamp"@).len() == 17);
    assert(("unknown validator"@)[0] == 'u');
    assert(("invalid signature"@)[0] == 'i');
    assert(("invalid timestamp"@)[0] == 'i');
    assert(("invalid signature"@)[8] == 's');
    assert(("invalid timestamp"@)[8] == 't');
}

} // verus!
