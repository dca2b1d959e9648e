//! Blocks of the chain.

use vstd::prelude::*;
use crate::clock::now_millis;
use crate::secure_transaction::SecureTransaction;
use crate::smart_contract::SmartContract;

verus! {

/// One block: its position, contents, and hashes.
#[derive(Debug, Clone)]
pub struct Block {
    /// Position of the block in the chain.
    pub index: u64,
    /// Wall-clock seconds at creation.
    pub timestamp: u64,
    /// The transactions the block carries.
    pub transactions: Vec<SecureTransaction>,
    /// The contracts the block carries.
    pub contracts: Vec<SmartContract>,
    /// Hash of the preceding block.
    pub previous_hash: String,
    /// Hash of this block, computed by the crypto collaborator.
    pub hash: String,
    /// Signature of the sealing validator, once sealed.
    pub validator_signature: Option<Vec<u8>>,
}

impl Block {
    /// A new unsigned block, stamped with the current clock. The hash
    /// over the block's contents is handed in by the caller, since
    /// hashing is the crypto collaborator's concern.
    pub fn new(
        index: u64,
        transactions: Vec<SecureTransaction>,
        contracts: Vec<SmartContract>,
        previous_hash: String,
        hash: String,
    ) -> (b: Self)
        ensures
            b.index == index,
            b.transactions == transactions,
            b.contracts == contracts,
            b.previous_hash == previous_hash,
            b.hash == hash,
            b.validator_signature is None,
    {
        let timestamp = now_millis() / 1000;
        Block {
            index,
            timestamp,
            transactions,
            contracts,
            previous_hash,
            hash,
            validator_signature: None,
        }
    }
}

} // verus!
