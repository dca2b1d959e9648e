//! Smart-contract records carried in blocks.
//!
//! The record itself is plain data; running the contained code is the
//! execution engine's concern and lives outside this crate.

use vstd::prelude::*;

verus! {

/// A contract: its code, address, and security flag.
#[derive(Debug, Clone)]
pub struct SmartContract {
    /// The contract's compiled code.
    pub code: Vec<u8>,
    /// The contract's address.
    pub address: String,
    /// Whether the contract runs under the quantum-secure engine.
    pub quantum_secure: bool,
}

impl SmartContract {
    /// A new contract record.
    pub fn new(code: Vec<u8>, address: String, quantum_secure: bool) -> (c: Self)
        ensures
            c.code == code,
            c.address == address,
            c.quantum_secure == quantum_secure,
    {
        SmartContract { code, address, quantum_secure }
    }
}

} // verus!
