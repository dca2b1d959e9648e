//! Errors of the transaction layer.

use vstd::prelude::*;

verus! {

/// Why a transaction was refused.
#[derive(Debug, Clone)]
pub enum TransactionError {
    /// The transaction is malformed in a way no finer variant covers.
    InvalidTransaction,
    /// The transaction's byte form could not be produced or read.
    InvalidDataFormat,
    /// The timestamp lies too far from the local clock.
    TimestampInvalid,
    /// An address has the wrong length or holds forbidden characters,
    /// or sender and receiver coincide.
    AddressFormatInvalid,
    /// The serialized transaction is too large.
    DataSizeExceeded,
    /// The signature is longer than the scheme allows.
    SignatureSizeExceeded,
    /// The nonce does not move forward.
    NonceOverflow,
    /// The sender's balance does not cover the amount.
    InsufficientFunds,
    /// A cryptographic operation failed.
    CryptoError(String),
    /// The signature is absent, malformed, or does not verify.
    InvalidSignature(String),
    /// The public key is malformed.
    InvalidPublicKey(String),
    /// A field value is out of range.
    InvalidData(String),
}

} // verus!
