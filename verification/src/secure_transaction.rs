//! Transactions carrying their own encryption envelope and signature.

use vstd::prelude::*;
use vstd::string::StringExecFns;
use crate::crypto::{
    dilithium_keypair, dilithium_public_key_bytes, dilithium_public_key_from_bytes,
    dilithium_sign_detached, dilithium_verify_detached, secretbox_gen_key, secretbox_gen_nonce,
    secretbox_open, secretbox_seal, sealed_of, DILITHIUM5_PUBLIC_KEY_BYTES,
    DILITHIUM5_SIGNATURE_BYTES, SECRETBOX_KEY_BYTES, SECRETBOX_NONCE_BYTES,
};
use crate::strutil::{i64_to_string, spec_dec, spec_dec_i64, string_bytes, u64_to_string, utf8_bytes};
use crate::transaction_error::TransactionError;

verus! {

/// Longest accepted signature, in bytes.
pub const MAX_SIGNATURE_SIZE: usize = 4627;

/// A transaction wrapped in an authenticated encryption envelope and
/// signed with a post-quantum signature.
#[derive(Debug, Clone)]
pub struct SecureTransaction {
    /// Sender address.
    pub from: String,
    /// Receiver address.
    pub to: String,
    /// Transferred amount.
    pub amount: u64,
    /// Wall-clock seconds at creation.
    pub timestamp: i64,
    /// Sender's transaction counter.
    pub nonce: u64,
    /// Detached signature over the serialized fields.
    pub signature: Vec<u8>,
    /// Public key matching the signing key.
    pub public_key: Vec<u8>,
    /// Key of the encryption envelope.
    pub cipher_key: Vec<u8>,
    /// The sealed serialized fields.
    pub encrypted_data: Vec<u8>,
    /// Nonce of the encryption envelope.
    pub iv: Vec<u8>,
    /// Salt reserved for key derivation.
    pub salt: Vec<u8>,
    /// Authentication code over the serialized fields.
    pub mac: Vec<u8>,
}

impl SecureTransaction {
    /// The serialized form of the payload fields, as characters:
    /// `from:to:amount:timestamp:nonce`.
    pub open spec fn spec_serial(self) -> Seq<char> {
        self.from@ + ":"@ + self.to@ + ":"@ + spec_dec(self.amount as nat) + ":"@ + spec_dec_i64(
            self.timestamp as int,
        ) + ":"@ + spec_dec(self.nonce as nat)
    }

    /// Envelope invariant: nonce and key have the secret box's fixed
    /// lengths.
    pub open spec fn wf(self) -> bool {
        &&& self.iv@.len() == SECRETBOX_NONCE_BYTES
        &&& self.cipher_key@.len() == SECRETBOX_KEY_BYTES
    }

    /// Serializes the payload fields, colon-separated, as UTF-8 bytes.
    pub fn serialize_data(&self) -> (r: Result<Vec<u8>, TransactionError>)
        ensures
            r matches Ok(bytes) && bytes@ == utf8_bytes(self.spec_serial()),
    {
        let mut s = String::new();
        s.append(self.from.as_str());
        s.append(":");
        s.append(self.to.as_str());
        s.append(":");
        let amount = u64_to_string(self.amount);
        s.append(amount.as_str());
        s.append(":");
        let timestamp = i64_to_string(self.timestamp);
        s.append(timestamp.as_str());
        s.append(":");
        let nonce = u64_to_string(self.nonce);
        s.append(nonce.as_str());
        proof {
            assert(s@ == self.spec_serial());
        }
        Ok(string_bytes(&s))
    }

    /// A new secure transaction: a fresh signing key pair, a fresh
    /// envelope key and nonces, the payload sealed and authenticated,
    /// and the payload signed.
    pub fn new(from: String, to: String, amount: u64, timestamp: i64, nonce: u64) -> (r: Result<
        SecureTransaction,
        TransactionError,
    >)
        ensures
            r matches Ok(t) && {
                &&& t.from == from
                &&& t.to == to
                &&& t.amount == amount
                &&& t.timestamp == timestamp
                &&& t.nonce == nonce
                &&& t.wf()
                &&& t.public_key@.len() == DILITHIUM5_PUBLIC_KEY_BYTES
                &&& t.signature@.len() == DILITHIUM5_SIGNATURE_BYTES
                &&& t.encrypted_data@ == sealed_of(
                    utf8_bytes(t.spec_serial()),
                    t.iv@,
                    t.cipher_key@,
                )
                &&& t.mac@ == sealed_of(utf8_bytes(t.spec_serial()), t.iv@, t.cipher_key@)
            },
    {
        let (public_key, secret_key) = dilithium_keypair();
        let salt = secretbox_gen_nonce();
        let iv = secretbox_gen_nonce();
        let cipher_key = secretbox_gen_key();
        let mut transaction = SecureTransaction {
            from,
            to,
            amount,
            timestamp,
            nonce,
            signature: Vec::new(),
            public_key: dilithium_public_key_bytes(&public_key),
            cipher_key,
            encrypted_data: Vec::new(),
            iv,
            salt,
            mac: Vec::new(),
        };
        transaction.encrypt_data()?;
        transaction.sign_with(&secret_key)?;
        Ok(transaction)
    }

    /// Seals the serialized payload into the envelope and records the
    /// authentication code.
    fn encrypt_data(&mut self) -> (r: Result<(), TransactionError>)
        requires
            old(self).wf(),
        ensures
            r is Ok,
            final(self).wf(),
            *final(self) == (SecureTransaction {
                encrypted_data: final(self).encrypted_data,
                mac: final(self).mac,
                ..*old(self)
            }),
            final(self).encrypted_data@ == sealed_of(
                utf8_bytes(old(self).spec_serial()),
                old(self).iv@,
                old(self).cipher_key@,
            ),
            final(self).mac@ == sealed_of(
                utf8_bytes(old(self).spec_serial()),
                old(self).iv@,
                old(self).cipher_key@,
            ),
    {
        let data = self.serialize_data()?;
        let sealed = secretbox_seal(data.as_slice(), self.iv.as_slice(), self.cipher_key.as_slice());
        self.encrypted_data = sealed;
        let mac = secretbox_seal(data.as_slice(), self.iv.as_slice(), self.cipher_key.as_slice());
        self.mac = mac;
        Ok(())
    }

    /// Signs the serialized payload with the given key.
    fn sign_with(&mut self, secret_key: &pqcrypto_dilithium::dilithium5::SecretKey) -> (r: Result<
        (),
        TransactionError,
    >)
        ensures
            r is Ok,
            *final(self) == (SecureTransaction { signature: final(self).signature, ..*old(self) }),
            final(self).signature@.len() == DILITHIUM5_SIGNATURE_BYTES,
    {
        let data = self.serialize_data()?;
        let signature = dilithium_sign_detached(data.as_slice(), secret_key);
        self.signature = signature;
        Ok(())
    }

    /// Verifies the envelope and the signature: the signature must not
    /// be oversized, the envelope must open, the authentication code
    /// must hold, the public key must parse, and the signature must
    /// verify over the decrypted payload. Each failing check yields its
    /// error; success returns `Ok(true)`.
    pub fn verify(&self) -> (r: Result<bool, TransactionError>)
        ensures
            self.signature@.len() > MAX_SIGNATURE_SIZE ==> r matches Err(
                TransactionError::InvalidSignature(_),
            ),
            r is Ok ==> r == Ok::<bool, TransactionError>(true),
    {
        if self.signature.len() > MAX_SIGNATURE_SIZE {
            return Err(
                TransactionError::InvalidSignature(String::from_str("Signature too large")),
            );
        }
        if self.iv.len() != SECRETBOX_NONCE_BYTES || self.cipher_key.len() != SECRETBOX_KEY_BYTES {
            return Err(TransactionError::InvalidData(String::from_str("Invalid envelope")));
        }
        let data = match secretbox_open(
            self.encrypted_data.as_slice(),
            self.iv.as_slice(),
            self.cipher_key.as_slice(),
        ) {
            Some(d) => d,
            None => {
                return Err(TransactionError::InvalidData(String::from_str("Decryption failed")));
            },
        };
        let mac_ok = match secretbox_open(
            self.mac.as_slice(),
            self.iv.as_slice(),
            self.cipher_key.as_slice(),
        ) {
            Some(_) => true,
            None => false,
        };
        if !mac_ok {
            return Err(
                TransactionError::InvalidSignature(String::from_str("Signature too large")),
            );
        }
        let public_key = match dilithium_public_key_from_bytes(self.public_key.as_slice()) {
            Some(pk) => pk,
            None => {
                return Err(
                    TransactionError::InvalidPublicKey(String::from_str("Invalid public key")),
                );
            },
        };
        if !dilithium_verify_detached(self.signature.as_slice(), data.as_slice(), &public_key) {
            return Err(
                TransactionError::InvalidSignature(String::from_str("Invalid signature")),
            );
        }
        Ok(true)
    }
}

} // verus!
