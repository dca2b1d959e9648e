//! Plain transactions, their validation, and their signatures.

use vstd::prelude::*;
use vstd::string::{StrSliceExecFns, StringExecFns};
use crate::clock::now_secs;
use crate::crypto::{
    dilithium_keypair, dilithium_public_key_from_bytes, dilithium_sign_detached,
    dilithium_verify_detached, DILITHIUM5_SIGNATURE_BYTES,
};
use crate::strutil::{
    i64_to_string, spec_dec, spec_dec_i64, str_eq, string_bytes, u64_to_string, utf8_bytes,
};
use crate::transaction_error::TransactionError;

verus! {

/// Longest accepted serialized transaction, in bytes.
pub const MAX_TRANSACTION_SIZE: usize = 131072;

/// Longest accepted signature, in bytes; the exact length of a
/// Dilithium5 detached signature.
pub const MAX_SIGNATURE_SIZE: usize = 4627;

/// Widest accepted distance between a transaction timestamp and the
/// local clock, in seconds.
pub const TIMESTAMP_WINDOW: i64 = 300;

/// Shortest accepted address, in characters.
pub const MIN_ADDRESS_LENGTH: usize = 32;

/// Longest accepted address, in characters.
pub const MAX_ADDRESS_LENGTH: usize = 64;

/// Largest transferable amount.
pub const MAX_AMOUNT: u64 = 1000000000;

/// Smallest transferable amount.
pub const MIN_AMOUNT: u64 = 1;

/// One address's last accepted nonce.
#[derive(Debug, Clone)]
pub struct NonceEntry {
    /// The address.
    pub address: String,
    /// The last nonce accepted for it.
    pub nonce: u64,
}

/// Tracks the last accepted nonce per address, so that a transaction
/// can never be replayed.
#[derive(Debug)]
pub struct NonceRegistry {
    /// One entry per address; addresses are unique whenever
    /// [`NonceRegistry::wf`] holds, which every method preserves.
    pub registry: Vec<NonceEntry>,
    /// Widest accepted jump between consecutive nonces; reserved,
    /// read nowhere in the validation logic.
    pub max_nonce_gap: u64,
    /// Shortest accepted time between updates, in seconds; reserved,
    /// read nowhere in the validation logic.
    pub min_update_interval: i64,
}

impl NonceRegistry {
    /// The entries, in first-seen order.
    pub open spec fn entries(self) -> Seq<NonceEntry> {
        self.registry@
    }

    /// Registry invariant: no address holds two entries.
    pub open spec fn wf(self) -> bool {
        forall|i: int, j: int|
            #![trigger self.entries()[i], self.entries()[j]]
            0 <= i < j < self.entries().len() ==> self.entries()[i].address@
                != self.entries()[j].address@
    }

    /// Whether an address holds an entry.
    pub open spec fn spec_has(self, address: Seq<char>) -> bool {
        exists|i: int| 0 <= i < self.entries().len() && self.entries()[i].address@ == address
    }

    /// Index of the entry for this address (meaningful only when
    /// present).
    pub open spec fn spec_idx(self, address: Seq<char>) -> int {
        choose|i: int| 0 <= i < self.entries().len() && self.entries()[i].address@ == address
    }

    /// The last accepted nonce for an address; zero when none was.
    pub open spec fn spec_last_nonce(self, address: Seq<char>) -> u64 {
        if self.spec_has(address) {
            self.entries()[self.spec_idx(address)].nonce
        } else {
            0
        }
    }

    /// An empty registry.
    pub fn new() -> (r: Self)
        ensures
            r.wf(),
            r.entries() == Seq::<NonceEntry>::empty(),
            r.max_nonce_gap == 1000,
            r.min_update_interval == 1,
    {
        NonceRegistry { registry: Vec::new(), max_nonce_gap: 1000, min_update_interval: 1 }
    }

    /// Accepts a nonce exactly when it moves strictly forward for its
    /// address, and records it; a stale nonce fails with
    /// `NonceOverflow` and changes nothing.
    pub fn validate_nonce(&mut self, address: &str, nonce: u64) -> (r: Result<
        (),
        TransactionError,
    >)
        requires
            old(self).wf(),
        ensures
            final(self).wf(),
            nonce <= old(self).spec_last_nonce(address@) ==> (r matches Err(
                TransactionError::NonceOverflow,
            )) && final(self).entries() == old(self).entries(),
            nonce > old(self).spec_last_nonce(address@) ==> (r matches Ok(_)) && final(
                self).spec_last_nonce(address@) == nonce && final(self).wf() && (forall|a: Seq<char>|
                a != address@ ==> final(self).spec_last_nonce(a) == old(self).spec_last_nonce(a)),
    {
        let n = self.registry.len();
        let mut k: usize = 0;
        while k < n
            invariant
                0 <= k <= n,
                n == self.entries().len(),
                self.wf(),
                *self == *old(self),
                forall|j: int| 0 <= j < k ==> self.entries()[j].address@ != address@,
            decreases n - k,
        {
            if str_eq(self.registry[k].address.as_str(), address) {
                proof {
                    lemma_nonce_idx(*self, address@, k as int);
                }
                let last = self.registry[k].nonce;
                if nonce <= last {
                    return Err(TransactionError::NonceOverflow);
                }
                let entry = self.registry.remove(k);
                let updated = NonceEntry { address: entry.address, nonce };
                self.registry.insert(k, updated);
                let ghost orig = *old(self);
                proof {
                    let s = orig.entries();
                    let t = self.entries();
                    assert(t =~= s.update(k as int, t[k as int]));
                    assert forall|i: int, j: int| 0 <= i < j < t.len() implies t[i].address@
                        != t[j].address@ by {
                        assert(s[i].address@ != s[j].address@);
                        if i != k as int {
                            assert(t[i] == s[i]);
                        }
                        if j != k as int {
                            assert(t[j] == s[j]);
                        }
                    }
                    lemma_nonce_idx(*self, address@, k as int);
                    assert forall|a: Seq<char>| a != address@ implies self.spec_last_nonce(a)
                        == orig.spec_last_nonce(a) by {
                        lemma_nonce_frame(orig, *self, k as int, a);
                    }
                }
                return Ok(());
            }
            k = k + 1;
        }
        if nonce == 0 {
            return Err(TransactionError::NonceOverflow);
        }
        let ghost before = *self;
        let entry = NonceEntry { address: String::from_str(address), nonce };
        self.registry.push(entry);
        proof {
            let s = before.entries();
            let t = self.entries();
            assert forall|i: int, j: int| 0 <= i < j < t.len() implies t[i].address@
                != t[j].address@ by {
                if j == s.len() {
                    assert(t[i] == s[i]);
                    assert(s[i].address@ != address@);
                } else {
                    assert(t[i] == s[i]);
                    assert(t[j] == s[j]);
                }
            }
            lemma_nonce_idx(*self, address@, s.len() as int);
            assert forall|a: Seq<char>| a != address@ implies self.spec_last_nonce(a)
                == before.spec_last_nonce(a) by {
                lemma_nonce_frame(before, *self, s.len() as int, a);
            }
        }
        Ok(())
    }
}

proof fn lemma_nonce_idx(reg: NonceRegistry, address: Seq<char>, k: int)
    requires
        reg.wf(),
        0 <= k < reg.entries().len(),
        reg.entries()[k].address@ == address,
    ensures
        reg.spec_has(address),
        reg.spec_idx(address) == k,
{
    assert(reg.spec_has(address));
    let i = reg.spec_idx(address);
    assert(0 <= i < reg.entries().len() && reg.entries()[i].address@ == address);
    if i != k {
        let a: int = if i < k {
            i
        } else {
            k
        };
        let b: int = if i < k {
            k
        } else {
            i
        };
        assert(reg.entries()[a].address@ != reg.entries()[b].address@);
        assert(false);
    }
}

proof fn lemma_nonce_frame(before: NonceRegistry, after: NonceRegistry, k: int, a: Seq<char>)
    requires
        before.wf(),
        after.wf(),
        0 <= k < after.entries().len(),
        after.entries().len() == before.entries().len() || after.entries().len() == before.entries().len() + 1,
        forall|j: int|
            0 <= j < before.entries().len() && j != k ==> after.entries()[j]
                == #[trigger] before.entries()[j],
        a != after.entries()[k].address@,
        k < before.entries().len() ==> a != before.entries()[k].address@,
        after.entries().len() == before.entries().len() + 1 ==> k == before.entries().len(),
    ensures
        after.spec_last_nonce(a) == before.spec_last_nonce(a),
{
    if before.spec_has(a) {
        let i = before.spec_idx(a);
        assert(0 <= i < before.entries().len() && before.entries()[i].address@ == a);
        assert(i != k);
        assert(after.entries()[i] == before.entries()[i]);
        lemma_nonce_idx(after, a, i);
    } else {
        if after.spec_has(a) {
            let i = after.spec_idx(a);
            assert(0 <= i < after.entries().len() && after.entries()[i].address@ == a);
            assert(i != k);
            assert(after.entries()[i] == before.entries()[i]);
            assert(before.spec_has(a));
            assert(false);
        }
    }
}


/// Whether the character is an ASCII letter or digit.
pub open spec fn spec_is_alnum(c: char) -> bool {
    (48 <= c as int <= 57) || (65 <= c as int <= 90) || (97 <= c as int <= 122)
}

/// Whether a string is an acceptable address: between
/// [`MIN_ADDRESS_LENGTH`] and [`MAX_ADDRESS_LENGTH`] characters, all of
/// them ASCII letters or digits.
pub open spec fn spec_address_ok(s: Seq<char>) -> bool {
    &&& MIN_ADDRESS_LENGTH <= s.len() <= MAX_ADDRESS_LENGTH
    &&& forall|i: int| 0 <= i < s.len() ==> spec_is_alnum(#[trigger] s[i])
}

/// Whether the character is an ASCII letter or digit.
fn is_alnum(c: char) -> (r: bool)
    ensures
        r == spec_is_alnum(c),
{
    let v = c as u32;
    (48 <= v && v <= 57) || (65 <= v && v <= 90) || (97 <= v && v <= 122)
}

/// Whether a string is an acceptable address.
fn address_ok(s: &str) -> (r: bool)
    ensures
        r == spec_address_ok(s@),
{
    let len = s.unicode_len();
    if len < MIN_ADDRESS_LENGTH || len > MAX_ADDRESS_LENGTH {
        return false;
    }
    let mut i: usize = 0;
    while i < len
        invariant
            0 <= i <= len,
            len == s@.len(),
            MIN_ADDRESS_LENGTH <= len <= MAX_ADDRESS_LENGTH,
            forall|j: int| 0 <= j < i ==> spec_is_alnum(#[trigger] s@[j]),
        decreases len - i,
    {
        if !is_alnum(s.get_char(i)) {
            return false;
        }
        i = i + 1;
    }
    true
}

/// A plain transaction: payload fields, key material, signature, and
/// hash.
#[derive(Debug, Clone)]
pub struct Transaction {
    /// Id of the transferred token.
    pub token_id: u64,
    /// Sender address.
    pub from: String,
    /// Receiver address.
    pub to: String,
    /// Transferred amount.
    pub amount: u64,
    /// Wall-clock seconds at creation.
    pub timestamp: i64,
    /// Sender's transaction counter.
    pub nonce: u64,
    /// Public key of the sender.
    pub public_key: Vec<u8>,
    /// Detached signature over the signing frame.
    pub signature: Vec<u8>,
    /// Integrity tag over frame and signature.
    pub transaction_hash: Vec<u8>,
}

impl Transaction {
    /// The character part of the signing frame:
    /// `token_id:from:to:amount:timestamp:nonce:`.
    pub open spec fn spec_signing_chars(self) -> Seq<char> {
        spec_dec(self.token_id as nat) + ":"@ + self.from@ + ":"@ + self.to@ + ":"@ + spec_dec(
            self.amount as nat,
        ) + ":"@ + spec_dec_i64(self.timestamp as int) + ":"@ + spec_dec(self.nonce as nat) + ":"@
    }

    /// The bytes signed for this transaction: the UTF-8 form of the
    /// character frame, followed by the public key.
    pub open spec fn spec_signing_frame(self) -> Seq<u8> {
        utf8_bytes(self.spec_signing_chars()) + self.public_key@
    }

    /// Serializes the fields a signature covers: the colon-separated
    /// payload fields as UTF-8 bytes, followed by the public key.
    pub fn serialize_for_signing(&self) -> (r: Result<Vec<u8>, TransactionError>)
        ensures
            r matches Ok(bytes) && bytes@ == self.spec_signing_frame(),
    {
        let mut s = String::new();
        let token_id = u64_to_string(self.token_id);
        s.append(token_id.as_str());
        s.append(":");
        s.append(self.from.as_str());
        s.append(":");
        s.append(self.to.as_str());
        s.append(":");
        let amount = u64_to_string(self.amount);
        s.append(amount.as_str());
        s.append(":");
        let timestamp = i64_to_string(self.timestamp);
        s.append(timestamp.as_str());
        s.append(":");
        let nonce = u64_to_string(self.nonce);
        s.append(nonce.as_str());
        s.append(":");
        proof {
            assert(s@ == self.spec_signing_chars());
        }
        let mut bytes = string_bytes(&s);
        let mut key = self.public_key.clone();
        bytes.append(&mut key);
        Ok(bytes)
    }

    /// A new unsigned transaction, stamped with the current clock; both
    /// addresses must be between [`MIN_ADDRESS_LENGTH`] and
    /// [`MAX_ADDRESS_LENGTH`] characters, else `AddressFormatInvalid`.
    pub fn new(from: String, to: String, amount: u64, public_key: Vec<u8>) -> (r: Result<
        Transaction,
        TransactionError,
    >)
        ensures
            !(MIN_ADDRESS_LENGTH <= from@.len() <= MAX_ADDRESS_LENGTH && MIN_ADDRESS_LENGTH
                <= to@.len() <= MAX_ADDRESS_LENGTH) <==> r matches Err(
                TransactionError::AddressFormatInvalid,
            ),
            r matches Ok(t) ==> {
                &&& t.token_id == 0
                &&& t.from == from
                &&& t.to == to
                &&& t.amount == amount
                &&& t.nonce == 1
                &&& t.public_key == public_key
                &&& t.signature@.len() == 0
                &&& t.transaction_hash@.len() == DILITHIUM5_SIGNATURE_BYTES
            },
    {
        let from_len = from.as_str().unicode_len();
        let to_len = to.as_str().unicode_len();
        if from_len < MIN_ADDRESS_LENGTH || from_len > MAX_ADDRESS_LENGTH || to_len
            < MIN_ADDRESS_LENGTH || to_len > MAX_ADDRESS_LENGTH {
            return Err(TransactionError::AddressFormatInvalid);
        }
        let timestamp = now_secs();
        let mut transaction = Transaction {
            token_id: 0,
            from,
            to,
            amount,
            timestamp,
            nonce: 1,
            public_key,
            signature: Vec::new(),
            transaction_hash: Vec::new(),
        };
        transaction.update_hash()?;
        Ok(transaction)
    }

    /// Recomputes the integrity tag over the signing frame and the
    /// current signature. The tag is drawn with a fresh key, so it is
    /// not stable across calls; only its length is fixed.
    pub fn update_hash(&mut self) -> (r: Result<(), TransactionError>)
        ensures
            r is Ok,
            *final(self) == (Transaction {
                transaction_hash: final(self).transaction_hash,
                ..*old(self)
            }),
            final(self).transaction_hash@.len() == DILITHIUM5_SIGNATURE_BYTES,
    {
        let mut data = self.serialize_for_signing()?;
        let mut sig = self.signature.clone();
        data.append(&mut sig);
        let (_public_key, secret_key) = dilithium_keypair();
        let hash = dilithium_sign_detached(data.as_slice(), &secret_key);
        self.transaction_hash = hash;
        Ok(())
    }

    /// Signs the transaction: the addresses are validated, the signing
    /// frame signed, and the integrity tag recomputed.
    pub fn sign(&mut self, secret_key: &pqcrypto_dilithium::dilithium5::SecretKey) -> (r: Result<
        (),
        TransactionError,
    >)
        ensures
            !(spec_address_ok(old(self).from@) && spec_address_ok(old(self).to@) && old(
                self,
            ).from@ != old(self).to@) <==> r matches Err(TransactionError::AddressFormatInvalid),
            r matches Err(TransactionError::AddressFormatInvalid) ==> *final(self) == *old(self),
            r is Ok ==> {
                &&& *final(self) == (Transaction {
                    signature: final(self).signature,
                    transaction_hash: final(self).transaction_hash,
                    ..*old(self)
                })
                &&& final(self).signature@.len() == DILITHIUM5_SIGNATURE_BYTES
                &&& final(self).transaction_hash@.len() == DILITHIUM5_SIGNATURE_BYTES
            },
    {
        self.validate_address()?;
        let data = self.serialize_for_signing()?;
        let signature = dilithium_sign_detached(data.as_slice(), secret_key);
        self.signature = signature;
        self.update_hash()?;
        Ok(())
    }

    /// Verifies the signature over the signing frame: an oversized
    /// signature is refused outright, and otherwise the signature
    /// scheme decides.
    pub fn verify(&self, public_key: &pqcrypto_dilithium::dilithium5::PublicKey) -> (r: Result<
        (),
        TransactionError,
    >)
        ensures
            self.signature@.len() > MAX_SIGNATURE_SIZE ==> r matches Err(
                TransactionError::SignatureSizeExceeded,
            ),
    {
        let data = self.serialize_for_signing()?;
        if self.signature.len() > MAX_SIGNATURE_SIZE {
            return Err(TransactionError::SignatureSizeExceeded);
        }
        if !dilithium_verify_detached(self.signature.as_slice(), data.as_slice(), public_key) {
            return Err(
                TransactionError::InvalidSignature(String::from_str("Invalid signature")),
            );
        }
        Ok(())
    }

    /// The exact length of a detached signature of the scheme in use.
    pub fn get_expected_signature_size() -> (r: usize)
        ensures
            r == DILITHIUM5_SIGNATURE_BYTES,
    {
        4627
    }

    /// Validates both addresses: acceptable characters and length, and
    /// sender and receiver distinct.
    pub fn validate_address(&self) -> (r: Result<(), TransactionError>)
        ensures
            (r is Ok) <==> (spec_address_ok(self.from@) && spec_address_ok(self.to@)
                && self.from@ != self.to@),
            !(r is Ok) ==> r matches Err(TransactionError::AddressFormatInvalid),
    {
        if !address_ok(self.from.as_str()) || !address_ok(self.to.as_str()) {
            return Err(TransactionError::AddressFormatInvalid);
        }
        if str_eq(self.from.as_str(), self.to.as_str()) {
            return Err(TransactionError::AddressFormatInvalid);
        }
        Ok(())
    }

    /// Validates the timestamp against the given clock reading: it may
    /// lie at most [`TIMESTAMP_WINDOW`] seconds from it, in either
    /// direction.
    pub fn validate_timestamp(&self, now_s: i64) -> (r: Result<(), TransactionError>)
        ensures
            (r is Ok) <==> (-(TIMESTAMP_WINDOW as int) <= now_s - self.timestamp
                <= TIMESTAMP_WINDOW),
            !(r is Ok) ==> r matches Err(TransactionError::TimestampInvalid),
    {
        let now = now_s as i128;
        let ts = self.timestamp as i128;
        let diff = now - ts;
        if -300 <= diff && diff <= 300 {
            Ok(())
        } else {
            Err(TransactionError::TimestampInvalid)
        }
    }

    /// Validates the whole transaction against the given clock
    /// reading: amount in range, addresses acceptable and distinct,
    /// timestamp within the window, nonce moving forward (and then
    /// recorded), and the serialized size within bounds.
    pub fn validate(&self, nonce_registry: &mut NonceRegistry, now_s: i64) -> (r: Result<
        (),
        TransactionError,
    >)
        requires
            old(nonce_registry).wf(),
        ensures
            final(nonce_registry).wf(),
            !(MIN_AMOUNT <= self.amount <= MAX_AMOUNT) ==> (r matches Err(
                TransactionError::InvalidData(_),
            )) && final(nonce_registry).entries() == old(nonce_registry).entries(),
            MIN_AMOUNT <= self.amount <= MAX_AMOUNT && !(spec_address_ok(self.from@)
                && spec_address_ok(self.to@) && self.from@ != self.to@) ==> (r matches Err(
                TransactionError::AddressFormatInvalid,
            )) && final(nonce_registry).entries() == old(nonce_registry).entries(),
            MIN_AMOUNT <= self.amount <= MAX_AMOUNT && spec_address_ok(self.from@)
                && spec_address_ok(self.to@) && self.from@ != self.to@ && !(-(
            TIMESTAMP_WINDOW as int) <= now_s - self.timestamp <= TIMESTAMP_WINDOW) ==> (r matches
                Err(TransactionError::TimestampInvalid)) && final(nonce_registry).entries() == old(
                nonce_registry,
            ).entries(),
            MIN_AMOUNT <= self.amount <= MAX_AMOUNT && spec_address_ok(self.from@)
                && spec_address_ok(self.to@) && self.from@ != self.to@ && (-(
            TIMESTAMP_WINDOW as int) <= now_s - self.timestamp <= TIMESTAMP_WINDOW) && self.nonce
                <= old(nonce_registry).spec_last_nonce(self.from@) ==> (r matches Err(
                TransactionError::NonceOverflow,
            )) && final(nonce_registry).entries() == old(nonce_registry).entries(),
            MIN_AMOUNT <= self.amount <= MAX_AMOUNT && spec_address_ok(self.from@)
                && spec_address_ok(self.to@) && self.from@ != self.to@ && (-(
            TIMESTAMP_WINDOW as int) <= now_s - self.timestamp <= TIMESTAMP_WINDOW) && self.nonce
                > old(nonce_registry).spec_last_nonce(self.from@) ==> final(
                nonce_registry).spec_last_nonce(self.from@) == self.nonce && ((r is Ok) || (
            r matches Err(TransactionError::DataSizeExceeded))),
    {
        if self.amount < MIN_AMOUNT || self.amount > MAX_AMOUNT {
            return Err(
                TransactionError::InvalidData(String::from_str("Invalid transaction amount")),
            );
        }
        self.validate_address()?;
        self.validate_timestamp(now_s)?;
        nonce_registry.validate_nonce(self.from.as_str(), self.nonce)?;
        let frame = self.serialize_for_signing()?;
        let size = frame.len().saturating_add(self.signature.len()).saturating_add(
            self.transaction_hash.len(),
        );
        if size > MAX_TRANSACTION_SIZE {
            return Err(TransactionError::DataSizeExceeded);
        }
        Ok(())
    }
}

/// A freshly drawn signing key pair.
pub fn generate_keys() -> (r: Result<
    (pqcrypto_dilithium::dilithium5::SecretKey, pqcrypto_dilithium::dilithium5::PublicKey),
    TransactionError,
>)
    ensures
        r is Ok,
{
    let (public_key, secret_key) = dilithium_keypair();
    Ok((secret_key, public_key))
}

/// Walks one transaction through its life: keys are drawn, the
/// transaction built, signed and verified. The short demonstration
/// addresses fall under the minimum address length, so building the
/// transaction fails there.
pub fn example() -> (r: Result<(), TransactionError>)
    ensures
        r matches Err(TransactionError::AddressFormatInvalid),
{
    let (secret_key, public_key) = generate_keys()?;
    let pk_bytes = crate::crypto::dilithium_public_key_bytes(&public_key);
    proof {
        reveal_strlit("remetente");
        reveal_strlit("recipiente");
    }
    let mut transaction = Transaction::new(
        String::from_str("remetente"),
        String::from_str("recipiente"),
        100,
        pk_bytes,
    )?;
    transaction.sign(&secret_key)?;
    let _ = transaction.verify(&public_key)?;
    Ok(())
}

} // verus!
