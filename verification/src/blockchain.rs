//! The chain ledger: blocks, tokens, stakes, nonces, and pending
//! transactions.

use vstd::prelude::*;
use vstd::string::{StrSliceExecFns, StringExecFns};
use crate::block::Block;
use crate::clock::now_secs;
use crate::secure_transaction::SecureTransaction;
use crate::smart_contract::SmartContract;
use crate::strutil::{spec_dec, str_eq, u64_to_string};
use crate::token::Token;
use crate::transaction::{NonceEntry, Transaction};
use crate::transaction_error::TransactionError;
use crate::validacao::{spec_validar, validar_transacao_at, TransacaoErro};

verus! {

/// One token and its ledger id.
#[derive(Debug, Clone)]
pub struct TokenEntry {
    /// The ledger id, a decimal string.
    pub id: String,
    /// The token itself.
    pub token: Token,
}

/// One staker's total stake.
#[derive(Debug, Clone)]
pub struct StakeEntry {
    /// The staking address.
    pub address: String,
    /// The staked amount.
    pub amount: u64,
}

/// The chain ledger.
#[derive(Debug)]
pub struct Blockchain {
    /// The canonical chain, oldest block first.
    pub chain: Vec<Block>,
    /// The tokens, keyed by decimal id; ids are unique whenever
    /// [`Blockchain::wf`] holds, which every method preserves.
    pub tokens: Vec<TokenEntry>,
    /// Stakes per address; addresses unique under [`Blockchain::wf`].
    pub stakers: Vec<StakeEntry>,
    /// Last accepted nonce per address; addresses unique under
    /// [`Blockchain::wf`].
    pub nonces: Vec<NonceEntry>,
    /// Transactions accepted but not yet sealed into a block.
    pub pending_transactions: Vec<Transaction>,
    /// Auxiliary block store.
    pub blocks: Vec<Block>,
    /// Auxiliary transaction store.
    pub transactions: Vec<Transaction>,
    /// Id the next created token receives.
    pub next_token_id: u64,
}

/// Whether `s` holds a token entry with this id.
pub open spec fn has_token_in(s: Seq<TokenEntry>, id: Seq<char>) -> bool {
    exists|i: int| 0 <= i < s.len() && (#[trigger] s[i]).id@ == id
}

/// Index of the entry with this id in `s` (meaningful only when
/// present).
pub open spec fn token_idx_in(s: Seq<TokenEntry>, id: Seq<char>) -> int {
    choose|i: int| 0 <= i < s.len() && (#[trigger] s[i]).id@ == id
}

/// The last accepted nonce recorded in `s`; zero when none is.
pub open spec fn last_nonce_in(s: Seq<NonceEntry>, address: Seq<char>) -> u64 {
    if exists|i: int| 0 <= i < s.len() && (#[trigger] s[i]).address@ == address {
        s[choose|i: int| 0 <= i < s.len() && (#[trigger] s[i]).address@ == address].nonce
    } else {
        0
    }
}

/// The stake recorded in `s`; zero when none is.
pub open spec fn stake_in(s: Seq<StakeEntry>, address: Seq<char>) -> u64 {
    if exists|i: int| 0 <= i < s.len() && (#[trigger] s[i]).address@ == address {
        s[choose|i: int| 0 <= i < s.len() && (#[trigger] s[i]).address@ == address].amount
    } else {
        0
    }
}

impl Blockchain {
    /// The token entries.
    pub open spec fn spec_tokens(self) -> Seq<TokenEntry> {
        self.tokens@
    }

    /// Ledger invariant: token ids, staker addresses and nonce
    /// addresses are each unique, and every token is well-formed.
    pub open spec fn wf(self) -> bool {
        &&& forall|i: int, j: int|
            #![trigger self.tokens@[i], self.tokens@[j]]
            0 <= i < j < self.tokens@.len() ==> self.tokens@[i].id@ != self.tokens@[j].id@
        &&& forall|i: int| 0 <= i < self.tokens@.len() ==> (#[trigger] self.tokens@[i]).token.wf()
        &&& forall|i: int, j: int|
            #![trigger self.stakers@[i], self.stakers@[j]]
            0 <= i < j < self.stakers@.len() ==> self.stakers@[i].address@
                != self.stakers@[j].address@
        &&& forall|i: int, j: int|
            #![trigger self.nonces@[i], self.nonces@[j]]
            0 <= i < j < self.nonces@.len() ==> self.nonces@[i].address@
                != self.nonces@[j].address@
    }

    /// Whether a token with this id exists.
    pub open spec fn spec_has_token(self, id: Seq<char>) -> bool {
        has_token_in(self.tokens@, id)
    }

    /// Index of the token with this id (meaningful only when present).
    pub open spec fn spec_token_idx(self, id: Seq<char>) -> int {
        token_idx_in(self.tokens@, id)
    }

    /// The token with this id (meaningful only when present).
    pub open spec fn spec_token(self, id: Seq<char>) -> Token {
        self.tokens@[self.spec_token_idx(id)].token
    }

    /// The last accepted nonce for an address; zero when none was.
    pub open spec fn spec_last_nonce(self, address: Seq<char>) -> u64 {
        last_nonce_in(self.nonces@, address)
    }

    /// The stake of an address; zero when it staked nothing.
    pub open spec fn spec_stake_of(self, address: Seq<char>) -> u64 {
        stake_in(self.stakers@, address)
    }

    /// A fresh ledger, already holding the quantum secure token under
    /// id `0`.
    pub fn new() -> (b: Self)
        ensures
            b.wf(),
            b.chain@.len() == 0,
            b.stakers@.len() == 0,
            b.nonces@.len() == 0,
            b.pending_transactions@.len() == 0,
            b.next_token_id == 1,
            b.spec_has_token("0"@),
    {
        let mut blockchain = Blockchain {
            tokens: Vec::new(),
            stakers: Vec::new(),
            chain: Vec::new(),
            next_token_id: 0,
            nonces: Vec::new(),
            pending_transactions: Vec::new(),
            blocks: Vec::new(),
            transactions: Vec::new(),
        };
        blockchain.create_quantum_secure_token();
        blockchain
    }

    /// Creates (or recreates) the quantum secure token under id `0`
    /// and points the next id past it.
    pub fn create_quantum_secure_token(&mut self)
        requires
            old(self).wf(),
        ensures
            final(self).wf(),
            final(self).spec_has_token("0"@),
            final(self).next_token_id == 1,
            final(self).chain == old(self).chain,
            final(self).stakers == old(self).stakers,
            final(self).nonces == old(self).nonces,
            final(self).pending_transactions == old(self).pending_transactions,
    {
        let quantum_token = Token::new(
            String::from_str("Quantum Secure Token"),
            String::from_str("QST"),
            1000000,
            String::from_str("system"),
        );
        self.put_token(String::from_str("0"), quantum_token);
        self.next_token_id = 1;
    }

    /// Stores a token under an id, replacing any token the id held.
    fn put_token(&mut self, id: String, token: Token)
        requires
            old(self).wf(),
            token.wf(),
        ensures
            final(self).wf(),
            final(self).spec_has_token(id@),
            final(self).spec_token(id@) == token,
            final(self).chain == old(self).chain,
            final(self).stakers == old(self).stakers,
            final(self).nonces == old(self).nonces,
            final(self).pending_transactions == old(self).pending_transactions,
            final(self).next_token_id == old(self).next_token_id,
    {
        let n = self.tokens.len();
        let mut k: usize = 0;
        while k < n
            invariant
                0 <= k <= n,
                n == self.tokens@.len(),
                *self == *old(self),
                self.wf(),
                token.wf(),
                forall|j: int| 0 <= j < k ==> self.tokens@[j].id@ != id@,
            decreases n - k,
        {
            if str_eq(self.tokens[k].id.as_str(), id.as_str()) {
                let ghost orig = *old(self);
                let _old_entry = self.tokens.remove(k);
                self.tokens.insert(k, TokenEntry { id, token });
                proof {
                    let s = orig.tokens@;
                    let t = self.tokens@;
                    assert(t =~= s.update(k as int, t[k as int]));
                    assert forall|i: int, j: int| 0 <= i < j < t.len() implies t[i].id@
                        != t[j].id@ by {
                        assert(s[i].id@ != s[j].id@);
                        if i != k as int {
                            assert(t[i] == s[i]);
                        }
                        if j != k as int {
                            assert(t[j] == s[j]);
                        }
                    }
                    assert forall|i: int| 0 <= i < t.len() implies (#[trigger] t[i]).token.wf() by {
                        if i != k as int {
                            assert(t[i] == s[i]);
                        }
                    }
                    assert(self.wf());
                    lemma_token_idx_in(self.tokens@, t[k as int].id@, k as int);
                }
                return;
            }
            k = k + 1;
        }
        let ghost before = *self;
        let ghost idv = id@;
        self.tokens.push(TokenEntry { id, token });
        proof {
            let s = before.tokens@;
            let t = self.tokens@;
            assert forall|i: int, j: int| 0 <= i < j < t.len() implies t[i].id@ != t[j].id@ by {
                if j == s.len() {
                    assert(t[i] == s[i]);
                    assert(s[i].id@ != idv);
                } else {
                    assert(t[i] == s[i]);
                    assert(t[j] == s[j]);
                }
            }
            assert forall|i: int| 0 <= i < t.len() implies (#[trigger] t[i]).token.wf() by {
                if i < s.len() {
                    assert(t[i] == s[i]);
                }
            }
            assert(self.wf());
            lemma_token_idx_in(self.tokens@, idv, s.len() as int);
        }
    }

    /// The token stored under an id; `None` exactly when the id is
    /// unknown.
    pub fn get_token(&self, id: &str) -> (r: Option<&Token>)
        requires
            self.wf(),
        ensures
            match r {
                Some(t) => self.spec_has_token(id@) && *t == self.spec_token(id@),
                None => !self.spec_has_token(id@),
            },
    {
        let n = self.tokens.len();
        let mut k: usize = 0;
        while k < n
            invariant
                0 <= k <= n,
                n == self.tokens@.len(),
                self.wf(),
                forall|j: int| 0 <= j < k ==> self.tokens@[j].id@ != id@,
            decreases n - k,
        {
            if str_eq(self.tokens[k].id.as_str(), id) {
                proof {
                    lemma_token_idx_in(self.tokens@, id@, k as int);
                }
                return Some(&self.tokens[k].token);
            }
            k = k + 1;
        }
        None
    }

    /// Creates a user token under the next free decimal id and hands
    /// the id back.
    pub fn create_token(
        &mut self,
        name: String,
        symbol: String,
        initial_supply: u64,
        creator: String,
    ) -> (r: Result<String, TransactionError>)
        requires
            old(self).wf(),
            old(self).next_token_id < u64::MAX,
        ensures
            final(self).wf(),
            final(self).next_token_id == old(self).next_token_id + 1,
            r matches Ok(id) && id@ == spec_dec(old(self).next_token_id as nat) && final(
                self).spec_has_token(id@) && final(self).spec_token(id@).name == name && final(
                self).spec_token(id@).symbol == symbol && final(self).spec_token(id@).total_supply
                == initial_supply && final(self).spec_token(id@).creator == creator,
    {
        let token = Token::new(name, symbol, initial_supply, creator);
        let token_id = u64_to_string(self.next_token_id);
        let id_clone = token_id.clone();
        self.put_token(id_clone, token);
        self.next_token_id = self.next_token_id + 1;
        Ok(token_id)
    }

    /// Builds a secure transaction for the transfer, verifies it, and
    /// queues its plain form with the next nonce for the sender.
    ///
    /// On success the sender's nonce is advanced and the transaction
    /// appended to the pending queue; on any failure the ledger is
    /// untouched. A sender whose nonce counter is exhausted is refused
    /// with `NonceOverflow`.
    pub fn add_transaction(&mut self, from: String, to: String, amount: u64) -> (r: Result<
        (),
        TransactionError,
    >)
        requires
            old(self).wf(),
        ensures
            final(self).wf(),
            r is Err ==> final(self).nonces == old(self).nonces && final(
                self).pending_transactions == old(self).pending_transactions,
            old(self).spec_last_nonce(from@) == u64::MAX ==> r matches Err(
                TransactionError::NonceOverflow,
            ),
            r is Ok ==> {
                &&& final(self).spec_last_nonce(from@) == old(self).spec_last_nonce(from@) + 1
                &&& final(self).pending_transactions@.len() == old(
                    self,
                ).pending_transactions@.len() + 1
                &&& {
                    let t = final(self).pending_transactions@.last();
                    &&& t.from@ == from@
                    &&& t.to@ == to@
                    &&& t.amount == amount
                    &&& t.nonce == old(self).spec_last_nonce(from@) + 1
                }
            },
            final(self).chain == old(self).chain,
            final(self).tokens == old(self).tokens,
            final(self).stakers == old(self).stakers,
    {
        let last = self.last_nonce_of(from.as_str());
        if last == u64::MAX {
            return Err(TransactionError::NonceOverflow);
        }
        let nonce = last + 1;
        let timestamp = now_secs();
        let from_clone = from.clone();
        let to_clone = to.clone();
        let secure_transaction = match SecureTransaction::new(
            from_clone,
            to_clone,
            amount,
            timestamp,
            nonce,
        ) {
            Ok(t) => t,
            Err(e) => {
                return Err(e);
            },
        };
        match secure_transaction.verify() {
            Ok(_) => {},
            Err(e) => {
                return Err(e);
            },
        }
        let transaction = Transaction {
            token_id: 0,
            from: secure_transaction.from,
            to: secure_transaction.to,
            amount: secure_transaction.amount,
            timestamp: secure_transaction.timestamp,
            nonce: secure_transaction.nonce,
            public_key: Vec::new(),
            signature: Vec::new(),
            transaction_hash: Vec::new(),
        };
        self.put_nonce(from, nonce);
        self.pending_transactions.push(transaction);
        Ok(())
    }

    /// The last accepted nonce for an address; zero when none was.
    pub fn last_nonce_of(&self, address: &str) -> (r: u64)
        requires
            self.wf(),
        ensures
            r == self.spec_last_nonce(address@),
    {
        let n = self.nonces.len();
        let mut k: usize = 0;
        while k < n
            invariant
                0 <= k <= n,
                n == self.nonces@.len(),
                self.wf(),
                forall|j: int| 0 <= j < k ==> self.nonces@[j].address@ != address@,
            decreases n - k,
        {
            if str_eq(self.nonces[k].address.as_str(), address) {
                proof {
                    lemma_last_nonce_at(self.nonces@, address@, k as int);
                }
                return self.nonces[k].nonce;
            }
            k = k + 1;
        }
        0
    }

    /// Records the last accepted nonce for an address, replacing any
    /// earlier record.
    fn put_nonce(&mut self, address: String, nonce: u64)
        requires
            old(self).wf(),
        ensures
            final(self).wf(),
            final(self).spec_last_nonce(address@) == nonce,
            final(self).chain == old(self).chain,
            final(self).tokens == old(self).tokens,
            final(self).stakers == old(self).stakers,
            final(self).pending_transactions == old(self).pending_transactions,
            final(self).next_token_id == old(self).next_token_id,
    {
        let n = self.nonces.len();
        let mut k: usize = 0;
        while k < n
            invariant
                0 <= k <= n,
                n == self.nonces@.len(),
                *self == *old(self),
                self.wf(),
                forall|j: int| 0 <= j < k ==> self.nonces@[j].address@ != address@,
            decreases n - k,
        {
            if str_eq(self.nonces[k].address.as_str(), address.as_str()) {
                let ghost orig = *old(self);
                let entry = self.nonces.remove(k);
                self.nonces.insert(k, NonceEntry { address: entry.address, nonce });
                proof {
                    let s = orig.nonces@;
                    let t = self.nonces@;
                    assert(t =~= s.update(k as int, t[k as int]));
                    assert forall|i: int, j: int| 0 <= i < j < t.len() implies t[i].address@
                        != t[j].address@ by {
                        assert(s[i].address@ != s[j].address@);
                        if i != k as int {
                            assert(t[i] == s[i]);
                        }
                        if j != k as int {
                            assert(t[j] == s[j]);
                        }
                    }
                    lemma_last_nonce_at(self.nonces@, t[k as int].address@, k as int);
                }
                return;
            }
            k = k + 1;
        }
        let ghost before = *self;
        let ghost adv = address@;
        self.nonces.push(NonceEntry { address, nonce });
        proof {
            let s = before.nonces@;
            let t = self.nonces@;
            assert forall|i: int, j: int| 0 <= i < j < t.len() implies t[i].address@
                != t[j].address@ by {
                if j == s.len() {
                    assert(t[i] == s[i]);
                    assert(s[i].address@ != adv);
                } else {
                    assert(t[i] == s[i]);
                    assert(t[j] == s[j]);
                }
            }
            lemma_last_nonce_at(self.nonces@, adv, s.len() as int);
        }
    }

    /// Adds to an address's stake; a first stake starts from zero.
    pub fn add_staker(&mut self, address: String, amount: u64)
        requires
            old(self).wf(),
            old(self).spec_stake_of(address@) + amount <= u64::MAX,
        ensures
            final(self).wf(),
            final(self).spec_stake_of(address@) == old(self).spec_stake_of(address@) + amount,
            final(self).chain == old(self).chain,
            final(self).tokens == old(self).tokens,
            final(self).nonces == old(self).nonces,
            final(self).pending_transactions == old(self).pending_transactions,
    {
        let n = self.stakers.len();
        let mut k: usize = 0;
        while k < n
            invariant
                0 <= k <= n,
                n == self.stakers@.len(),
                *self == *old(self),
                self.wf(),
                old(self).spec_stake_of(address@) + amount <= u64::MAX,
                forall|j: int| 0 <= j < k ==> self.stakers@[j].address@ != address@,
            decreases n - k,
        {
            if str_eq(self.stakers[k].address.as_str(), address.as_str()) {
                proof {
                    lemma_stake_at(self.stakers@, address@, k as int);
                }
                let ghost orig = *old(self);
                let entry = self.stakers.remove(k);
                let total = entry.amount + amount;
                self.stakers.insert(k, StakeEntry { address: entry.address, amount: total });
                proof {
                    let s = orig.stakers@;
                    let t = self.stakers@;
                    assert(t =~= s.update(k as int, t[k as int]));
                    assert forall|i: int, j: int| 0 <= i < j < t.len() implies t[i].address@
                        != t[j].address@ by {
                        assert(s[i].address@ != s[j].address@);
                        if i != k as int {
                            assert(t[i] == s[i]);
                        }
                        if j != k as int {
                            assert(t[j] == s[j]);
                        }
                    }
                    lemma_stake_at(self.stakers@, t[k as int].address@, k as int);
                }
                return;
            }
            k = k + 1;
        }
        let ghost before = *self;
        let ghost adv = address@;
        self.stakers.push(StakeEntry { address, amount });
        proof {
            let s = before.stakers@;
            let t = self.stakers@;
            assert forall|i: int, j: int| 0 <= i < j < t.len() implies t[i].address@
                != t[j].address@ by {
                if j == s.len() {
                    assert(t[i] == s[i]);
                    assert(s[i].address@ != adv);
                } else {
                    assert(t[i] == s[i]);
                    assert(t[j] == s[j]);
                }
            }
            lemma_stake_at(self.stakers@, adv, s.len() as int);
        }
    }
}

proof fn lemma_token_idx_in(s: Seq<TokenEntry>, id: Seq<char>, k: int)
    requires
        forall|i: int, j: int| #![trigger s[i], s[j]] 0 <= i < j < s.len() ==> s[i].id@ != s[j].id@,
        0 <= k < s.len(),
        s[k].id@ == id,
    ensures
        has_token_in(s, id),
        token_idx_in(s, id) == k,
{
    assert(has_token_in(s, id));
    let i = token_idx_in(s, id);
    assert(0 <= i < s.len() && s[i].id@ == id);
    if i != k {
        let a: int = if i < k {
            i
        } else {
            k
        };
        let b: int = if i < k {
            k
        } else {
            i
        };
        assert(s[a].id@ != s[b].id@);
        assert(false);
    }
}

proof fn lemma_last_nonce_at(s: Seq<NonceEntry>, address: Seq<char>, k: int)
    requires
        forall|i: int, j: int|
            #![trigger s[i], s[j]]
            0 <= i < j < s.len() ==> s[i].address@ != s[j].address@,
        0 <= k < s.len(),
        s[k].address@ == address,
    ensures
        last_nonce_in(s, address) == s[k].nonce,
{
    assert(exists|i: int| 0 <= i < s.len() && (#[trigger] s[i]).address@ == address);
    let i = choose|i: int| 0 <= i < s.len() && (#[trigger] s[i]).address@ == address;
    assert(0 <= i < s.len() && s[i].address@ == address);
    if i != k {
        let a: int = if i < k {
            i
        } else {
            k
        };
        let b: int = if i < k {
            k
        } else {
            i
        };
        assert(s[a].address@ != s[b].address@);
        assert(false);
    }
}

proof fn lemma_stake_at(s: Seq<StakeEntry>, address: Seq<char>, k: int)
    requires
        forall|i: int, j: int|
            #![trigger s[i], s[j]]
            0 <= i < j < s.len() ==> s[i].address@ != s[j].address@,
        0 <= k < s.len(),
        s[k].address@ == address,
    ensures
        stake_in(s, address) == s[k].amount,
{
    assert(exists|i: int| 0 <= i < s.len() && (#[trigger] s[i]).address@ == address);
    let i = choose|i: int| 0 <= i < s.len() && (#[trigger] s[i]).address@ == address;
    assert(0 <= i < s.len() && s[i].address@ == address);
    if i != k {
        let a: int = if i < k {
            i
        } else {
            k
        };
        let b: int = if i < k {
            k
        } else {
            i
        };
        assert(s[a].address@ != s[b].address@);
        assert(false);
    }
}


impl Blockchain {
    /// Validates an incoming transaction against the ledger at the
    /// wall clock of the moment of the call, and on success advances
    /// the sender's nonce and queues the transaction; a rejected
    /// transaction leaves the ledger untouched. Apart from the clock
    /// reading the verdict is exactly [`spec_validar`], taken at the
    /// sender's current nonce.
    pub fn adicionar_transacao(&mut self, transaction: Transaction) -> (r: Result<
        (),
        TransacaoErro,
    >)
        requires
            old(self).wf(),
        ensures
            final(self).wf(),
            exists|now_s: i64|
                {
                    let verdict = #[trigger] spec_validar(
                        transaction,
                        *old(self),
                        old(self).spec_last_nonce(transaction.from@),
                        now_s,
                    );
                    &&& now_s >= 0
                    &&& verdict is Err ==> r == Err::<(), TransacaoErro>(verdict->Err_0) && *final(
                        self) == *old(self)
                    &&& verdict is Ok ==> r is Ok && final(self).spec_last_nonce(transaction.from@)
                        == old(self).spec_last_nonce(transaction.from@) + 1 && final(
                        self).pending_transactions@ == old(self).pending_transactions@.push(
                        transaction,
                    ) && final(self).chain == old(self).chain && final(self).tokens == old(
                        self).tokens && final(self).stakers == old(self).stakers
                },
    {
        let nonce_atual = self.last_nonce_of(transaction.from.as_str());
        let now_s = now_secs();
        match validar_transacao_at(&transaction, self, nonce_atual, now_s) {
            Err(e) => {
                proof {
                    assert(now_s >= 0 && spec_validar(
                        transaction,
                        *old(self),
                        nonce_atual,
                        now_s,
                    ) == Err::<(), TransacaoErro>(e));
                }
                return Err(e);
            },
            Ok(_) => {},
        }
        proof {
            assert(transaction.nonce == nonce_atual + 1);
        }
        let from_clone = transaction.from.clone();
        self.put_nonce(from_clone, nonce_atual + 1);
        self.pending_transactions.push(transaction);
        Ok(())
    }
}


impl Blockchain {
    /// Re-wraps each queued transaction as a secure transaction,
    /// verifies every one, and seals them into a new block linked to
    /// the current chain tip. The hash over the block's contents is
    /// handed in by the caller, since hashing is the crypto
    /// collaborator's concern.
    ///
    /// On success the chain grows by exactly one block, correctly
    /// linked and numbered; on any failure it is untouched.
    pub fn add_block(
        &mut self,
        transactions: Vec<Transaction>,
        contracts: Vec<SmartContract>,
        hash: String,
    ) -> (r: Result<(), TransactionError>)
        requires
            old(self).wf(),
            old(self).chain@.len() > 0 ==> old(self).chain@.last().index < u64::MAX,
        ensures
            final(self).wf(),
            r is Err ==> *final(self) == *old(self),
            r is Ok ==> {
                &&& final(self).chain@.len() == old(self).chain@.len() + 1
                &&& final(self).chain@.take(old(self).chain@.len() as int) == old(self).chain@
                &&& {
                    let b = final(self).chain@.last();
                    &&& b.hash == hash
                    &&& b.transactions@.len() == transactions@.len()
                    &&& (old(self).chain@.len() == 0 ==> b.index == 0 && b.previous_hash@ == "0"@)
                    &&& (old(self).chain@.len() > 0 ==> b.index == old(self).chain@.last().index
                        + 1 && b.previous_hash == old(self).chain@.last().hash)
                }
                &&& final(self).tokens == old(self).tokens
                &&& final(self).nonces == old(self).nonces
                &&& final(self).stakers == old(self).stakers
                &&& final(self).pending_transactions == old(self).pending_transactions
            },
    {
        let n = transactions.len();
        let mut secure_transactions: Vec<SecureTransaction> = Vec::new();
        let mut k: usize = 0;
        while k < n
            invariant
                0 <= k <= n,
                n == transactions@.len(),
                secure_transactions@.len() == k,
                self.wf(),
                *self == *old(self),
            decreases n - k,
        {
            let t = &transactions[k];
            let st = match SecureTransaction::new(
                t.from.clone(),
                t.to.clone(),
                t.amount,
                t.timestamp,
                t.nonce,
            ) {
                Ok(st) => st,
                Err(e) => {
                    return Err(e);
                },
            };
            match st.verify() {
                Ok(_) => {},
                Err(e) => {
                    return Err(e);
                },
            }
            secure_transactions.push(st);
            k = k + 1;
        }
        let chain_len = self.chain.len();
        let previous_hash = if chain_len == 0 {
            String::from_str("0")
        } else {
            self.chain[chain_len - 1].hash.clone()
        };
        let new_index = if chain_len == 0 {
            0
        } else {
            self.chain[chain_len - 1].index + 1
        };
        let new_block = Block::new(new_index, secure_transactions, contracts, previous_hash, hash);
        self.chain.push(new_block);
        proof {
            assert(self.chain@.take(old(self).chain@.len() as int) =~= old(self).chain@);
        }
        Ok(())
    }

    /// Verifies a detached signature over a transaction's
    /// `from:to:amount:timestamp` summary, under the given public key;
    /// the signature scheme decides the outcome. The key must have the
    /// scheme's exact length and the signature must not be oversized.
    pub fn validar_assinatura(
        transaction: &Transaction,
        public_key: &[u8],
        signature: &[u8],
    ) -> (r: bool)
        requires
            public_key@.len() == crate::crypto::DILITHIUM5_PUBLIC_KEY_BYTES,
            signature@.len() <= crate::crypto::DILITHIUM5_SIGNATURE_BYTES,
    {
        let pk = match crate::crypto::dilithium_public_key_from_bytes(public_key) {
            Some(pk) => pk,
            None => {
                return false;
            },
        };
        let mut s = String::new();
        s.append(transaction.from.as_str());
        s.append(":");
        s.append(transaction.to.as_str());
        s.append(":");
        let amount = u64_to_string(transaction.amount);
        s.append(amount.as_str());
        s.append(":");
        let timestamp = crate::strutil::i64_to_string(transaction.timestamp);
        s.append(timestamp.as_str());
        let data = crate::strutil::string_bytes(&s);
        crate::crypto::dilithium_verify_detached(signature, data.as_slice(), &pk)
    }
}

} // verus!
