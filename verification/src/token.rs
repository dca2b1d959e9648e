//! A minimal fungible token: metadata and per-address balances.

use vstd::prelude::*;
use crate::strutil::str_eq;

verus! {

/// One address's balance.
#[derive(Debug, Clone)]
pub struct BalanceEntry {
    /// The holding address.
    pub address: String,
    /// The held amount.
    pub amount: u64,
}

/// A fungible token; on creation the whole supply sits with the
/// creator.
#[derive(Debug, Clone)]
pub struct Token {
    /// Human-readable name.
    pub name: String,
    /// Ticker symbol.
    pub symbol: String,
    /// Total amount in existence.
    pub total_supply: u64,
    /// Address of the creator.
    pub creator: String,
    /// Per-address balances; addresses are unique whenever
    /// [`Token::wf`] holds, which every method preserves.
    pub balances: Vec<BalanceEntry>,
}

impl Token {
    /// The balance entries.
    pub open spec fn spec_balances(self) -> Seq<BalanceEntry> {
        self.balances@
    }

    /// Token invariant: no address holds two balance entries.
    pub open spec fn wf(self) -> bool {
        forall|i: int, j: int|
            #![trigger self.spec_balances()[i], self.spec_balances()[j]]
            0 <= i < j < self.spec_balances().len() ==> self.spec_balances()[i].address@
                != self.spec_balances()[j].address@
    }

    /// The balance of an address; zero when it holds no entry.
    pub open spec fn spec_balance_of(self, address: Seq<char>) -> u64 {
        if exists|i: int|
            0 <= i < self.spec_balances().len() && (#[trigger] self.spec_balances()[i]).address@
                == address {
            self.spec_balances()[choose|i: int|
                0 <= i < self.spec_balances().len() && (#[trigger] self.spec_balances()[i]).address@
                    == address].amount
        } else {
            0
        }
    }

    /// A new token whose whole supply sits with the creator.
    pub fn new(name: String, symbol: String, initial_supply: u64, creator: String) -> (t: Token)
        ensures
            t.wf(),
            t.name == name,
            t.symbol == symbol,
            t.total_supply == initial_supply,
            t.creator == creator,
            t.spec_balance_of(creator@) == initial_supply,
    {
        let holder = creator.clone();
        let mut balances: Vec<BalanceEntry> = Vec::new();
        balances.push(BalanceEntry { address: holder, amount: initial_supply });
        let t = Token { name, symbol, total_supply: initial_supply, creator, balances };
        proof {
            assert(t.spec_balances().len() == 1);
            assert(t.spec_balances()[0].address@ == t.creator@);
        }
        t
    }

    /// The balance held by an address; zero for an unknown address.
    pub fn balance_of(&self, address: &str) -> (r: u64)
        requires
            self.wf(),
        ensures
            r == self.spec_balance_of(address@),
    {
        let n = self.balances.len();
        let mut k: usize = 0;
        while k < n
            invariant
                0 <= k <= n,
                n == self.spec_balances().len(),
                self.wf(),
                forall|j: int| 0 <= j < k ==> self.spec_balances()[j].address@ != address@,
            decreases n - k,
        {
            if str_eq(self.balances[k].address.as_str(), address) {
                proof {
                    let i = choose|i: int|
                        0 <= i < self.spec_balances().len() && (#[trigger] self.spec_balances()[
                            i
                        ]).address@ == address@;
                    if i != k as int {
                        let a: int = if i < k as int {
                            i
                        } else {
                            k as int
                        };
                        let b: int = if i < k as int {
                            k as int
                        } else {
                            i
                        };
                        assert(self.spec_balances()[a].address@ != self.spec_balances()[
                            b
                        ].address@);
                        assert(false);
                    }
                }
                return self.balances[k].amount;
            }
            k = k + 1;
        }
        0
    }
}

} // verus!
