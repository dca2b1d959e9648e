//! Directory of known validators.
//!
//! The consensus layer consults this registry for three questions: is an
//! id known, is it active, and how many validators are active. Entries
//! are keyed by id; the registry never holds two entries for one id.

use vstd::prelude::*;
use crate::strutil::str_eq;

verus! {

/// One entry of the validator directory.
#[derive(Clone, Debug)]
pub struct Validator {
    /// Unique identifier of the validator.
    pub id: String,
    /// Whether the validator currently takes part in consensus.
    pub is_active: bool,
}

/// Number of active validators among `s`.
pub open spec fn active_count_of(s: Seq<Validator>) -> nat {
    s.filter(|v: Validator| v.is_active).len()
}

proof fn lemma_active_count_push(s: Seq<Validator>, v: Validator)
    ensures
        active_count_of(s.push(v)) == active_count_of(s) + (if v.is_active {
            1nat
        } else {
            0nat
        }),
{
    broadcast use Seq::lemma_filter_push, Seq::lemma_filter_len_push;

}

/// Registry of validators, keyed by id.
#[derive(Debug)]
pub struct ValidatorSet {
    /// The registered validators, in registration order; ids are unique
    /// whenever [`ValidatorSet::wf`] holds, which every method preserves.
    pub validators: Vec<Validator>,
}

impl ValidatorSet {
    /// The entries, in registration order.
    pub open spec fn entries(self) -> Seq<Validator> {
        self.validators@
    }

    /// Well-formed: no two entries share an id.
    pub open spec fn wf(self) -> bool {
        forall|i: int, j: int|
            #![trigger self.entries()[i], self.entries()[j]]
            0 <= i < j < self.entries().len() ==> self.entries()[i].id@ != self.entries()[j].id@
    }

    /// Whether some entry carries this id.
    pub open spec fn spec_contains(self, id: Seq<char>) -> bool {
        exists|i: int| 0 <= i < self.entries().len() && self.entries()[i].id@ == id
    }

    /// Index of the entry with this id (meaningful only when present).
    pub open spec fn spec_idx(self, id: Seq<char>) -> int {
        choose|i: int| 0 <= i < self.entries().len() && self.entries()[i].id@ == id
    }

    /// Whether the validator with this id is registered and active.
    pub open spec fn spec_is_active(self, id: Seq<char>) -> bool {
        self.spec_contains(id) && self.entries()[self.spec_idx(id)].is_active
    }

    /// Number of active entries.
    pub open spec fn spec_active_count(self) -> nat {
        active_count_of(self.entries())
    }

    /// An empty directory.
    pub fn new() -> (s: Self)
        ensures
            s.wf(),
            s.entries() == Seq::<Validator>::empty(),
    {
        ValidatorSet { validators: Vec::new() }
    }

    /// Registers a validator; a second registration of the same id is a
    /// no-op.
    pub fn add_validator(&mut self, id: String, is_active: bool)
        requires
            old(self).wf(),
        ensures
            final(self).wf(),
            old(self).spec_contains(id@) ==> final(self).entries() == old(self).entries(),
            !old(self).spec_contains(id@) ==> final(self).entries() == old(self).entries().push(
                Validator { id, is_active },
            ),
    {
        if self.contains(id.as_str()) {
            return;
        }
        let ghost s = self.entries();
        let ghost idv = id@;
        self.validators.push(Validator { id, is_active });
        proof {
            let t = self.entries();
            assert forall|i: int, j: int| 0 <= i < j < t.len() implies t[i].id@ != t[j].id@ by {
                if j == s.len() {
                    assert(t[i] == s[i]);
                    assert(s[i].id@ != idv);
                } else {
                    assert(t[i] == s[i]);
                    assert(t[j] == s[j]);
                }
            }
        }
    }

    /// Whether this id is registered.
    pub fn contains(&self, id: &str) -> (r: bool)
        ensures
            r == self.spec_contains(id@),
    {
        let n = self.validators.len();
        let mut k: usize = 0;
        while k < n
            invariant
                0 <= k <= n,
                n == self.entries().len(),
                forall|j: int| 0 <= j < k ==> self.entries()[j].id@ != id@,
            decreases n - k,
        {
            if str_eq(self.validators[k].id.as_str(), id) {
                return true;
            }
            k = k + 1;
        }
        false
    }

    /// Looks an id up; `None` exactly when the id is unknown.
    pub fn get_validator(&self, id: &str) -> (r: Option<&Validator>)
        requires
            self.wf(),
        ensures
            match r {
                Some(v) => self.spec_contains(id@) && *v == self.entries()[self.spec_idx(id@)]
                    && v.id@ == id@,
                None => !self.spec_contains(id@),
            },
    {
        let n = self.validators.len();
        let mut k: usize = 0;
        while k < n
            invariant
                0 <= k <= n,
                n == self.entries().len(),
                self.wf(),
                forall|j: int| 0 <= j < k ==> self.entries()[j].id@ != id@,
            decreases n - k,
        {
            if str_eq(self.validators[k].id.as_str(), id) {
                proof {
                    assert(self.entries()[k as int].id@ == id@);
                    assert(self.spec_contains(id@));
                    let i = self.spec_idx(id@);
                    assert(0 <= i < self.entries().len() && self.entries()[i].id@ == id@);
                    if i != k as int {
                        let a: int = if i < k as int {
                            i
                        } else {
                            k as int
                        };
                        let b: int = if i < k as int {
                            k as int
                        } else {
                            i
                        };
                        assert(0 <= a < b < self.entries().len());
                        assert(self.entries()[a].id@ != self.entries()[b].id@);
                        assert(false);
                    }
                    assert(i == k as int);
                }
                return Some(&self.validators[k]);
            }
            k = k + 1;
        }
        None
    }

    /// How many registered validators are active.
    pub fn count_active(&self) -> (r: usize)
        ensures
            r == self.spec_active_count(),
    {
        let n = self.validators.len();
        let mut count: usize = 0;
        let mut k: usize = 0;
        while k < n
            invariant
                0 <= k <= n,
                n == self.entries().len(),
                count == active_count_of(self.entries().take(k as int)),
                count <= k,
            decreases n - k,
        {
            proof {
                assert(self.entries().take(k as int + 1) =~= self.entries().take(k as int).push(
                    self.entries()[k as int],
                ));
                lemma_active_count_push(self.entries().take(k as int), self.entries()[k as int]);
            }
            if self.validators[k].is_active {
                count = count + 1;
            }
            k = k + 1;
        }
        proof {
            assert(self.entries().take(n as int) =~= self.entries());
        }
        count
    }
}

} // verus!
