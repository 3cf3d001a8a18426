//! The Trove store: an owner-keyed table of Trove records together with a
//! co-maintained index on the trove's owner value.  Both structures are
//! updated inside the single `set`/`delete` entry points, so neither can
//! drift from the other.  Accessors return owned copies, never aliases.

use vstd::prelude::*;
use crate::error::ContractError;
use crate::trove_manager::{Trove, TroveView};

verus! {

/// The mathematical value of an optional Trove.
pub open spec fn opt_trove_view(o: Option<Trove>) -> Option<TroveView> {
    match o {
        Some(t) => Some(t@),
        None => None,
    }
}

/// One row of the primary table.
pub struct TroveEntry {
    pub key: String,
    pub trove: Trove,
}

/// One row of the owner index: the owner value a stored trove carries,
/// paired with the primary key it is stored under.
pub struct IndexEntry {
    pub owner: String,
    pub key: String,
}

/// The primary key → Trove table plus the owner index.  The primary key is
/// the string form of the controlling address; the index still records the
/// trove's own owner value, which need not equal the key.
pub struct Troves {
    /// Storage namespace label of the primary table.
    pub namespace: String,
    /// Storage namespace label of the owner index.
    pub index_namespace: String,
    /// The primary table; keys are pairwise distinct.
    pub entries: Vec<TroveEntry>,
    /// The owner index, aligned row for row with `entries`.
    pub index: Vec<IndexEntry>,
}

impl Troves {
    /// Well-formedness: keys are pairwise distinct and the index holds,
    /// row for row, the owner value and key of the primary table.
    pub open spec fn wf(self) -> bool {
        &&& self.index@.len() == self.entries@.len()
        &&& (forall|i: int, j: int|
            0 <= i < j < self.entries@.len() ==> self.entries@[i].key@ != self.entries@[j].key@)
        &&& (forall|i: int|
            0 <= i < self.entries@.len() ==> self.index@[i].key@ == self.entries@[i].key@
                && self.index@[i].owner@ == self.entries@[i].trove.owner@)
    }

    /// Whether some row of the primary table is stored under `key`.
    pub open spec fn spec_contains(self, key: Seq<char>) -> bool {
        exists|i: int| 0 <= i < self.entries@.len() && self.entries@[i].key@ == key
    }

    /// The row index holding `key`, when one exists.
    pub open spec fn key_index(self, key: Seq<char>) -> int {
        choose|i: int| 0 <= i < self.entries@.len() && self.entries@[i].key@ == key
    }

    /// The store as a mathematical map from key to stored Trove.
    pub open spec fn contents(self) -> Map<Seq<char>, TroveView> {
        Map::new(
            |k: Seq<char>| self.spec_contains(k),
            |k: Seq<char>| self.entries@[self.key_index(k)].trove@,
        )
    }

    /// What `get` returns for `key`: the stored Trove, or absence.
    pub open spec fn spec_get(self, key: Seq<char>) -> Option<TroveView> {
        if self.spec_contains(key) {
            Some(self.contents()[key])
        } else {
            None
        }
    }

    /// An empty store carrying the two storage namespace labels.
    pub fn new(namespace: &str, troves_by_addr_idx_namespace: &str) -> (s: Troves)
        ensures
            s.wf(),
            s.contents() =~= Map::<Seq<char>, TroveView>::empty(),
            s.namespace@ == namespace@,
            s.index_namespace@ == troves_by_addr_idx_namespace@,
    {
        Troves {
            namespace: namespace.to_owned(),
            index_namespace: troves_by_addr_idx_namespace.to_owned(),
            entries: Vec::new(),
            index: Vec::new(),
        }
    }

    /// The row index stored under `owner`, searched linearly.
    fn find(&self, owner: &String) -> (res: Option<usize>)
        ensures
            match res {
                Some(i) => i < self.entries@.len() && self.entries@[i as int].key@ == owner@,
                None => !self.spec_contains(owner@),
            },
    {
        let n = self.entries.len();
        let mut i: usize = 0;
        while i < n
            invariant
                n == self.entries@.len(),
                i <= n,
                forall|j: int| 0 <= j < i ==> self.entries@[j].key@ != owner@,
            decreases n - i,
        {
            if self.entries[i].key.eq(owner) {
                return Some(i);
            }
            i += 1;
        }
        None
    }

    /// A copy of the Trove stored under `owner`; absence means the implicit
    /// `NonExistent` state.
    pub fn get(&self, owner: &String) -> (res: Option<Trove>)
        requires
            self.wf(),
        ensures
            match res {
                Some(t) => self.spec_get(owner@) == Some(t@),
                None => self.spec_get(owner@) is None,
            },
    {
        match self.find(owner) {
            Some(i) => {
                proof {
                    let j = self.key_index(owner@);
                    assert(self.spec_contains(owner@));
                    assert(self.entries@[j].key@ == owner@);
                    assert(j == i);
                }
                Some(self.entries[i].trove.clone())
            },
            None => None,
        }
    }

    /// Unconditional upsert: stores `grantee` under `owner` and refreshes
    /// the owner-index row in the same step.
    pub fn set(&mut self, owner: &String, grantee: Trove)
        requires
            old(self).wf(),
        ensures
            final(self).wf(),
            final(self).contents() == old(self).contents().insert(owner@, grantee@),
            final(self).namespace@ == old(self).namespace@,
            final(self).index_namespace@ == old(self).index_namespace@,
    {
        let idx_owner = grantee.owner.clone();
        match self.find(owner) {
            Some(i) => {
                self.entries.remove(i);
                self.index.remove(i);
                proof {
                    old(self).lemma_remove_post(*self, i as int, owner@);
                }
            },
            None => {
                proof {
                    assert(self.contents() =~= old(self).contents().remove(owner@));
                }
            },
        }
        let ghost mid = *self;
        self.entries.push(TroveEntry { key: owner.clone(), trove: grantee });
        self.index.push(IndexEntry { owner: idx_owner, key: owner.clone() });
        proof {
            self.lemma_set_post(mid, *old(self), owner@);
            assert(old(self).contents().remove(owner@).insert(owner@, grantee@) =~= old(
                self,
            ).contents().insert(owner@, grantee@));
        }
    }

    /// After removing any row keyed `key` and pushing a fresh one keyed
    /// `key`, the store is again well formed and its contents are the old
    /// contents with `key` rebound to the pushed trove.
    proof fn lemma_set_post(self, mid: Troves, orig: Troves, key: Seq<char>)
        requires
            orig.wf(),
            mid.wf(),
            mid.contents() == orig.contents().remove(key),
            self.entries@.len() == mid.entries@.len() + 1,
            self.entries@ == mid.entries@.push(self.entries@.last()),
            self.index@ == mid.index@.push(self.index@.last()),
            self.entries@.last().key@ == key,
            self.index@.last().key@ == key,
            self.index@.last().owner@ == self.entries@.last().trove.owner@,
        ensures
            self.wf(),
            self.contents() == mid.contents().insert(key, self.entries@.last().trove@),
    {
        let n = mid.entries@.len() as int;
        assert(!mid.contents().contains_key(key));
        assert(!mid.spec_contains(key));
        assert forall|i: int, j: int| 0 <= i < j < self.entries@.len() implies self.entries@[i].key@
            != self.entries@[j].key@ by {
            if j == n {
                assert(self.entries@[i] == mid.entries@[i]);
                if self.entries@[i].key@ == key {
                    assert(mid.spec_contains(key));
                }
            } else {
                assert(self.entries@[i] == mid.entries@[i]);
                assert(self.entries@[j] == mid.entries@[j]);
            }
        }
        assert(self.wf());
        assert forall|k: Seq<char>|
            #[trigger] self.contents().contains_key(k) == mid.contents().insert(
                key,
                self.entries@.last().trove@,
            ).contains_key(k) by {
            if k == key {
                assert(self.entries@[n].key@ == key);
                assert(self.spec_contains(key));
            } else {
                if self.spec_contains(k) {
                    let i = choose|i: int|
                        0 <= i < self.entries@.len() && self.entries@[i].key@ == k;
                    assert(i != n);
                    assert(mid.entries@[i].key@ == k);
                    assert(mid.spec_contains(k));
                }
                if mid.spec_contains(k) {
                    let i = choose|i: int| 0 <= i < mid.entries@.len() && mid.entries@[i].key@ == k;
                    assert(self.entries@[i].key@ == k);
                    assert(self.spec_contains(k));
                }
            }
        }
        assert forall|k: Seq<char>| self.contents().contains_key(k) implies self.contents()[k]
            == mid.contents().insert(key, self.entries@.last().trove@)[k] by {
            let i = self.key_index(k);
            assert(0 <= i < self.entries@.len() && self.entries@[i].key@ == k);
            if k == key {
                assert(i == n);
            } else {
                assert(i != n);
                assert(mid.entries@[i].key@ == k);
                assert(mid.spec_contains(k));
                let j = mid.key_index(k);
                assert(0 <= j < mid.entries@.len() && mid.entries@[j].key@ == k);
                assert(j == i);
                assert(mid.contents()[k] == mid.entries@[i].trove@);
                assert(self.contents()[k] == self.entries@[i].trove@);
            }
        }
        assert(self.contents() =~= mid.contents().insert(key, self.entries@.last().trove@));
    }

    /// Read-modify-write in one step: loads the current Trove (or absence),
    /// applies `action`, and persists the result on success.  On failure
    /// the store is untouched — the single point all mutating operations
    /// can flow through without partial writes.
    pub fn update<F: FnOnce(Option<Trove>) -> Result<Trove, ContractError>>(
        &mut self,
        owner: &String,
        action: F,
    ) -> (res: Result<Trove, ContractError>)
        requires
            old(self).wf(),
            forall|input: Option<Trove>|
                opt_trove_view(input) == old(self).spec_get(owner@) ==> #[trigger] action.requires(
                    (input,),
                ),
        ensures
            final(self).wf(),
            final(self).namespace@ == old(self).namespace@,
            final(self).index_namespace@ == old(self).index_namespace@,
            match res {
                Ok(t) => final(self).contents() == old(self).contents().insert(owner@, t@) && (
                exists|input: Option<Trove>|
                    opt_trove_view(input) == old(self).spec_get(owner@)
                        && #[trigger] action.ensures((input,), Ok(t))),
                Err(e) => *final(self) == *old(self) && (exists|input: Option<Trove>|
                    opt_trove_view(input) == old(self).spec_get(owner@)
                        && #[trigger] action.ensures((input,), Err(e))),
            },
    {
        let input = self.get(owner);
        let ghost input_g = input;
        match action(input) {
            Ok(t) => {
                let stored = t.clone();
                self.set(owner, stored);
                proof {
                    assert(action.ensures((input_g,), Ok(t)));
                }
                Ok(t)
            },
            Err(e) => {
                proof {
                    assert(action.ensures((input_g,), Err(e)));
                }
                Err(e)
            },
        }
    }

    /// The primary keys whose stored trove carries `owner` as its owner
    /// value, read off the owner index: every returned key is stored and
    /// owned by `owner`, and every stored row owned by `owner` is
    /// returned.
    pub fn troves_by_owner(&self, owner: &String) -> (res: Vec<String>)
        requires
            self.wf(),
        ensures
            forall|j: int|
                0 <= j < res@.len() ==> self.spec_contains(#[trigger] res@[j]@) && self.contents()[
                    res@[j]@
                ].owner == owner@,
            forall|i: int|
                0 <= i < self.entries@.len() && self.entries@[i].trove.owner@ == owner@
                    ==> exists|j: int|
                    0 <= j < res@.len() && res@[j]@ == #[trigger] self.entries@[i].key@,
    {
        let mut res: Vec<String> = Vec::new();
        let n = self.index.len();
        let mut i: usize = 0;
        while i < n
            invariant
                self.wf(),
                n == self.index@.len(),
                i <= n,
                forall|j: int|
                    0 <= j < res@.len() ==> exists|p: int|
                        0 <= p < i && #[trigger] res@[j]@ == self.entries@[p].key@
                            && self.entries@[p].trove.owner@ == owner@,
                forall|p: int|
                    0 <= p < i && self.entries@[p].trove.owner@ == owner@ ==> exists|j: int|
                        0 <= j < res@.len() && res@[j]@ == #[trigger] self.entries@[p].key@,
            decreases n - i,
        {
            let ghost prev = res@;
            if self.index[i].owner.eq(owner) {
                res.push(self.index[i].key.clone());
                proof {
                    assert forall|p: int|
                        0 <= p < i + 1 && self.entries@[p].trove.owner@ == owner@ implies exists|
                        j: int,
                    | 0 <= j < res@.len() && res@[j]@ == #[trigger] self.entries@[p].key@ by {
                        if p == i {
                            assert(res@[res@.len() - 1]@ == self.entries@[p].key@);
                        } else {
                            let j = choose|j: int|
                                0 <= j < prev.len() && prev[j]@ == self.entries@[p].key@
                                    && self.entries@[p].trove.owner@ == owner@;
                            assert(res@[j] == prev[j]);
                        }
                    }
                    assert forall|j: int| 0 <= j < res@.len() implies exists|p: int|
                        0 <= p < i + 1 && #[trigger] res@[j]@ == self.entries@[p].key@
                            && self.entries@[p].trove.owner@ == owner@ by {
                        if j < prev.len() {
                            let p = choose|p: int|
                                0 <= p < i && prev[j]@ == self.entries@[p].key@
                                    && self.entries@[p].trove.owner@ == owner@;
                            assert(res@[j] == prev[j]);
                            assert(res@[j]@ == self.entries@[p].key@
                                && self.entries@[p].trove.owner@ == owner@);
                        } else {
                            assert(res@[j]@ == self.entries@[i as int].key@);
                            assert(self.entries@[i as int].trove.owner@ == owner@);
                        }
                    }
                }
            } else {
                proof {
                    assert(self.index@[i as int].owner@ != owner@);
                    assert(self.entries@[i as int].trove.owner@ != owner@);
                }
            }
            i += 1;
        }
        proof {
            assert forall|j: int| 0 <= j < res@.len() implies self.spec_contains(
                #[trigger] res@[j]@,
            ) && self.contents()[res@[j]@].owner == owner@ by {
                let p = choose|p: int|
                    0 <= p < n && res@[j]@ == self.entries@[p].key@ && self.entries@[p].trove.owner@
                        == owner@;
                assert(self.spec_contains(res@[j]@));
                let q = self.key_index(res@[j]@);
                assert(self.entries@[q].key@ == res@[j]@);
                assert(q == p);
            }
        }
        res
    }

    /// Removes the row stored under `owner` and its index row; removing an
    /// absent key changes nothing.
    pub fn delete(&mut self, owner: &String)
        requires
            old(self).wf(),
        ensures
            final(self).wf(),
            final(self).contents() == old(self).contents().remove(owner@),
            final(self).namespace@ == old(self).namespace@,
            final(self).index_namespace@ == old(self).index_namespace@,
    {
        match self.find(owner) {
            Some(i) => {
                proof {
                    assert(forall|j: int|
                        0 <= j < self.entries@.len() && j != i ==> self.entries@[j].key@ != owner@);
                }
                self.entries.remove(i);
                self.index.remove(i);
                proof {
                    old(self).lemma_remove_post(*self, i as int, owner@);
                }
            },
            None => {
                proof {
                    assert(!old(self).spec_contains(owner@));
                    assert(self.contents() =~= old(self).contents().remove(owner@));
                }
            },
        }
    }

    /// Removing row `i`, the only row keyed `key`, removes exactly `key`
    /// from the contents.
    proof fn lemma_remove_post(self, after: Troves, i: int, key: Seq<char>)
        requires
            self.wf(),
            0 <= i < self.entries@.len(),
            self.entries@[i].key@ == key,
            after.entries@ =~= self.entries@.remove(i),
            after.index@ =~= self.index@.remove(i),
        ensures
            after.wf(),
            after.contents() == self.contents().remove(key),
    {
        let n = self.entries@.len() as int;
        self.entries@.remove_ensures(i);
        self.index@.remove_ensures(i);
        assert forall|p: int, q: int| 0 <= p < q < after.entries@.len() implies after.entries@[p].key@
            != after.entries@[q].key@ by {
            let p0 = if p < i { p } else { p + 1 };
            let q0 = if q < i { q } else { q + 1 };
            assert(after.entries@[p] == self.entries@[p0]);
            assert(after.entries@[q] == self.entries@[q0]);
        }
        assert forall|j: int| 0 <= j < after.entries@.len() implies after.index@[j].key@
            == after.entries@[j].key@ && after.index@[j].owner@ == after.entries@[j].trove.owner@ by {
            let j0 = if j < i { j } else { j + 1 };
            assert(after.entries@[j] == self.entries@[j0]);
            assert(after.index@[j] == self.index@[j0]);
        }
        assert(after.wf());
        assert forall|k: Seq<char>| #[trigger] after.contents().contains_key(k)
            == self.contents().remove(key).contains_key(k) by {
            if k == key {
                if after.spec_contains(key) {
                    let p = choose|p: int|
                        0 <= p < after.entries@.len() && after.entries@[p].key@ == key;
                    let p0 = if p < i { p } else { p + 1 };
                    assert(after.entries@[p] == self.entries@[p0]);
                    assert(p0 != i);
                }
            } else {
                if after.spec_contains(k) {
                    let p = choose|p: int|
                        0 <= p < after.entries@.len() && after.entries@[p].key@ == k;
                    let p0 = if p < i { p } else { p + 1 };
                    assert(self.entries@[p0].key@ == k);
                    assert(self.spec_contains(k));
                }
                if self.spec_contains(k) {
                    let p0 = choose|p0: int|
                        0 <= p0 < self.entries@.len() && self.entries@[p0].key@ == k;
                    assert(p0 != i);
                    let p = if p0 < i { p0 } else { p0 - 1 };
                    assert(after.entries@[p] == self.entries@[p0]);
                    assert(after.spec_contains(k));
                }
            }
        }
        assert forall|k: Seq<char>| after.contents().contains_key(k) implies after.contents()[k]
            == self.contents().remove(key)[k] by {
            let p = after.key_index(k);
            assert(0 <= p < after.entries@.len() && after.entries@[p].key@ == k);
            let p0 = if p < i { p } else { p + 1 };
            assert(after.entries@[p] == self.entries@[p0]);
            assert(self.spec_contains(k));
            let q0 = self.key_index(k);
            assert(0 <= q0 < self.entries@.len() && self.entries@[q0].key@ == k);
            assert(q0 == p0);
            assert(after.contents()[k] == after.entries@[p].trove@);
            assert(self.contents()[k] == self.entries@[p0].trove@);
        }
        assert(after.contents() =~= self.contents().remove(key));
    }
}

} // verus!
