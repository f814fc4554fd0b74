//! The storage model the engine persists entities against.
//!
//! The scaffold issues single-row operations — load by id, insert, replace,
//! remove — and assumes the storage layer keeps rows consistent.  This
//! model states that contract exactly: a store is a sequence of rows with
//! pairwise-distinct identifiers, read and written only through the
//! identifier.

use crate::entity::Entity;
use vstd::pervasive::VecAdditionalExecFns;
use vstd::prelude::*;

verus! {

/// An entity store: one row per identifier.
pub struct Store<E> {
    rows: Vec<E>,
}

impl<E: Entity> Store<E> {
    /// The stored rows, in insertion order.
    pub closed spec fn spec_rows(&self) -> Seq<E> {
        self.rows@
    }

    /// No two rows share an identifier.
    pub open spec fn wf(&self) -> bool {
        forall|i: int, j: int|
            0 <= i < j < self.spec_rows().len() ==> (#[trigger] self.spec_rows()[i]).spec_id() != (
            #[trigger] self.spec_rows()[j]).spec_id()
    }

    /// Whether some row carries the given identifier.
    pub open spec fn spec_contains_id(&self, id: u64) -> bool {
        exists|i: int|
            0 <= i < self.spec_rows().len() && (#[trigger] self.spec_rows()[i]).spec_id() == id
    }

    /// The index of the row carrying the given identifier.
    pub closed spec fn spec_index_of(&self, id: u64) -> int {
        choose|i: int|
            0 <= i < self.spec_rows().len() && (#[trigger] self.spec_rows()[i]).spec_id() == id
    }

    /// The row stored under the given identifier, if any.
    pub open spec fn spec_get(&self, id: u64) -> Option<E> {
        if self.spec_contains_id(id) {
            Some(self.spec_rows()[self.spec_index_of(id)])
        } else {
            None
        }
    }

    /// In a well-formed store, a row found at index `i` is the row stored
    /// under its identifier.
    pub proof fn lemma_found(&self, i: int, id: u64)
        requires
            self.wf(),
            0 <= i < self.spec_rows().len(),
            self.spec_rows()[i].spec_id() == id,
        ensures
            self.spec_contains_id(id),
            self.spec_index_of(id) == i,
            self.spec_get(id) == Some(self.spec_rows()[i]),
    {
        assert(self.spec_contains_id(id));
        let k = self.spec_index_of(id);
        assert(0 <= k < self.spec_rows().len() && self.spec_rows()[k].spec_id() == id);
        if k < i {
            assert(self.spec_rows()[k].spec_id() != self.spec_rows()[i].spec_id());
        } else if i < k {
            assert(self.spec_rows()[i].spec_id() != self.spec_rows()[k].spec_id());
        }
    }

    /// Builds an empty store.
    pub fn new() -> (r: Self)
        ensures
            r.wf(),
            r.spec_rows() == Seq::<E>::empty(),
    {
        let r = Store { rows: Vec::new() };
        proof {
            assert(r.spec_rows() =~= Seq::<E>::empty());
        }
        r
    }

    /// The number of stored rows.
    pub fn len(&self) -> (r: usize)
        ensures
            r == self.spec_rows().len(),
    {
        self.rows.len()
    }

    /// The row at a storage index.
    pub fn at(&self, i: usize) -> (r: &E)
        requires
            i < self.spec_rows().len(),
        ensures
            *r == self.spec_rows()[i as int],
    {
        &self.rows[i]
    }

    /// Finds the index of the row stored under an identifier.
    fn find(&self, id: u64) -> (r: Option<usize>)
        requires
            self.wf(),
        ensures
            match r {
                Some(i) => 0 <= i < self.spec_rows().len() && self.spec_rows()[i as int].spec_id()
                    == id && self.spec_get(id) == Some(self.spec_rows()[i as int])
                    && self.spec_index_of(id) == i,
                None => !self.spec_contains_id(id) && self.spec_get(id) == None::<E>,
            },
    {
        let mut i: usize = 0;
        while i < self.rows.len()
            invariant
                self.wf(),
                0 <= i <= self.spec_rows().len(),
                forall|j: int| 0 <= j < i ==> (#[trigger] self.spec_rows()[j]).spec_id() != id,
            decreases self.spec_rows().len() - i,
        {
            if self.rows[i].id() == id {
                proof {
                    self.lemma_found(i as int, id);
                }
                return Some(i);
            }
            i = i + 1;
        }
        None
    }

    /// Loads the row stored under an identifier.
    pub fn get(&self, id: u64) -> (r: Option<&E>)
        requires
            self.wf(),
        ensures
            match r {
                Some(e) => self.spec_get(id) == Some(*e),
                None => self.spec_get(id) == None::<E>,
            },
    {
        match self.find(id) {
            Some(i) => Some(&self.rows[i]),
            None => None,
        }
    }

    /// Whether a row with the given identifier is stored.
    pub fn contains(&self, id: u64) -> (r: bool)
        requires
            self.wf(),
        ensures
            r == self.spec_contains_id(id),
    {
        match self.find(id) {
            Some(_) => true,
            None => false,
        }
    }

    /// Inserts a new row.  The row is appended exactly when its identifier
    /// is not yet taken; an already-taken identifier leaves the store
    /// unchanged and reports the conflict.
    pub fn insert(&mut self, e: E) -> (r: bool)
        requires
            old(self).wf(),
        ensures
            final(self).wf(),
            r == !old(self).spec_contains_id(e.spec_id()),
            r ==> final(self).spec_rows() == old(self).spec_rows().push(e),
            !r ==> final(self).spec_rows() == old(self).spec_rows(),
    {
        let id = e.id();
        match self.find(id) {
            Some(_) => false,
            None => {
                let ghost prev = self.spec_rows();
                self.rows.push(e);
                proof {
                    let rows = self.spec_rows();
                    assert forall|a: int, b: int|
                        0 <= a < b < rows.len() implies (#[trigger] rows[a]).spec_id() != (
                    #[trigger] rows[b]).spec_id() by {
                        if b == rows.len() - 1 {
                            assert(rows[a] == prev[a]);
                            assert(prev[a].spec_id() != id);
                        } else {
                            assert(rows[a] == prev[a] && rows[b] == prev[b]);
                            assert(prev[a].spec_id() != prev[b].spec_id());
                        }
                    }
                }
                true
            },
        }
    }

    /// Replaces the row whose identifier equals the given row's.  The store
    /// changes exactly when that identifier is present; every other row is
    /// untouched.
    pub fn replace(&mut self, e: E) -> (r: bool)
        requires
            old(self).wf(),
        ensures
            final(self).wf(),
            r == old(self).spec_contains_id(e.spec_id()),
            r ==> final(self).spec_get(e.spec_id()) == Some(e),
            !r ==> final(self).spec_rows() == old(self).spec_rows(),
            final(self).spec_rows().len() == old(self).spec_rows().len(),
            forall|id2: u64|
                id2 != e.spec_id() ==> #[trigger] final(self).spec_get(id2) == old(self).spec_get(
                    id2,
                ),
    {
        let id = e.id();
        match self.find(id) {
            None => false,
            Some(i) => {
                let ghost prev = self.spec_rows();
                self.rows.set(i, e);
                proof {
                    let rows = self.spec_rows();
                    assert(rows[i as int].spec_id() == id);
                    assert forall|a: int, b: int|
                        0 <= a < b < rows.len() implies (#[trigger] rows[a]).spec_id() != (
                    #[trigger] rows[b]).spec_id() by {
                        if a == i {
                            assert(rows[b] == prev[b]);
                            assert(prev[i as int].spec_id() != prev[b].spec_id());
                        } else if b == i {
                            assert(rows[a] == prev[a]);
                            assert(prev[a].spec_id() != prev[i as int].spec_id());
                        } else {
                            assert(rows[a] == prev[a] && rows[b] == prev[b]);
                            assert(prev[a].spec_id() != prev[b].spec_id());
                        }
                    }
                    self.lemma_found(i as int, id);
                    assert forall|id2: u64| id2 != id implies #[trigger] self.spec_get(id2) == old(
                        self,
                    ).spec_get(id2) by {
                        Self::lemma_get_after_update(*old(self), *self, i as int, id2);
                    }
                }
                true
            },
        }
    }

    /// After replacing index `i` of a well-formed store, every identifier
    /// other than the old and new row's reads as before.
    proof fn lemma_get_after_update(before: Self, after: Self, i: int, id2: u64)
        requires
            before.wf(),
            after.wf(),
            0 <= i < before.spec_rows().len(),
            after.spec_rows() == before.spec_rows().update(i, after.spec_rows()[i]),
            after.spec_rows()[i].spec_id() != id2,
            before.spec_rows()[i].spec_id() != id2,
        ensures
            after.spec_get(id2) == before.spec_get(id2),
    {
        if before.spec_contains_id(id2) {
            let k = before.spec_index_of(id2);
            assert(0 <= k < before.spec_rows().len() && before.spec_rows()[k].spec_id() == id2);
            assert(k != i);
            assert(after.spec_rows()[k].spec_id() == id2);
            before.lemma_found(k, id2);
            after.lemma_found(k, id2);
        } else {
            if after.spec_contains_id(id2) {
                let k = after.spec_index_of(id2);
                assert(0 <= k < after.spec_rows().len() && after.spec_rows()[k].spec_id() == id2);
                assert(k != i);
                assert(before.spec_rows()[k].spec_id() == id2);
                assert(before.spec_contains_id(id2));
            }
        }
    }

    /// Removes the row stored under an identifier and returns it.  The
    /// store changes exactly when the identifier is present; every other
    /// row is untouched.
    pub fn remove(&mut self, id: u64) -> (r: Option<E>)
        requires
            old(self).wf(),
        ensures
            final(self).wf(),
            r == old(self).spec_get(id),
            final(self).spec_get(id) == None::<E>,
            r is None ==> final(self).spec_rows() == old(self).spec_rows(),
            r is Some ==> final(self).spec_rows().len() == old(self).spec_rows().len() - 1,
            forall|id2: u64|
                id2 != id ==> #[trigger] final(self).spec_get(id2) == old(self).spec_get(id2),
    {
        match self.find(id) {
            None => None,
            Some(i) => {
                let ghost prev = self.spec_rows();
                let e = self.rows.remove(i);
                proof {
                    let rows = self.spec_rows();
                    assert forall|a: int, b: int|
                        0 <= a < b < rows.len() implies (#[trigger] rows[a]).spec_id() != (
                    #[trigger] rows[b]).spec_id() by {
                        let a0: int = if a < i { a } else { a + 1 };
                        let b0: int = if b < i { b } else { b + 1 };
                        assert(rows[a] == prev[a0] && rows[b] == prev[b0]);
                        assert(prev[a0].spec_id() != prev[b0].spec_id());
                    }
                    assert forall|id2: u64| id2 != id implies #[trigger] self.spec_get(id2) == old(
                        self,
                    ).spec_get(id2) by {
                        Self::lemma_get_after_remove(*old(self), *self, i as int, id2);
                    }
                    if self.spec_contains_id(id) {
                        let k = self.spec_index_of(id);
                        assert(0 <= k < rows.len() && rows[k].spec_id() == id);
                        let k0: int = if k < i { k } else { k + 1 };
                        assert(prev[k0].spec_id() == id);
                        assert(k0 != i);
                        assert(prev[i as int].spec_id() != prev[k0].spec_id());
                    }
                }
                Some(e)
            },
        }
    }

    /// After removing index `i` of a well-formed store, every identifier
    /// other than the removed row's reads as before.
    proof fn lemma_get_after_remove(before: Self, after: Self, i: int, id2: u64)
        requires
            before.wf(),
            after.wf(),
            0 <= i < before.spec_rows().len(),
            after.spec_rows() == before.spec_rows().remove(i),
            before.spec_rows()[i].spec_id() != id2,
        ensures
            after.spec_get(id2) == before.spec_get(id2),
    {
        if before.spec_contains_id(id2) {
            let k = before.spec_index_of(id2);
            assert(0 <= k < before.spec_rows().len() && before.spec_rows()[k].spec_id() == id2);
            assert(k != i);
            let k2: int = if k < i { k } else { k - 1 };
            assert(after.spec_rows()[k2] == before.spec_rows()[k]);
            before.lemma_found(k, id2);
            after.lemma_found(k2, id2);
        } else {
            if after.spec_contains_id(id2) {
                let k = after.spec_index_of(id2);
                assert(0 <= k < after.spec_rows().len() && after.spec_rows()[k].spec_id() == id2);
                let k0: int = if k < i { k } else { k + 1 };
                assert(before.spec_rows()[k0].spec_id() == id2);
                assert(before.spec_contains_id(id2));
            }
        }
    }
}

} // verus!
