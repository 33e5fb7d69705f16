//! A bounded set that forgets its oldest element first.

use crate::primitives::{position_of, Key};
use vstd::prelude::*;

verus! {

/// What a bounded set holds after `e` is inserted: `e` moves to the newest
/// position; if it is new and the set is full, the oldest element leaves.
pub open spec fn lru_insert<T>(items: Seq<T>, limit: nat, e: T) -> Seq<T> {
    if items.contains(e) {
        items.remove(items.index_of(e)).push(e)
    } else if items.len() >= limit {
        items.drop_first().push(e)
    } else {
        items.push(e)
    }
}

/// Inserting into a set that holds nothing twice and is within its limit
/// gives such a set again, with the inserted element as its newest.
pub proof fn law_insert_keeps_bound<T>(items: Seq<T>, limit: nat, e: T)
    requires
        limit > 0,
        items.len() <= limit,
        items.no_duplicates(),
    ensures
        lru_insert(items, limit, e).no_duplicates(),
        lru_insert(items, limit, e).len() <= limit,
        lru_insert(items, limit, e).len() > 0,
        lru_insert(items, limit, e).last() == e,
        lru_insert(items, limit, e).contains(e),
{
    let after = lru_insert(items, limit, e);
    let kept = if items.contains(e) {
        items.remove(items.index_of(e))
    } else if items.len() >= limit {
        items.drop_first()
    } else {
        items
    };
    assert(after == kept.push(e));
    assert(kept.no_duplicates());
    assert(!kept.contains(e)) by {
        if kept.contains(e) {
            let j = choose|j: int| 0 <= j < kept.len() && kept[j] == e;
            if items.contains(e) {
                let i = items.index_of(e);
                if j < i {
                    assert(items[j] == e);
                } else {
                    assert(items[j + 1] == e);
                }
            } else if items.len() >= limit {
                assert(items[j + 1] == e);
            } else {
                assert(items[j] == e);
            }
        }
    }
    assert(after.no_duplicates()) by {
        assert forall|i: int, j: int| 0 <= i < after.len() && 0 <= j < after.len() && i != j implies after[i]
            != after[j] by {
            if i < kept.len() && j < kept.len() {
            } else if i < kept.len() {
                assert(kept.contains(kept[i]));
            } else {
                assert(kept.contains(kept[j]));
            }
        }
    }
    assert(after[after.len() - 1] == e);
}

/// A set of at most `limit` elements, kept from oldest to newest insertion.
#[derive(Debug)]
pub struct LruHashSet<T: Key> {
    items: Vec<T>,
    limit: usize,
}

impl<T: Key> LruHashSet<T> {
    /// The set holds no element twice and never more than its limit.
    pub closed spec fn wf(&self) -> bool {
        &&& self.limit > 0
        &&& self.items@.len() <= self.limit
        &&& self.items@.no_duplicates()
    }

    /// The elements, oldest first.
    pub closed spec fn view(&self) -> Seq<T> {
        self.items@
    }

    /// The largest number of elements the set keeps.
    pub closed spec fn limit(&self) -> nat {
        self.limit as nat
    }

    /// An empty set that keeps at most `limit` elements.
    pub fn new(limit: usize) -> (set: Self)
        requires
            limit > 0,
        ensures
            set.wf(),
            set@ == Seq::<T>::empty(),
            set.limit() == limit,
    {
        LruHashSet { items: Vec::new(), limit }
    }

    /// The elements, oldest first.
    pub fn to_vec(&self) -> (items: Vec<T>)
        ensures
            items@ == self@,
    {
        let mut items: Vec<T> = Vec::new();
        let mut i: usize = 0;
        while i < self.items.len()
            invariant
                i <= self.items@.len(),
                items@ == self.items@.take(i as int),
            decreases self.items@.len() - i,
        {
            items.push(self.items[i]);
            i = i + 1;
        }
        items
    }

    /// Whether `e` is in the set.
    pub fn contains(&self, e: &T) -> (r: bool)
        ensures
            r == self@.contains(*e),
    {
        position_of(&self.items, e).is_some()
    }

    /// Number of elements in the set.
    pub fn len(&self) -> (n: usize)
        ensures
            n == self@.len(),
    {
        self.items.len()
    }

    /// A well-formed set is within its limit and holds nothing twice.
    pub proof fn law_bounded(&self)
        requires
            self.wf(),
        ensures
            0 < self.limit(),
            self@.len() <= self.limit(),
            self@.no_duplicates(),
    {
    }

    /// Inserts `e` as the newest element and says whether it was new.
    pub fn insert(&mut self, e: T) -> (fresh: bool)
        requires
            old(self).wf(),
        ensures
            final(self).wf(),
            final(self)@ == lru_insert(old(self)@, old(self).limit(), e),
            final(self).limit() == old(self).limit(),
            fresh == !old(self)@.contains(e),
    {
        match position_of(&self.items, &e) {
            Some(i) => {
                proof {
                    self.items@.index_of_first_ensures(e);
                }
                self.items.remove(i);
                self.items.push(e);
                false
            },
            None => {
                if self.items.len() >= self.limit {
                    self.items.remove(0);
                }
                self.items.push(e);
                true
            },
        }
    }
}

impl<T: Key> Clone for LruHashSet<T> {
    fn clone(&self) -> (copy: Self)
        ensures
            copy@ == self@,
            copy.limit() == self.limit(),
            self.wf() ==> copy.wf(),
    {
        LruHashSet { items: self.to_vec(), limit: self.limit }
    }
}

} // verus!
