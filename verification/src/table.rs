//! A small keyed store: the building block of every record set of the ledger.

use vstd::prelude::*;

verus! {

/// A key that a [`Table`] can find again. Two keys are the same key exactly
/// when their views are equal.
pub trait Key: View + Sized {
    /// Whether `self` and `other` denote the same key.
    fn same(&self, other: &Self) -> (r: bool)
        ensures
            r == (self@ == other@),
    ;
}

impl Key for String {
    fn same(&self, other: &Self) -> (r: bool) {
        *self == *other
    }
}

/// A key made of two strings, such as an event together with a principal.
pub struct PairKey {
    pub first: String,
    pub second: String,
}

impl View for PairKey {
    type V = (Seq<char>, Seq<char>);

    open spec fn view(&self) -> (Seq<char>, Seq<char>) {
        (self.first@, self.second@)
    }
}

impl Key for PairKey {
    fn same(&self, other: &Self) -> (r: bool) {
        self.first == other.first && self.second == other.second
    }
}

/// A finite map from keys to values, kept as two parallel vectors in which no
/// key occurs twice. Its view is the map from key views to value views.
pub struct Table<K: Key, T: View> {
    keys: Vec<K>,
    vals: Vec<T>,
}

impl<K: Key, T: View> View for Table<K, T> {
    type V = Map<K::V, T::V>;

    closed spec fn view(&self) -> Map<K::V, T::V> {
        Map::new(|k: K::V| self.holds(k), |k: K::V| self.vals@[self.slot(k)]@)
    }
}

impl<K: Key, T: View> Table<K, T> {
    /// The view of the key stored at position `i`.
    closed spec fn key_at(&self, i: int) -> K::V {
        self.keys@[i]@
    }

    /// Whether some position stores the key `k`.
    closed spec fn holds(&self, k: K::V) -> bool {
        exists|i: int| 0 <= i < self.keys@.len() && #[trigger] self.key_at(i) == k
    }

    /// A position that stores the key `k`, if there is one.
    closed spec fn slot(&self, k: K::V) -> int {
        choose|i: int| 0 <= i < self.keys@.len() && #[trigger] self.key_at(i) == k
    }

    /// The representation invariant: one value per key, and no key twice.
    #[verifier::type_invariant]
    closed spec fn wf(&self) -> bool {
        &&& self.keys@.len() == self.vals@.len()
        &&& forall|i: int, j: int|
            0 <= i < j < self.keys@.len() ==> #[trigger] self.key_at(i) != #[trigger] self.key_at(j)
    }

    /// In a well-formed table the key at position `i` is found at `i` and
    /// nowhere else.
    proof fn lemma_slot(&self, i: int)
        requires
            self.wf(),
            0 <= i < self.keys@.len(),
        ensures
            self.holds(self.key_at(i)),
            self.slot(self.key_at(i)) == i,
            self@.contains_key(self.key_at(i)),
            self@[self.key_at(i)] == self.vals@[i]@,
    {
        let k = self.key_at(i);
        assert(self.holds(k));
        let s = self.slot(k);
        assert(0 <= s < self.keys@.len() && self.key_at(s) == k);
        if s < i {
            assert(self.key_at(s) != self.key_at(i));
        } else if i < s {
            assert(self.key_at(i) != self.key_at(s));
        }
    }

    /// The empty table.
    pub fn new() -> (r: Self)
        ensures
            r@ == Map::<K::V, T::V>::empty(),
    {
        let r = Table { keys: Vec::new(), vals: Vec::new() };
        assert(r@ =~= Map::<K::V, T::V>::empty());
        r
    }

    /// The position of `key`, if the table holds it.
    fn find(&self, key: &K) -> (r: Option<usize>)
        ensures
            match r {
                Some(i) => i < self.vals@.len() && i < self.keys@.len() && self.key_at(i as int)
                    == key@ && self@.contains_key(key@) && self@[key@] == self.vals@[i as int]@,
                None => !self@.contains_key(key@) && !self.holds(key@),
            },
    {
        proof {
            use_type_invariant(self);
        }
        let mut i: usize = 0;
        while i < self.keys.len()
            invariant
                self.wf(),
                i <= self.keys@.len(),
                forall|j: int| 0 <= j < i ==> #[trigger] self.key_at(j) != key@,
            decreases self.keys@.len() - i,
        {
            if self.keys[i].same(key) {
                proof {
                    self.lemma_slot(i as int);
                }
                return Some(i);
            }
            i += 1;
        }
        None
    }

    /// Whether the table holds `key`.
    pub fn contains(&self, key: &K) -> (r: bool)
        ensures
            r == self@.contains_key(key@),
    {
        self.find(key).is_some()
    }

    /// The value stored under `key`, if any.
    pub fn get(&self, key: &K) -> (r: Option<&T>)
        ensures
            match r {
                Some(v) => self@.contains_key(key@) && v@ == self@[key@],
                None => !self@.contains_key(key@),
            },
    {
        match self.find(key) {
            Some(i) => Some(&self.vals[i]),
            None => None,
        }
    }

    /// Takes the two vectors out and leaves the table empty.
    fn take(&mut self) -> (r: (Vec<K>, Vec<T>))
        ensures
            r.0 == old(self).keys,
            r.1 == old(self).vals,
    {
        let mut taken = Table { keys: Vec::new(), vals: Vec::new() };
        std::mem::swap(self, &mut taken);
        let Table { keys, vals } = taken;
        (keys, vals)
    }

    /// Stores `value` under `key`, replacing what was there.
    pub fn insert(&mut self, key: K, value: T)
        ensures
            final(self)@ == old(self)@.insert(key@, value@),
    {
        proof {
            use_type_invariant(&*self);
        }
        let ghost before = *self;
        let found = self.find(&key);
        let (mut keys, mut vals) = self.take();
        match found {
            Some(i) => {
                vals.set(i, value);
                proof {
                    let after = Table { keys, vals };
                    assert forall|j: int| 0 <= j < after.keys@.len() implies #[trigger] after.key_at(
                        j,
                    ) == before.key_at(j) by {}
                    assert(after.wf());
                    assert forall|k: K::V| #[trigger] after.holds(k) == before.holds(k) by {
                        if before.holds(k) {
                            assert(after.key_at(before.slot(k)) == k);
                        }
                        if after.holds(k) {
                            assert(before.key_at(after.slot(k)) == k);
                        }
                    }
                    assert forall|k: K::V| after.holds(k) implies #[trigger] after@[k]
                        == before@.insert(key@, value@)[k] by {
                        let s = after.slot(k);
                        after.lemma_slot(s);
                        before.lemma_slot(s);
                        before.lemma_slot(i as int);
                    }
                    assert(after@ =~= before@.insert(key@, value@));
                }
            },
            None => {
                keys.push(key);
                vals.push(value);
                proof {
                    let after = Table { keys, vals };
                    let n = before.keys@.len() as int;
                    assert forall|j: int| 0 <= j < n implies #[trigger] after.key_at(j)
                        == before.key_at(j) by {}
                    assert(after.key_at(n) == key@);
                    assert forall|a: int, b: int| 0 <= a < b < after.keys@.len() implies
                        #[trigger] after.key_at(a) != #[trigger] after.key_at(b) by {
                        if b < n {
                            assert(before.key_at(a) != before.key_at(b));
                        } else {
                            assert(before.key_at(a) != key@);
                        }
                    }
                    assert(after.wf());
                    assert forall|k: K::V| #[trigger] after.holds(k) == (before.holds(k) || k == key@) by {
                        if before.holds(k) {
                            assert(after.key_at(before.slot(k)) == k);
                        }
                        if k == key@ {
                            assert(after.key_at(n) == k);
                        }
                        if after.holds(k) && k != key@ {
                            assert(before.key_at(after.slot(k)) == k);
                        }
                    }
                    assert forall|k: K::V| after.holds(k) implies #[trigger] after@[k]
                        == before@.insert(key@, value@)[k] by {
                        let s = after.slot(k);
                        after.lemma_slot(s);
                        if s < n {
                            before.lemma_slot(s);
                        }
                    }
                    assert(after@ =~= before@.insert(key@, value@));
                }
            },
        }
        *self = Table { keys, vals };
    }

    /// Removes `key` and its value; a table without the key stays as it is.
    pub fn remove(&mut self, key: &K)
        ensures
            final(self)@ == old(self)@.remove(key@),
    {
        proof {
            use_type_invariant(&*self);
        }
        let ghost before = *self;
        match self.find(key) {
            Some(i) => {
                let (mut keys, mut vals) = self.take();
                keys.remove(i);
                vals.remove(i);
                proof {
                    let after = Table { keys, vals };
                    let n = after.keys@.len() as int;
                    assert forall|j: int| 0 <= j < n implies #[trigger] after.key_at(j)
                        == before.key_at(if j < i { j } else { j + 1 }) && after.vals@[j]
                        == before.vals@[if j < i { j } else { j + 1 }] by {}
                    assert forall|a: int, b: int| 0 <= a < b < n implies #[trigger] after.key_at(a)
                        != #[trigger] after.key_at(b) by {
                        let a0 = if a < i { a } else { a + 1 };
                        let b0 = if b < i { b } else { b + 1 };
                        assert(before.key_at(a0) != before.key_at(b0));
                    }
                    assert(after.wf());
                    assert forall|k: K::V| #[trigger] after.holds(k) == (before.holds(k) && k != key@) by {
                        if before.holds(k) && k != key@ {
                            let s = before.slot(k);
                            let s1 = if s < i { s } else { s - 1 };
                            assert(after.key_at(s1) == k);
                        }
                        if after.holds(k) {
                            let s = after.slot(k);
                            let s0 = if s < i { s } else { s + 1 };
                            assert(before.key_at(s0) == k);
                            if s0 < i {
                                assert(before.key_at(s0) != before.key_at(i as int));
                            } else {
                                assert(before.key_at(i as int) != before.key_at(s0));
                            }
                        }
                    }
                    assert forall|k: K::V| after.holds(k) implies #[trigger] after@[k] == before@[k] by {
                        let s = after.slot(k);
                        after.lemma_slot(s);
                        before.lemma_slot(if s < i { s } else { s + 1 });
                    }
                    assert(after@ =~= before@.remove(key@));
                }
                *self = Table { keys, vals };
            },
            None => {
                assert(self@ =~= before@.remove(key@));
            },
        }
    }
}

} // verus!
