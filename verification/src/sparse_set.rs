//! A sparse set: a map from small integer keys (below a fixed capacity) to values,
//! with O(1) insert, lookup and removal, and the values stored densely.
use vstd::prelude::*;

verus! {

/// One stored value together with the key it was stored under.
#[derive(Debug)]
pub struct Entry<T> {
    key: usize,
    pub value: T,
}

impl<T> Entry<T> {
    /// The key this entry is stored under.
    pub closed spec fn key_of(&self) -> usize {
        self.key
    }

    /// The value this entry holds.
    pub closed spec fn value_of(&self) -> T {
        self.value
    }

    /// Read-only access to the entry's key.
    pub fn key(&self) -> (k: usize)
        ensures
            k == self.key_of(),
    {
        self.key
    }

    /// The stored value.
    pub fn value(&self) -> (v: &T)
        ensures
            *v == self.value_of(),
    {
        &self.value
    }

    /// The stored value, mutably.
    pub fn value_mut(&mut self) -> (v: &mut T)
        ensures
            *v == old(self).value_of(),
            final(self).value_of() == *final(v),
            final(self).key_of() == old(self).key_of(),
    {
        &mut self.value
    }
}

/// Values stored densely in `dense`; `sparse[key]` is the position in `dense`
/// of the entry for `key`, when there is one.
#[derive(Debug)]
pub struct SparseSet<T> {
    pub dense: Vec<Entry<T>>,
    pub sparse: Vec<usize>,
}

/// The storage order of a set whose keys were `keys`, in storage order, once `k` is
/// taken out: the last key moves into the place of `k`.
pub open spec fn swap_removed(keys: Seq<usize>, k: usize) -> Seq<usize> {
    if keys.contains(k) {
        keys.update(keys.index_of(k), keys.last()).drop_last()
    } else {
        keys
    }
}

/// The storage order once each of `ks` is taken out, in turn.
pub open spec fn swap_removed_all(keys: Seq<usize>, ks: Seq<usize>) -> Seq<usize>
    decreases ks.len(),
{
    if ks.len() == 0 {
        keys
    } else {
        swap_removed(swap_removed_all(keys, ks.drop_last()), ks.last())
    }
}

/// The storage order once `k` is stored: a new key goes last, an old one stays put.
pub open spec fn with_key(keys: Seq<usize>, k: usize) -> Seq<usize> {
    if keys.contains(k) {
        keys
    } else {
        keys.push(k)
    }
}

/// Taking out the keys of `a` and then those of `b` is taking out those of `a + b`.
pub proof fn lemma_swap_removed_all_concat(keys: Seq<usize>, a: Seq<usize>, b: Seq<usize>)
    ensures
        swap_removed_all(swap_removed_all(keys, a), b) == swap_removed_all(keys, a + b),
    decreases b.len(),
{
    if b.len() == 0 {
        assert(a + b =~= a);
    } else {
        lemma_swap_removed_all_concat(keys, a, b.drop_last());
        assert((a + b).drop_last() =~= a + b.drop_last());
        assert((a + b).last() == b.last());
    }
}

impl<T> SparseSet<T> {
    /// Well-formedness: every dense entry's key is below the capacity and the sparse
    /// array points back at that entry.
    pub open spec fn wf(&self) -> bool {
        &&& self.dense@.len() <= self.sparse@.len()
        &&& forall|i: int|
            0 <= i < self.dense@.len() ==> {
                &&& (#[trigger] self.dense@[i]).key_of() < self.sparse@.len()
                &&& self.sparse@[self.dense@[i].key_of() as int] == i
            }
    }

    /// The number of keys the set can hold: keys are `0..capacity`.
    pub open spec fn spec_capacity(&self) -> nat {
        self.sparse@.len()
    }

    /// Whether `key` currently has a value.
    pub open spec fn has(&self, key: usize) -> bool {
        &&& key < self.sparse@.len()
        &&& self.sparse@[key as int] < self.dense@.len()
        &&& self.dense@[self.sparse@[key as int] as int].key_of() == key
    }

    /// The keys in dense (storage) order.
    pub open spec fn keys(&self) -> Seq<usize> {
        self.dense@.map_values(|e: Entry<T>| e.key_of())
    }

    /// The keys in storage order once `key` is taken out: the last key moves into the
    /// place of the removed one.
    pub open spec fn keys_without(&self, key: usize) -> Seq<usize> {
        if self@.contains_key(key) {
            self.keys().update(self.sparse@[key as int] as int, self.keys().last()).drop_last()
        } else {
            self.keys()
        }
    }

    /// The contents as a map from keys to values.
    pub open spec fn view(&self) -> Map<usize, T> {
        Map::new(
            |k: usize| self.has(k),
            |k: usize| self.dense@[self.sparse@[k as int] as int].value_of(),
        )
    }

    /// Creates an empty set whose keys must lie below `size`.
    pub fn with_capacity(size: usize) -> (s: Self)
        ensures
            s.wf(),
            s@ == Map::<usize, T>::empty(),
            s.keys() == Seq::<usize>::empty(),
            s.spec_capacity() == size,
    {
        let mut sparse: Vec<usize> = Vec::with_capacity(size);
        let mut i: usize = 0;
        while i < size
            invariant
                i <= size,
                sparse@.len() == i,
            decreases size - i,
        {
            sparse.push(size);
            i = i + 1;
        }
        let s = SparseSet { dense: Vec::with_capacity(size), sparse };
        assert(s@ =~= Map::<usize, T>::empty());
        assert(s.keys() =~= Seq::<usize>::empty());
        s
    }
}


impl<T> SparseSet<T> {
    proof fn lemma_has_iff_key_listed(&self, k: usize)
        requires
            self.wf(),
        ensures
            self.has(k) <==> self.keys().contains(k),
            self.has(k) ==> self.keys()[self.sparse@[k as int] as int] == k,
    {
        if self.keys().contains(k) {
            let i = choose|i: int| 0 <= i < self.keys().len() && self.keys()[i] == k;
            assert(self.dense@[i].key == k);
        }
        if self.has(k) {
            assert(self.keys()[self.sparse@[k as int] as int] == k);
        }
    }

    proof fn lemma_keys_without_swap_removed(&self, key: usize)
        requires
            self.wf(),
        ensures
            self.keys_without(key) == swap_removed(self.keys(), key),
            self@.contains_key(key) <==> self.keys().contains(key),
    {
        self.lemma_has_iff_key_listed(key);
        self.lemma_keys_are_domain();
        if self@.contains_key(key) {
            let i = self.keys().index_of(key);
            assert(self.keys()[self.sparse@[key as int] as int] == key);
            assert(0 <= i < self.keys().len() && self.keys()[i] == key);
            assert(i == self.sparse@[key as int]);
        }
    }

    /// The keys listed in storage order are exactly the keys of the map, each once,
    /// so the number of entries is the number of keys that hold a value.
    pub proof fn lemma_keys_are_domain(&self)
        requires
            self.wf(),
        ensures
            self.keys().no_duplicates(),
            self@.dom() == self.keys().to_set(),
            self@.dom().len() == self.keys().len(),
            self@.dom().finite(),
    {
        assert forall|i: int, j: int|
            0 <= i < self.keys().len() && 0 <= j < self.keys().len() && i != j implies
            self.keys()[i] != self.keys()[j] by {
            assert(self.sparse@[self.dense@[i].key as int] == i);
            assert(self.sparse@[self.dense@[j].key as int] == j);
        }
        assert forall|k: usize| self@.dom().contains(k) <==> self.keys().to_set().contains(k) by {
            self.lemma_has_iff_key_listed(k);
        }
        assert(self@.dom() =~= self.keys().to_set());
        self.keys().unique_seq_to_set();
    }

    /// What a read gives back of a write: after `insert(k, v)` the set holds `v` under
    /// `k`, after `remove(k)` it holds nothing under `k`, and either leaves every other
    /// key as it was.
    pub proof fn lemma_read_after_write(before: Self, inserted: Self, removed: Self, k: usize, v: T, other: usize)
        requires
            inserted@ == before@.insert(k, v),
            removed@ == before@.remove(k),
            other != k,
        ensures
            inserted@.contains_key(k) && inserted@[k] == v,
            !removed@.contains_key(k),
            inserted@.contains_key(other) == before@.contains_key(other),
            removed@.contains_key(other) == before@.contains_key(other),
            before@.contains_key(other) ==> inserted@[other] == before@[other] && removed@[other]
                == before@[other],
    {
    }

    /// What one call undoes of another: storing a new key and taking it out again
    /// leaves the set as it was, with the same contents in the same storage order.
    pub proof fn lemma_insert_remove_undo(before: Self, inserted: Self, removed: Self, k: usize, v: T)
        requires
            before.wf(),
            !before@.contains_key(k),
            inserted@ == before@.insert(k, v),
            inserted.keys() == with_key(before.keys(), k),
            removed@ == inserted@.remove(k),
            removed.keys() == swap_removed(inserted.keys(), k),
        ensures
            removed@ == before@,
            removed.keys() == before.keys(),
    {
        before.lemma_keys_are_domain();
        let keys = before.keys();
        assert(!keys.contains(k)) by {
            if keys.contains(k) {
                assert(keys.to_set().contains(k));
            }
        }
        let pushed = keys.push(k);
        assert(pushed[keys.len() as int] == k);
        let i = pushed.index_of(k);
        assert(0 <= i < pushed.len() && pushed[i] == k);
        if i < keys.len() {
            assert(keys[i] == k);
        }
        assert(i == keys.len());
        assert(pushed.update(i, pushed.last()).drop_last() =~= keys);
        assert(removed@ =~= before@);
    }

    /// What a call of `insert`, `remove`, `clear`, `get_mut` or `get_pair_mut` on
    /// `before` leaves behind, as their contracts state it: a well-formed set of the same
    /// capacity whose contents are `before`'s with one key stored, one key taken out,
    /// two keys stored, or nothing at all.
    pub open spec fn is_update_of(after: Self, before: Self) -> bool {
        &&& after.wf()
        &&& after.spec_capacity() == before.spec_capacity()
        &&& {
            ||| exists|k: usize, v: T| after@ == before@.insert(k, v)
            ||| exists|k: usize| after@ == before@.remove(k)
            ||| exists|k1: usize, v1: T, k2: usize, v2: T| after@ == before@.insert(k1, v1).insert(k2, v2)
            ||| after@ == Map::<usize, T>::empty()
            ||| after == before
        }
    }

    /// Any sequence of calls keeps a set well formed and keeps its capacity: a set made
    /// with capacity `n`, then changed call by call, is well formed with capacity `n`
    /// after every call.
    pub proof fn lemma_calls_keep_wf_and_capacity(states: Seq<Self>, n: nat)
        requires
            states.len() > 0,
            states[0].wf(),
            states[0].spec_capacity() == n,
            forall|i: int| 0 <= i < states.len() - 1 ==> #[trigger] Self::is_update_of(states[i + 1], states[i]),
        ensures
            forall|i: int| 0 <= i < states.len() ==> (#[trigger] states[i]).wf() && states[i].spec_capacity() == n,
        decreases states.len(),
    {
        if states.len() > 1 {
            let shorter = states.drop_last();
            assert forall|i: int| 0 <= i < shorter.len() - 1 implies #[trigger] Self::is_update_of(
                shorter[i + 1],
                shorter[i],
            ) by {
                assert(Self::is_update_of(states[i + 1], states[i]));
            }
            Self::lemma_calls_keep_wf_and_capacity(shorter, n);
            assert forall|i: int| 0 <= i < states.len() implies (#[trigger] states[i]).wf()
                && states[i].spec_capacity() == n by {
                if i < states.len() - 1 {
                    assert(states[i] == shorter[i]);
                } else {
                    let j = i - 1;
                    assert(shorter[j] == states[j]);
                    assert(Self::is_update_of(states[j + 1], states[j]));
                }
            }
        }
    }

    /// Every call that changes a set is such an update: `insert(k, v)`, `remove(k)` and
    /// `clear()` as their contracts state them.
    pub proof fn lemma_calls_are_updates(before: Self, after: Self, k: usize, v: T)
        requires
            after.wf(),
            after.spec_capacity() == before.spec_capacity(),
            after@ == before@.insert(k, v) || after@ == before@.remove(k) || after@ == Map::<usize, T>::empty(),
        ensures
            Self::is_update_of(after, before),
    {
    }

    /// Each stored entry carries the value that the map gives for its key.
    pub proof fn lemma_entries_match_view(&self)
        requires
            self.wf(),
        ensures
            forall|i: int|
                0 <= i < self.dense@.len() ==> self@.contains_key(#[trigger] self.dense@[i].key_of())
                    && self@[self.dense@[i].key_of()] == self.dense@[i].value_of(),
    {
    }

    /// A key that holds no value leaves room below the capacity for one more entry.
    proof fn lemma_room_for_new_key(&self, key: usize)
        requires
            self.wf(),
            key < self.spec_capacity(),
            !self.has(key),
        ensures
            self.dense@.len() < self.spec_capacity(),
    {
        let n = self.dense@.len();
        let cap = self.sparse@.len() as int;
        let ks = Seq::new(n, |i: int| self.dense@[i].key as int);
        assert forall|i: int, j: int| 0 <= i < ks.len() && 0 <= j < ks.len() && i != j implies
            ks[i] != ks[j] by {
            assert(self.sparse@[self.dense@[i].key as int] == i);
            assert(self.sparse@[self.dense@[j].key as int] == j);
        }
        ks.unique_seq_to_set();
        let range = vstd::set_lib::set_int_range(0, cap).remove(key as int);
        vstd::set_lib::lemma_int_range(0, cap);
        assert forall|x: int| ks.to_set().contains(x) implies range.contains(x) by {
            let i = choose|i: int| 0 <= i < ks.len() && ks[i] == x;
            assert(self.sparse@[self.dense@[i].key as int] == i);
        }
        vstd::set_lib::lemma_len_subset(ks.to_set(), range);
    }

    /// The number of stored values.
    pub fn len(&self) -> (n: usize)
        requires
            self.wf(),
        ensures
            n == self@.len(),
            n == self.keys().len(),
    {
        proof {
            self.lemma_keys_are_domain();
        }
        self.dense.len()
    }

    /// The number of keys the set can hold.
    pub fn capacity(&self) -> (c: usize)
        ensures
            c == self.spec_capacity(),
    {
        self.sparse.len()
    }

    /// Removes every value; the capacity is kept.
    pub fn clear(&mut self)
        requires
            old(self).wf(),
        ensures
            final(self).wf(),
            final(self)@ == Map::<usize, T>::empty(),
            final(self).keys() == Seq::<usize>::empty(),
            final(self).spec_capacity() == old(self).spec_capacity(),
    {
        self.dense.clear();
        assert(self@ =~= Map::<usize, T>::empty());
        assert(self.keys() =~= Seq::<usize>::empty());
    }

    fn dense_idx(&self, key: usize) -> (r: Option<usize>)
        requires
            self.wf(),
            key < self.spec_capacity(),
        ensures
            r is Some <==> self.has(key),
            r matches Some(i) ==> i == self.sparse@[key as int] && i < self.dense@.len(),
    {
        let dense_idx = self.sparse[key];
        if dense_idx < self.dense.len() {
            let entry = &self.dense[dense_idx];
            if entry.key == key {
                return Some(dense_idx);
            }
        }
        None
    }

    /// The value stored under `key`, if any.
    pub fn get(&self, key: usize) -> (r: Option<&T>)
        requires
            self.wf(),
            key < self.spec_capacity(),
        ensures
            r is Some <==> self@.contains_key(key),
            r matches Some(v) ==> *v == self@[key],
    {
        if let Some(dense_idx) = self.dense_idx(key) {
            Some(&self.dense[dense_idx].value)
        } else {
            None
        }
    }

    /// The value stored under `key`, mutably, if any.
    pub fn get_mut(&mut self, key: usize) -> (r: Option<&mut T>)
        requires
            old(self).wf(),
            key < old(self).spec_capacity(),
        ensures
            r is Some <==> old(self)@.contains_key(key),
            r is Some ==> *r.unwrap() == old(self)@[key] && final(self).wf() && final(self)@
                == old(self)@.insert(key, *final(r.unwrap())) && final(self).keys() == old(
                self,
            ).keys() && final(self).spec_capacity() == old(self).spec_capacity(),
            r is None ==> *final(self) == *old(self),
    {
        if let Some(dense_idx) = self.dense_idx(key) {
            Some(&mut self.dense[dense_idx].value)
        } else {
            None
        }
    }

    /// Mutable access to the values of two distinct keys at once; None unless both
    /// keys hold a value.
    pub fn get_pair_mut(&mut self, key1: usize, key2: usize) -> (r: Option<(&mut T, &mut T)>)
        requires
            old(self).wf(),
            key1 != key2,
            key1 < old(self).spec_capacity(),
            key2 < old(self).spec_capacity(),
        ensures
            r is Some <==> (old(self)@.contains_key(key1) && old(self)@.contains_key(key2)),
            r is Some ==> *r.unwrap().0 == old(self)@[key1] && *r.unwrap().1 == old(self)@[key2]
                && final(self).wf() && final(self)@ == old(self)@.insert(
                key1,
                *final(r.unwrap().0),
            ).insert(key2, *final(r.unwrap().1)) && final(self).keys() == old(self).keys()
                && final(self).spec_capacity() == old(self).spec_capacity(),
            r is None ==> *final(self) == *old(self),
    {
        let idx1 = self.dense_idx(key1)?;
        let idx2 = self.dense_idx(key2)?;
        let ghost old_self = *self;
        proof {
            assert(idx1 != idx2);
        }
        let swapped = idx2 < idx1;
        let lo = if swapped { idx2 } else { idx1 };
        let hi = if swapped { idx1 } else { idx2 };
        let (left, right) = self.dense.as_mut_slice().split_at_mut(hi);
        let (_, left_tail) = left.split_at_mut(lo);
        let a = left_tail.first_mut().unwrap();
        let b = right.first_mut().unwrap();
        let va = &mut a.value;
        let vb = &mut b.value;
        if swapped {
            Some((vb, va))
        } else {
            Some((va, vb))
        }
    }

    /// Whether `key` holds a value.
    pub fn contains(&self, key: usize) -> (b: bool)
        requires
            self.wf(),
            key < self.spec_capacity(),
        ensures
            b == self@.contains_key(key),
    {
        self.dense_idx(key).is_some()
    }

    /// Stores `value` under `key`. Returns true when the key was new, false when an
    /// existing value was overwritten.
    pub fn insert(&mut self, key: usize, value: T) -> (added: bool)
        requires
            old(self).wf(),
            key < old(self).spec_capacity(),
        ensures
            final(self).wf(),
            added == !old(self)@.contains_key(key),
            final(self)@ == old(self)@.insert(key, value),
            final(self).spec_capacity() == old(self).spec_capacity(),
            added ==> final(self).keys() == old(self).keys().push(key),
            !added ==> final(self).keys() == old(self).keys(),
            final(self).keys() == with_key(old(self).keys(), key),
    {
        proof {
            old(self).lemma_keys_without_swap_removed(key);
        }
        if let Some(idx) = self.dense_idx(key) {
            let ghost old_self = *self;
            let old_entry_key = self.dense[idx].key;
            self.dense.set(idx, Entry { key: old_entry_key, value });
            assert(self@ =~= old_self@.insert(key, value));
            assert(self.keys() =~= old_self.keys());
            return false;
        }
        let ghost old_self = *self;
        let n = self.dense.len();
        proof {
            self.lemma_room_for_new_key(key);
            assert forall|i: int| 0 <= i < n implies (#[trigger] self.dense@[i]).key != key by {
                assert(self.sparse@[self.dense@[i].key as int] == i);
            }
        }
        self.dense.push(Entry { key, value });
        self.sparse.set(key, n);
        assert forall|i: int| 0 <= i < self.dense@.len() implies {
            &&& (#[trigger] self.dense@[i]).key < self.sparse@.len()
            &&& self.sparse@[self.dense@[i].key as int] == i
        } by {
            if i < n {
                assert(old_self.sparse@[old_self.dense@[i].key as int] == i);
            }
        }
        assert(self@ =~= old_self@.insert(key, value));
        assert(self.keys() =~= old_self.keys().push(key));
        true
    }

    /// Removes the value stored under `key` and returns it, or returns None when
    /// there is none.
    pub fn remove(&mut self, key: usize) -> (r: Option<T>)
        requires
            old(self).wf(),
            key < old(self).spec_capacity(),
        ensures
            final(self).wf(),
            r is Some <==> old(self)@.contains_key(key),
            r matches Some(v) ==> v == old(self)@[key],
            final(self)@ == old(self)@.remove(key),
            final(self).spec_capacity() == old(self).spec_capacity(),
            !old(self)@.contains_key(key) ==> *final(self) == *old(self),
            final(self).keys() == old(self).keys_without(key),
            final(self).keys() == swap_removed(old(self).keys(), key),
    {
        proof {
            old(self).lemma_keys_without_swap_removed(key);
        }
        if self.contains(key) {
            let ghost old_self = *self;
            let ghost n = self.dense@.len();
            let dense_idx = self.sparse[key];
            let ghost last = self.dense@[n - 1];
            let r = self.dense.swap_remove(dense_idx).value;
            if dense_idx < self.dense.len() {
                let swapped_key = self.dense[dense_idx].key;
                self.sparse.set(swapped_key, dense_idx);
            }
            let cap = self.sparse.len();
            self.sparse.set(key, cap);
            proof {
                assert(last.key != key ==> dense_idx < n - 1);
                assert forall|i: int| 0 <= i < self.dense@.len() implies {
                    &&& (#[trigger] self.dense@[i]).key < self.sparse@.len()
                    &&& self.sparse@[self.dense@[i].key as int] == i
                } by {
                    assert(old_self.sparse@[old_self.dense@[i].key as int] == i);
                    if i == dense_idx {
                        assert(old_self.sparse@[last.key as int] == n - 1);
                    }
                }
                assert forall|k: usize| #![auto] self.has(k) <==> (old_self.has(k) && k != key) by {
                    if old_self.has(k) && k != key {
                        let j = old_self.sparse@[k as int];
                        if j == n - 1 {
                            assert(old_self.dense@[n - 1].key == k);
                        }
                    }
                    if self.has(k) {
                        let j = self.sparse@[k as int];
                        if j == dense_idx {
                            assert(old_self.sparse@[last.key as int] == n - 1);
                        }
                    }
                }
                assert(self@ =~= old_self@.remove(key));
                assert(self.keys() =~= old_self.keys().update(dense_idx as int, old_self.keys().last()).drop_last());
            }
            Some(r)
        } else {
            proof {
                assert(self@ =~= self@.remove(key));
            }
            None
        }
    }
}

impl<T> SparseSet<T> {
    /// The stored entries, in storage order.
    pub fn entries(&self) -> (es: &[Entry<T>])
        ensures
            es@ == self.dense@,
    {
        self.dense.as_slice()
    }

    /// The stored entries, mutably, in storage order. Keys cannot be changed through
    /// them, only values.
    pub fn entries_mut(&mut self) -> (es: &mut [Entry<T>])
        ensures
            es@ == old(self).dense@,
            final(es)@ == final(self).dense@,
            final(self).sparse == old(self).sparse,
    {
        self.dense.as_mut_slice()
    }

    /// Consumes the set, handing out its entries in storage order.
    pub fn into_entries(self) -> (es: Vec<Entry<T>>)
        ensures
            es@ == self.dense@,
    {
        self.dense
    }
}

impl<T> core::ops::Deref for SparseSet<T> {
    type Target = [Entry<T>];

    fn deref(&self) -> (es: &[Entry<T>])
        ensures
            es@ == self.dense@,
    {
        self.dense.as_slice()
    }
}

impl<T> core::ops::DerefMut for SparseSet<T> {
    fn deref_mut(&mut self) -> (es: &mut [Entry<T>])
        ensures
            es@ == old(self).dense@,
            final(es)@ == final(self).dense@,
            final(self).sparse == old(self).sparse,
    {
        self.dense.as_mut_slice()
    }
}

} // verus!
