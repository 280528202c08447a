//! A map with a fixed capacity that finds keys by linear search.

use crate::error::{PinoError, STACK_MAP_FULL};
use super::vector::{take_slot, vacant_slots};
use vstd::prelude::*;
use vstd::laws_eq::obeys_concrete_eq;

verus! {

/// No key occurs in two entries.
pub open spec fn distinct_keys<K, V>(entries: Seq<(K, V)>) -> bool {
    forall|i: int, j: int| 0 <= i < j < entries.len() ==> entries[i].0 != entries[j].0
}

/// Some entry holds `key`.
pub open spec fn has_key<K, V>(entries: Seq<(K, V)>, key: K) -> bool {
    exists|i: int| 0 <= i < entries.len() && entries[i].0 == key
}

/// The position of an entry that holds `key`; the only one where the keys
/// are distinct. Meaningful only if there is such an entry.
pub open spec fn slot_of<K, V>(entries: Seq<(K, V)>, key: K) -> int {
    choose|i: int| 0 <= i < entries.len() && entries[i].0 == key
}

/// The value stored under `key`, if any.
pub open spec fn value_of<K, V>(entries: Seq<(K, V)>, key: K) -> Option<V> {
    if has_key(entries, key) {
        Some(entries[slot_of(entries, key)].1)
    } else {
        None
    }
}

/// What inserting `key` with `value` makes of `entries` under `capacity`:
/// an existing entry is overwritten where it stands, a new one goes to the
/// end, and `None` says that a new one found no room.
pub open spec fn inserted<K, V>(entries: Seq<(K, V)>, capacity: nat, key: K, value: V) -> Option<
    Seq<(K, V)>,
> {
    if has_key(entries, key) {
        Some(entries.update(slot_of(entries, key), (key, value)))
    } else if entries.len() < capacity {
        Some(entries.push((key, value)))
    } else {
        None
    }
}

/// What removing `key` makes of `entries`: its entry leaves and the later
/// ones close the gap, each moving one place towards the front.
pub open spec fn removed<K, V>(entries: Seq<(K, V)>, key: K) -> Seq<(K, V)> {
    if has_key(entries, key) {
        entries.remove(slot_of(entries, key))
    } else {
        entries
    }
}

/// Where the keys are distinct, the entry at position `i` is the one that
/// `slot_of` and `value_of` find for its key.
pub proof fn lemma_slot_is_unique<K, V>(entries: Seq<(K, V)>, i: int)
    requires
        distinct_keys(entries),
        0 <= i < entries.len(),
    ensures
        has_key(entries, entries[i].0),
        slot_of(entries, entries[i].0) == i,
        value_of(entries, entries[i].0) == Some(entries[i].1),
{
    let key = entries[i].0;
    let found = slot_of(entries, key);
    assert(0 <= found < entries.len() && entries[found].0 == key);
    if found < i {
        assert(entries[found].0 != entries[i].0);
    } else if i < found {
        assert(entries[i].0 != entries[found].0);
    }
}

/// An insertion that succeeds keeps the keys distinct, and a lookup of the
/// inserted key then yields the inserted value.
pub proof fn lemma_insert_then_get<K, V>(entries: Seq<(K, V)>, capacity: nat, key: K, value: V)
    requires
        distinct_keys(entries),
        inserted(entries, capacity, key, value) is Some,
    ensures
        distinct_keys(inserted(entries, capacity, key, value)->0),
        value_of(inserted(entries, capacity, key, value)->0, key) == Some(value),
{
    let after = inserted(entries, capacity, key, value)->0;
    if has_key(entries, key) {
        let i = slot_of(entries, key);
        assert(after[i] == (key, value));
        assert forall|a: int, b: int| 0 <= a < b < after.len() implies after[a].0 != after[b].0 by {
            assert(after[a].0 == entries[a].0 && after[b].0 == entries[b].0);
        }
        lemma_slot_is_unique(after, i);
    } else {
        let i = entries.len() as int;
        assert(after[i] == (key, value));
        assert forall|a: int, b: int| 0 <= a < b < after.len() implies after[a].0 != after[b].0 by {
            if b < i {
                assert(after[a].0 == entries[a].0 && after[b].0 == entries[b].0);
            } else {
                assert(after[a] == entries[a]);
            }
        }
        lemma_slot_is_unique(after, i);
    }
}

/// Inserting a key that is present overwrites in place, whatever the
/// capacity and however full the map: the insertion succeeds, the value it
/// replaces is the one that a lookup found before, a lookup afterwards
/// finds the new one, and nothing changes but the value in that one entry,
/// so the length and every position stay as they were.
pub proof fn lemma_insert_present_overwrites<K, V>(
    entries: Seq<(K, V)>,
    capacity: nat,
    key: K,
    value: V,
)
    requires
        distinct_keys(entries),
        has_key(entries, key),
    ensures
        ({
            let i = slot_of(entries, key);
            let after = inserted(entries, capacity, key, value);
            &&& 0 <= i < entries.len()
            &&& value_of(entries, key) == Some(entries[i].1)
            &&& after == Some(entries.update(i, (key, value)))
            &&& after->0.len() == entries.len()
            &&& after->0[i] == (key, value)
            &&& forall|j: int| 0 <= j < entries.len() && j != i ==> after->0[j] == entries[j]
            &&& distinct_keys(after->0)
            &&& value_of(after->0, key) == Some(value)
        }),
{
    lemma_insert_then_get(entries, capacity, key, value);
}

/// A key is present exactly where a lookup finds a value for it.
pub proof fn lemma_present_iff_found<K, V>(entries: Seq<(K, V)>, key: K)
    ensures
        has_key(entries, key) == (value_of(entries, key) is Some),
{
}

/// Inserting a key a second time overwrites in place: the second insertion
/// succeeds whatever the capacity allows, finds the first value as the one
/// it replaces, and changes nothing but the value in that one entry, so the
/// length and every position stay as they were.
pub proof fn lemma_insert_twice_overwrites<K, V>(
    entries: Seq<(K, V)>,
    capacity: nat,
    key: K,
    first: V,
    second: V,
)
    requires
        distinct_keys(entries),
        inserted(entries, capacity, key, first) is Some,
    ensures
        ({
            let once = inserted(entries, capacity, key, first)->0;
            let twice = inserted(once, capacity, key, second);
            &&& value_of(once, key) == Some(first)
            &&& twice == Some(once.update(slot_of(once, key), (key, second)))
            &&& twice->0.len() == once.len()
            &&& forall|i: int|
                0 <= i < once.len() && i != slot_of(once, key) ==> twice->0[i] == once[i]
        }),
{
    lemma_insert_then_get(entries, capacity, key, first);
}

/// After a removal the key is gone, the keys are still distinct, and the
/// entries that remain keep their relative order: those before the removed
/// one stay in place, those after it each move up by one.
pub proof fn lemma_remove_then_get<K, V>(entries: Seq<(K, V)>, key: K)
    requires
        distinct_keys(entries),
    ensures
        value_of(removed(entries, key), key) is None,
        distinct_keys(removed(entries, key)),
        has_key(entries, key) ==> {
            let i = slot_of(entries, key);
            &&& removed(entries, key).len() == entries.len() - 1
            &&& forall|j: int| 0 <= j < i ==> removed(entries, key)[j] == entries[j]
            &&& forall|j: int|
                i <= j < entries.len() - 1 ==> removed(entries, key)[j] == entries[j + 1]
        },
        !has_key(entries, key) ==> removed(entries, key) == entries,
{
    let after = removed(entries, key);
    if has_key(entries, key) {
        let i = slot_of(entries, key);
        assert forall|a: int, b: int| 0 <= a < b < after.len() implies after[a].0 != after[b].0 by {
            let from_a = if a < i { a } else { a + 1 };
            let from_b = if b < i { b } else { b + 1 };
            assert(after[a] == entries[from_a] && after[b] == entries[from_b]);
        }
        if has_key(after, key) {
            let k = slot_of(after, key);
            let from_k = if k < i { k } else { k + 1 };
            assert(after[k] == entries[from_k]);
            if from_k < i {
                assert(entries[from_k].0 != entries[i].0);
            } else {
                assert(entries[i].0 != entries[from_k].0);
            }
        }
    }
}

/// Borrows the value in slot `i`; the key beside it is out of reach.
fn value_at_mut<K, V, const N: usize>(data: &mut [(K, V); N], i: usize) -> (value: &mut V)
    requires
        i < N,
    ensures
        *value == old(data)@[i as int].1,
        final(data)@ == old(data)@.update(i as int, (old(data)@[i as int].0, *final(value))),
{
    &mut data[i].1
}

/// A map with a fixed maximum capacity of `N` entries, held in place and
/// searched front to back.
///
/// Its view is the sequence of entries in slot order: keys in the order in
/// which they were first inserted, as far as they were not removed since.
/// The slots behind them hold default values, which no operation shows.
///
/// The operations that compare keys ask that `==` on `K` is the equality
/// of the specifications, as it is for the integers.
pub struct StackMap<K, V, const N: usize> {
    data: [(K, V); N],
    len: usize,
}

impl<K, V, const N: usize> View for StackMap<K, V, N> {
    type V = Seq<(K, V)>;

    closed spec fn view(&self) -> Seq<(K, V)> {
        self.data@.subrange(0, self.len as int)
    }
}

impl<K, V, const N: usize> StackMap<K, V, N> {
    /// Holds of every map that this module hands out: the length stays
    /// within the capacity and no key is stored twice. Every operation keeps
    /// it.
    pub closed spec fn wf(&self) -> bool {
        &&& self.len <= N
        &&& distinct_keys(self@)
    }

    /// In a well-formed map the keys are distinct and fit the capacity.
    pub proof fn lemma_wf_means_distinct(&self)
        requires
            self.wf(),
        ensures
            distinct_keys(self@),
            self@.len() <= N,
    {
    }

    /// Returns the number of key-value pairs in the map.
    pub fn len(&self) -> (r: usize)
        requires
            self.wf(),
        ensures
            r == self@.len(),
            r <= N,
    {
        self.len
    }

    /// Returns true if the map is empty.
    pub fn is_empty(&self) -> (r: bool)
        requires
            self.wf(),
        ensures
            r == (self@.len() == 0),
    {
        self.len == 0
    }

    /// Returns the maximum capacity of the map.
    pub fn capacity(&self) -> (r: usize)
        ensures
            r == N,
    {
        N
    }

    /// Returns true if the map is at capacity.
    pub fn is_full(&self) -> (r: bool)
        requires
            self.wf(),
        ensures
            r == (self@.len() == N),
    {
        self.len == N
    }
}

impl<K: PartialEq, V, const N: usize> StackMap<K, V, N> {
    /// Searches the live slots front to back for `key`.
    fn find(&self, key: &K) -> (r: Option<usize>)
        requires
            self.wf(),
            obeys_concrete_eq::<K>(),
        ensures
            match r {
                Some(i) => has_key(self@, *key) && i == slot_of(self@, *key) && i < self@.len(),
                None => !has_key(self@, *key),
            },
    {
        let mut i: usize = 0;
        while i < self.len
            invariant
                i <= self.len <= N,
                self.wf(),
                obeys_concrete_eq::<K>(),
                forall|j: int| 0 <= j < i ==> self@[j].0 != *key,
            decreases self.len - i,
        {
            proof {
                reveal(obeys_concrete_eq);
            }
            if self.data[i].0 == *key {
                proof {
                    assert(self@[i as int].0 == *key);
                    lemma_slot_is_unique(self@, i as int);
                }
                return Some(i);
            }
            i += 1;
        }
        None
    }

    /// Inserts a key-value pair into the map.
    ///
    /// A key that is already present keeps its slot; its value is replaced
    /// and the old value returned. A new key goes to the end. When the key
    /// is new and all `N` slots are taken, the map stays as it is and the
    /// error is `Custom(STACK_MAP_FULL)`.
    pub fn insert(&mut self, key: K, value: V) -> (r: Result<Option<V>, PinoError>)
        requires
            old(self).wf(),
            obeys_concrete_eq::<K>(),
        ensures
            final(self).wf(),
            match inserted(old(self)@, N as nat, key, value) {
                Some(entries) => r == Ok::<Option<V>, PinoError>(value_of(old(self)@, key))
                    && final(self)@ == entries,
                None => r == Err::<Option<V>, PinoError>(PinoError::Custom(STACK_MAP_FULL))
                    && final(self)@ == old(self)@,
            },
    {
        proof {
            if inserted(self@, N as nat, key, value) is Some {
                lemma_insert_then_get(self@, N as nat, key, value);
            }
        }
        match self.find(&key) {
            Some(i) => {
                let mut entry = (key, value);
                core::mem::swap(&mut self.data[i], &mut entry);
                assert(self@ =~= old(self)@.update(i as int, (key, value)));
                Ok(Some(entry.1))
            },
            None => {
                if self.len >= N {
                    return Err(PinoError::Custom(STACK_MAP_FULL));
                }
                self.data[self.len] = (key, value);
                self.len += 1;
                assert(self@ =~= old(self)@.push((key, value)));
                Ok(None)
            },
        }
    }

    /// Gets a reference to the value associated with the key.
    pub fn get(&self, key: &K) -> (r: Option<&V>)
        requires
            self.wf(),
            obeys_concrete_eq::<K>(),
        ensures
            match r {
                Some(v) => value_of(self@, *key) == Some(*v),
                None => value_of(self@, *key) is None,
            },
    {
        match self.find(key) {
            Some(i) => Some(&self.data[i].1),
            None => None,
        }
    }

    /// Gets a mutable reference to the value associated with the key. What
    /// is written through it becomes the value of that entry; nothing else
    /// changes.
    pub fn get_mut(&mut self, key: &K) -> (r: Option<&mut V>)
        requires
            old(self).wf(),
            obeys_concrete_eq::<K>(),
        ensures
            final(self).wf(),
            match r {
                Some(v) => value_of(old(self)@, *key) == Some(*v) && final(self)@ == old(self)@.update(slot_of(old(self)@, *key), (*key, *final(v))),
                None => value_of(old(self)@, *key) is None && final(self)@ == old(self)@,
            },
    {
        match self.find(key) {
            Some(i) => {
                let value = value_at_mut(&mut self.data, i);
                proof {
                    let entries = old(self)@;
                    let after = entries.update(i as int, (*key, *final(value)));
                    assert forall|a: int, b: int| 0 <= a < b < after.len() implies after[a].0
                        != after[b].0 by {
                        assert(after[a].0 == entries[a].0 && after[b].0 == entries[b].0);
                    }
                    assert(after_borrow(self.data)@.subrange(0, old(self).len as int) =~= after);
                }
                Some(value)
            },
            None => None,
        }
    }

    /// Returns true if the map contains the key.
    pub fn contains_key(&self, key: &K) -> (r: bool)
        requires
            self.wf(),
            obeys_concrete_eq::<K>(),
        ensures
            r == has_key(self@, *key),
    {
        self.get(key).is_some()
    }
}

impl<K: Default, V: Default, const N: usize> StackMap<K, V, N> {
    /// Creates a new empty StackMap.
    pub fn new() -> (r: Self)
        ensures
            r.wf(),
            r@ == Seq::<(K, V)>::empty(),
    {
        let r = StackMap { data: vacant_slots::<(K, V), N>(), len: 0 };
        assert(r@ =~= Seq::<(K, V)>::empty());
        r
    }

    /// Clears the map: every entry is released, first to last, and the
    /// length becomes zero.
    pub fn clear(&mut self)
        requires
            old(self).wf(),
        ensures
            final(self).wf(),
            final(self)@ == Seq::<(K, V)>::empty(),
    {
        let mut i: usize = 0;
        while i < self.len
            invariant
                i <= self.len <= N,
            decreases self.len - i,
        {
            let _released = take_slot(&mut self.data, i);
            i += 1;
        }
        self.len = 0;
        assert(self@ =~= Seq::<(K, V)>::empty());
    }
}

impl<K: PartialEq + Default, V: Default, const N: usize> StackMap<K, V, N> {
    /// Removes a key-value pair from the map and returns its value.
    ///
    /// The entries behind the removed one move down by one slot each, so
    /// those that remain keep their order.
    pub fn remove(&mut self, key: &K) -> (r: Option<V>)
        requires
            old(self).wf(),
            obeys_concrete_eq::<K>(),
        ensures
            final(self).wf(),
            r == value_of(old(self)@, *key),
            final(self)@ == removed(old(self)@, *key),
    {
        proof {
            lemma_remove_then_get(self@, *key);
        }
        match self.find(key) {
            Some(i) => {
                let taken = take_slot(&mut self.data, i);
                let mut j: usize = i;
                while j + 1 < self.len
                    invariant
                        i <= j < self.len <= N,
                        self.len == old(self).len,
                        forall|k: int| 0 <= k < i ==> self.data@[k] == old(self).data@[k],
                        forall|k: int| i <= k < j ==> self.data@[k] == old(self).data@[k + 1],
                        forall|k: int|
                            j < k < self.len ==> self.data@[k] == old(self).data@[k],
                    decreases self.len - j,
                {
                    let moved = take_slot(&mut self.data, j + 1);
                    self.data[j] = moved;
                    j += 1;
                }
                self.len -= 1;
                assert(self@ =~= old(self)@.remove(i as int));
                Some(taken.1)
            },
            None => None,
        }
    }
}

impl<K: Default, V: Default, const N: usize> Default for StackMap<K, V, N> {
    fn default() -> (r: Self)
        ensures
            r.wf(),
            r@ == Seq::<(K, V)>::empty(),
    {
        Self::new()
    }
}

} // verus!
