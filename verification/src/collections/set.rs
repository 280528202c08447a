//! A set with a fixed capacity: a map whose values carry nothing.

use crate::error::{PinoError, STACK_MAP_FULL};
use super::map::{
    distinct_keys, has_key, inserted, lemma_insert_then_get, lemma_remove_then_get,
    lemma_slot_is_unique, removed, slot_of, StackMap,
};
use vstd::prelude::*;
use vstd::laws_eq::obeys_concrete_eq;

verus! {

/// The keys of `entries`, in slot order.
pub open spec fn keys_of<T>(entries: Seq<(T, ())>) -> Seq<T> {
    Seq::new(entries.len(), |i: int| entries[i].0)
}

/// What inserting `value` makes of the `members` under `capacity`: a member
/// leaves them as they are, a new value goes to the end, and `None` says
/// that a new value found no room.
pub open spec fn set_inserted<T>(members: Seq<T>, capacity: nat, value: T) -> Option<Seq<T>> {
    if members.contains(value) {
        Some(members)
    } else if members.len() < capacity {
        Some(members.push(value))
    } else {
        None
    }
}

/// What removing `value` makes of the `members`: it leaves, and the later
/// ones close the gap in their order.
pub open spec fn set_removed<T>(members: Seq<T>, value: T) -> Seq<T> {
    if members.contains(value) {
        members.remove(members.index_of(value))
    } else {
        members
    }
}

/// Membership among the keys is the presence of the key, and inserting into
/// or removing from the entries does to the keys what [`set_inserted`] and
/// [`set_removed`] say.
proof fn lemma_keys_follow_entries<T>(entries: Seq<(T, ())>, capacity: nat, value: T)
    requires
        distinct_keys(entries),
    ensures
        keys_of(entries).contains(value) == has_key(entries, value),
        keys_of(entries).no_duplicates(),
        match inserted(entries, capacity, value, ()) {
            Some(after) => set_inserted(keys_of(entries), capacity, value) == Some(keys_of(after)),
            None => set_inserted(keys_of(entries), capacity, value) is None,
        },
        keys_of(removed(entries, value)) == set_removed(keys_of(entries), value),
{
    let keys = keys_of(entries);
    if has_key(entries, value) {
        let i = slot_of(entries, value);
        assert(keys[i] == value);
        let at = keys.index_of(value);
        assert(entries[at].0 == value);
        lemma_slot_is_unique(entries, at);
        assert(keys_of(entries.update(i, (value, ()))) =~= keys);
        assert(keys_of(entries.remove(i)) =~= keys.remove(i));
    } else {
        if keys.contains(value) {
            let at = keys.index_of(value);
            assert(entries[at].0 == value);
        }
        assert(keys_of(entries.push((value, ()))) =~= keys.push(value));
    }
}

/// A set with a fixed maximum capacity of `N` members, held in place and
/// searched front to back.
///
/// Its view is the sequence of members in the order in which they were
/// inserted, as far as they were not removed since; none occurs twice.
pub struct StackSet<T, const N: usize> {
    map: StackMap<T, (), N>,
}

impl<T, const N: usize> View for StackSet<T, N> {
    type V = Seq<T>;

    closed spec fn view(&self) -> Seq<T> {
        keys_of(self.map@)
    }
}

impl<T, const N: usize> StackSet<T, N> {
    /// Holds of every set that this module hands out. Every operation
    /// keeps it.
    pub closed spec fn wf(&self) -> bool {
        self.map.wf()
    }

    /// In a well-formed set no member occurs twice, and the members fit
    /// the capacity.
    pub proof fn lemma_members_distinct(&self)
        requires
            self.wf(),
        ensures
            self@.no_duplicates(),
            self@.len() <= N,
    {
        self.map.lemma_wf_means_distinct();
    }

    /// Returns the number of members.
    pub fn len(&self) -> (r: usize)
        requires
            self.wf(),
        ensures
            r == self@.len(),
            r <= N,
    {
        self.map.len()
    }

    /// Returns true if the set is empty.
    pub fn is_empty(&self) -> (r: bool)
        requires
            self.wf(),
        ensures
            r == (self@.len() == 0),
    {
        self.map.is_empty()
    }

    /// Returns the maximum capacity of the set.
    pub fn capacity(&self) -> (r: usize)
        ensures
            r == N,
    {
        N
    }

    /// Returns true if the set is at capacity.
    pub fn is_full(&self) -> (r: bool)
        requires
            self.wf(),
        ensures
            r == (self@.len() == N),
    {
        self.map.is_full()
    }
}

impl<T: PartialEq, const N: usize> StackSet<T, N> {
    /// Adds a value to the set and reports whether it was new: `true` when
    /// it was added, `false` when it was a member already. When the value is
    /// new and all `N` slots are taken, the set stays as it is and the error
    /// is `Custom(STACK_MAP_FULL)`.
    pub fn insert(&mut self, value: T) -> (r: Result<bool, PinoError>)
        requires
            old(self).wf(),
            obeys_concrete_eq::<T>(),
        ensures
            final(self).wf(),
            match set_inserted(old(self)@, N as nat, value) {
                Some(members) => r == Ok::<bool, PinoError>(!old(self)@.contains(value))
                    && final(self)@ == members,
                None => r == Err::<bool, PinoError>(PinoError::Custom(STACK_MAP_FULL))
                    && final(self)@ == old(self)@,
            },
            r is Ok ==> final(self)@.contains(value),
    {
        proof {
            self.map.lemma_wf_means_distinct();
            lemma_keys_follow_entries(self.map@, N as nat, value);
            if inserted(self.map@, N as nat, value, ()) is Some {
                let after = inserted(self.map@, N as nat, value, ())->0;
                lemma_insert_then_get(self.map@, N as nat, value, ());
                lemma_keys_follow_entries(after, N as nat, value);
            }
        }
        match self.map.insert(value, ()) {
            Ok(previous) => Ok(previous.is_none()),
            Err(error) => Err(error),
        }
    }

    /// Returns true if the value is a member.
    pub fn contains(&self, value: &T) -> (r: bool)
        requires
            self.wf(),
            obeys_concrete_eq::<T>(),
        ensures
            r == self@.contains(*value),
    {
        proof {
            self.map.lemma_wf_means_distinct();
            lemma_keys_follow_entries(self.map@, N as nat, *value);
        }
        self.map.contains_key(value)
    }
}

impl<T: Default, const N: usize> StackSet<T, N> {
    /// Creates a new empty StackSet.
    pub fn new() -> (r: Self)
        ensures
            r.wf(),
            r@ == Seq::<T>::empty(),
    {
        let r = StackSet { map: StackMap::new() };
        assert(r@ =~= Seq::<T>::empty());
        r
    }

    /// Clears the set: every member is released, first to last.
    pub fn clear(&mut self)
        requires
            old(self).wf(),
        ensures
            final(self).wf(),
            final(self)@ == Seq::<T>::empty(),
    {
        self.map.clear();
        assert(self@ =~= Seq::<T>::empty());
    }
}

impl<T: PartialEq + Default, const N: usize> StackSet<T, N> {
    /// Removes a value and reports whether it was a member. It is none
    /// afterwards, and the members that remain keep their order.
    pub fn remove(&mut self, value: &T) -> (r: bool)
        requires
            old(self).wf(),
            obeys_concrete_eq::<T>(),
        ensures
            final(self).wf(),
            r == old(self)@.contains(*value),
            final(self)@ == set_removed(old(self)@, *value),
            !final(self)@.contains(*value),
    {
        proof {
            self.map.lemma_wf_means_distinct();
            lemma_keys_follow_entries(self.map@, N as nat, *value);
            lemma_remove_then_get(self.map@, *value);
            lemma_keys_follow_entries(removed(self.map@, *value), N as nat, *value);
        }
        self.map.remove(value).is_some()
    }
}

impl<T: Default, const N: usize> Default for StackSet<T, N> {
    fn default() -> (r: Self)
        ensures
            r.wf(),
            r@ == Seq::<T>::empty(),
    {
        Self::new()
    }
}

} // verus!
