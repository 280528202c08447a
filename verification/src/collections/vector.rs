//! A sequence with a fixed capacity.

use crate::error::{PinoError, STACK_VEC_FULL};
use vstd::prelude::*;

verus! {

/// What pushing `value` makes of `items` under `capacity`: the extended
/// sequence, or `None` when `items` already fills the capacity.
pub open spec fn pushed<T>(items: Seq<T>, capacity: nat, value: T) -> Option<Seq<T>> {
    if items.len() < capacity {
        Some(items.push(value))
    } else {
        None
    }
}

/// What pushing each of `values` in turn makes of `items` under `capacity`;
/// `None` as soon as one push is refused.
pub open spec fn pushed_all<T>(items: Seq<T>, capacity: nat, values: Seq<T>) -> Option<Seq<T>>
    decreases values.len(),
{
    if values.len() == 0 {
        Some(items)
    } else {
        match pushed_all(items, capacity, values.drop_last()) {
            Some(prefix) => pushed(prefix, capacity, values.last()),
            None => None,
        }
    }
}

/// What popping makes of `items`: the element taken, if any, and what stays.
pub open spec fn popped<T>(items: Seq<T>) -> (Option<T>, Seq<T>) {
    if items.len() == 0 {
        (None, items)
    } else {
        (Some(items.last()), items.drop_last())
    }
}

/// Pushing at most `capacity` values onto an empty vector succeeds every
/// time and leaves exactly those values, in the order they were pushed.
pub proof fn lemma_pushes_fill_in_order<T>(capacity: nat, values: Seq<T>)
    requires
        values.len() <= capacity,
    ensures
        pushed_all(Seq::<T>::empty(), capacity, values) == Some(values),
    decreases values.len(),
{
    if values.len() > 0 {
        lemma_pushes_fill_in_order(capacity, values.drop_last());
        assert(values.drop_last().push(values.last()) =~= values);
    }
}

/// A push onto a vector that holds `capacity` elements is refused, whatever
/// the value.
pub proof fn lemma_push_when_full<T>(items: Seq<T>, capacity: nat, value: T)
    requires
        items.len() == capacity,
    ensures
        pushed(items, capacity, value) is None,
{
}

/// A pop right after a successful push returns the pushed value and leaves
/// the contents, and so the length, as they were before the push.
pub proof fn lemma_push_then_pop<T>(items: Seq<T>, capacity: nat, value: T)
    requires
        items.len() < capacity,
    ensures
        popped(pushed(items, capacity, value)->0) == (Some(value), items),
{
    assert(items.push(value).drop_last() =~= items);
}

/// What a slot holds before an element is put there: the default value of
/// its type, whatever the index.
fn vacant<T: Default>(_index: usize) -> (value: T)
    ensures
        call_ensures(T::default, (), value),
{
    T::default()
}

/// Builds an array with [`core::array::from_fn`], which calls the given
/// function once per index, in order, and stores what it returns; here every
/// slot gets `T::default()`. Nothing is claimed of the contents.
#[verifier::external_body]
pub(crate) fn vacant_slots<T: Default, const N: usize>() -> (slots: [T; N]) {
    core::array::from_fn(vacant::<T>)
}

/// Declares [`core::slice::IterMut`], which is only handed through.
#[verifier::external_type_specification]
#[verifier::external_body]
#[verifier::reject_recursive_types(T)]
pub struct ExIterMut<'a, T: 'a>(core::slice::IterMut<'a, T>);

/// Calls `<[T]>::iter_mut`. The iterator hands out each element once, by
/// mutable reference, so the slice keeps its length whatever is done with it.
#[verifier::external_body]
fn slice_iter_mut<'a, T>(slice: &'a mut [T]) -> (iter: core::slice::IterMut<'a, T>)
    ensures
        final(slice)@.len() == old(slice)@.len(),
{
    slice.iter_mut()
}

/// A vector with a fixed maximum capacity of `N` elements, held in place.
///
/// Its view is the sequence of elements pushed and not yet popped, oldest
/// first. The slots behind them hold default values, which no operation
/// shows.
pub struct StackVec<T, const N: usize> {
    data: [T; N],
    len: usize,
}

impl<T, const N: usize> View for StackVec<T, N> {
    type V = Seq<T>;

    closed spec fn view(&self) -> Seq<T> {
        self.data@.subrange(0, self.len as int)
    }
}

impl<T, const N: usize> StackVec<T, N> {
    /// Holds of every vector that this module hands out: the length stays
    /// within the capacity. Every operation keeps it.
    pub closed spec fn wf(&self) -> bool {
        self.len <= N
    }

    /// Returns the number of elements in the vector.
    pub fn len(&self) -> (r: usize)
        requires
            self.wf(),
        ensures
            r == self@.len(),
            r <= N,
    {
        self.len
    }

    /// Returns true if the vector is empty.
    pub fn is_empty(&self) -> (r: bool)
        requires
            self.wf(),
        ensures
            r == (self@.len() == 0),
    {
        self.len == 0
    }

    /// Returns the maximum capacity of the vector.
    pub fn capacity(&self) -> (r: usize)
        ensures
            r == N,
    {
        N
    }

    /// Returns true if the vector is at capacity.
    pub fn is_full(&self) -> (r: bool)
        requires
            self.wf(),
        ensures
            r == (self@.len() == N),
    {
        self.len == N
    }

    /// Pushes an element to the end of the vector, or refuses it with
    /// `Custom(STACK_VEC_FULL)` and leaves the vector untouched when all `N`
    /// slots are taken.
    pub fn push(&mut self, value: T) -> (r: Result<(), PinoError>)
        requires
            old(self).wf(),
        ensures
            final(self).wf(),
            match pushed(old(self)@, N as nat, value) {
                Some(items) => r == Ok::<(), PinoError>(()) && final(self)@ == items,
                None => r == Err::<(), PinoError>(PinoError::Custom(STACK_VEC_FULL))
                    && final(self)@ == old(self)@,
            },
    {
        if self.len >= N {
            return Err(PinoError::Custom(STACK_VEC_FULL));
        }
        self.data[self.len] = value;
        self.len += 1;
        assert(self@ =~= old(self)@.push(value));
        Ok(())
    }

    /// Returns a slice of the elements.
    pub fn as_slice(&self) -> (r: &[T])
        requires
            self.wf(),
        ensures
            r@ == self@,
    {
        let whole = self.data.as_slice();
        &whole[0..self.len]
    }

    /// Returns a mutable slice of the elements. What is written through it
    /// becomes the vector's contents.
    pub fn as_mut_slice(&mut self) -> (r: &mut [T])
        requires
            old(self).wf(),
        ensures
            r@ == old(self)@,
            final(self).wf(),
            final(self)@ == final(r)@,
    {
        let whole: &mut [T] = &mut self.data;
        let (head, _tail) = whole.split_at_mut(self.len);
        head
    }

    /// Returns an iterator over the elements, first to last.
    pub fn iter(&self) -> (r: core::slice::Iter<'_, T>)
        requires
            self.wf(),
        ensures
            vstd::std_specs::slice::into_iter_elts(r) == self@,
    {
        let r = self.as_slice().iter();
        proof {
            broadcast use vstd::std_specs::slice::axiom_spec_slice_iter;
            assert(vstd::std_specs::slice::into_iter_elts(r) =~= self@);
        }
        r
    }

    /// Returns an iterator that hands out each element once, first to last,
    /// by mutable reference. The vector keeps its length.
    pub fn iter_mut(&mut self) -> (r: core::slice::IterMut<'_, T>)
        requires
            old(self).wf(),
        ensures
            final(self).wf(),
            final(self)@.len() == old(self)@.len(),
    {
        slice_iter_mut(self.as_mut_slice())
    }
}

/// Moves the element out of slot `i`, leaving a default value in its place.
pub(crate) fn take_slot<T: Default, const N: usize>(data: &mut [T; N], i: usize) -> (taken: T)
    requires
        i < N,
    ensures
        taken == old(data)@[i as int],
        forall|j: int| 0 <= j < N && j != i ==> final(data)@[j] == old(data)@[j],
{
    let mut taken = T::default();
    core::mem::swap(&mut data[i], &mut taken);
    taken
}

impl<T: Default, const N: usize> StackVec<T, N> {
    /// Creates a new empty StackVec.
    pub fn new() -> (r: Self)
        ensures
            r.wf(),
            r@ == Seq::<T>::empty(),
    {
        let r = StackVec { data: vacant_slots::<T, N>(), len: 0 };
        assert(r@ =~= Seq::<T>::empty());
        r
    }

    /// Removes and returns the last element, or None if empty.
    pub fn pop(&mut self) -> (r: Option<T>)
        requires
            old(self).wf(),
        ensures
            final(self).wf(),
            (r, final(self)@) == popped(old(self)@),
    {
        if self.len == 0 {
            return None;
        }
        self.len -= 1;
        let taken = take_slot(&mut self.data, self.len);
        assert(self@ =~= old(self)@.drop_last());
        Some(taken)
    }

    /// Clears the vector: every element is released, first to last, and the
    /// length becomes zero.
    pub fn clear(&mut self)
        requires
            old(self).wf(),
        ensures
            final(self).wf(),
            final(self)@ == Seq::<T>::empty(),
    {
        let mut i: usize = 0;
        while i < self.len
            invariant
                i <= self.len <= N,
            decreases self.len - i,
        {
            let _released = take_slot(&mut self.data, i);
            i += 1;
        }
        self.len = 0;
        assert(self@ =~= Seq::<T>::empty());
    }
}

impl<T: Default, const N: usize> Default for StackVec<T, N> {
    fn default() -> (r: Self)
        ensures
            r.wf(),
            r@ == Seq::<T>::empty(),
    {
        Self::new()
    }
}

} // verus!
