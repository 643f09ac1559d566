//! Point access by a shared location.

use vstd::prelude::*;
use crate::store::{SliceStore, SliceStoreMut};
use crate::channel::Channel;

verus! {

/// Point-read: lends the element stored at a location.
pub trait GetRef<'a, L>: Sized {
    type Item;

    /// Whether `location` addresses an element.
    spec fn has(&self, location: L) -> bool;

    /// What is stored at `location`.
    spec fn item_at(&self, location: L) -> Self::Item;

    /// Lends what is stored at `location`.
    fn get_ref(&'a self, location: L) -> (item: Self::Item)
        requires
            self.has(location),
        ensures
            item == self.item_at(location),
    ;
}

/// Point-read by value: a duplicate of the element stored at a location.
pub trait Get<L>: Sized {
    type Item;

    /// Whether `location` addresses an element.
    spec fn holds(&self, location: L) -> bool;

    /// Whether `item` is a duplicate of what is stored at `location`.
    spec fn copy_of(&self, location: L, item: Self::Item) -> bool;

    /// Hands out a duplicate of what is stored at `location`.
    fn get(&self, location: L) -> (item: Self::Item)
        requires
            self.holds(location),
        ensures
            self.copy_of(location, item),
    ;
}

/// Point-read-mutable: lends the element stored at a location for writing.
///
/// The trait states what is lent. Each implementation adds how the lender's
/// final content follows from what the borrower leaves behind.
pub trait GetMut<'a, L>: Sized {
    type Item;

    /// Whether `location` addresses an element.
    spec fn has_mut(&self, location: L) -> bool;

    /// Whether `item`, as it is handed out, shows what is stored at `location`.
    spec fn lends(&self, location: L, item: Self::Item) -> bool;

    /// Lends what is stored at `location` for writing.
    fn get_mut(&'a mut self, location: L) -> (item: Self::Item)
        requires
            old(self).has_mut(location),
        ensures
            old(self).lends(location, item),
    ;
}

impl<'a, T: 'a, Store: SliceStore<T>> GetRef<'a, usize> for Channel<T, Store> {
    type Item = &'a T;

    open spec fn has(&self, offset: usize) -> bool {
        offset < self@.len()
    }

    open spec fn item_at(&self, offset: usize) -> &'a T {
        &self@[offset as int]
    }

    /// Lends the element at `offset`.
    fn get_ref(&'a self, offset: usize) -> (item: &'a T) {
        &self.store().as_elements()[offset]
    }
}

impl<T: Clone, Store: SliceStore<T>> Get<usize> for Channel<T, Store> {
    type Item = T;

    open spec fn holds(&self, offset: usize) -> bool {
        offset < self@.len()
    }

    open spec fn copy_of(&self, offset: usize, item: T) -> bool {
        cloned(self@[offset as int], item)
    }

    /// A duplicate of the element at `offset`.
    fn get(&self, offset: usize) -> (item: T) {
        self.get_ref(offset).clone()
    }
}

impl<'a, T: 'a, Store: SliceStoreMut<T>> GetMut<'a, usize> for Channel<T, Store> {
    type Item = &'a mut T;

    open spec fn has_mut(&self, offset: usize) -> bool {
        offset < self@.len()
    }

    open spec fn lends(&self, offset: usize, item: &'a mut T) -> bool {
        *item == self@[offset as int]
    }

    /// Lends the element at `offset`. The channel ends up as it was, but for
    /// what the borrower leaves at `offset`: same length, same elements at
    /// every other offset.
    fn get_mut(&'a mut self, offset: usize) -> (item: &'a mut T)
        ensures
            final(self)@ == old(self)@.update(offset as int, *final(item)),
    {
        &mut self.store_mut().as_elements_mut()[offset]
    }
}

impl<'a, 'b, L, A: GetRef<'a, L>> GetRef<'a, L> for &'b A {
    type Item = A::Item;

    open spec fn has(&self, location: L) -> bool {
        (**self).has(location)
    }

    open spec fn item_at(&self, location: L) -> A::Item {
        (**self).item_at(location)
    }

    fn get_ref(&'a self, location: L) -> (item: A::Item) {
        (**self).get_ref(location)
    }
}

impl<L, A: Get<L>> Get<L> for &A {
    type Item = A::Item;

    open spec fn holds(&self, location: L) -> bool {
        (**self).holds(location)
    }

    open spec fn copy_of(&self, location: L, item: A::Item) -> bool {
        (**self).copy_of(location, item)
    }

    fn get(&self, location: L) -> (item: A::Item) {
        (**self).get(location)
    }
}

impl<'a, 'b, T: 'a, Store: SliceStoreMut<T>> GetMut<'a, usize> for &'b mut Channel<T, Store> {
    type Item = &'a mut T;

    open spec fn has_mut(&self, offset: usize) -> bool {
        offset < (**self)@.len()
    }

    open spec fn lends(&self, offset: usize, item: &'a mut T) -> bool {
        *item == (**self)@[offset as int]
    }

    /// Lends the element at `offset` of the borrowed channel. The reference
    /// keeps borrowing the same channel, which ends up as it was, but for
    /// what the borrower leaves at `offset`.
    fn get_mut(&'a mut self, offset: usize) -> (item: &'a mut T)
        ensures
            (**final(self))@ == (**old(self))@.update(offset as int, *final(item)),
            *final(*final(self)) == *final(*old(self)),
    {
        &mut (**self).store_mut().as_elements_mut()[offset]
    }
}

/// A value written through a mutable point-read is what a point-read at the
/// same offset then yields; every other offset stays valid and keeps its element.
pub proof fn lemma_write_then_read<T, Store: SliceStoreMut<T>>(
    before: Channel<T, Store>,
    after: Channel<T, Store>,
    offset: usize,
    written: T,
)
    requires
        before.has_mut(offset),
        after@ == before@.update(offset as int, written),
    ensures
        after.has(offset),
        *after.item_at(offset) == written,
        forall|other: usize| #[trigger] after.has(other) <==> before.has(other),
        forall|other: usize|
            other != offset && before.has(other) ==> *#[trigger] after.item_at(other)
                == *before.item_at(other),
{
}

} // verus!
