//! The backing-store capability: anything that owns, or has borrowed, a
//! contiguous sequence of elements and can lend it out as a slice.

use vstd::prelude::*;

verus! {

/// A holder of a contiguous, indexable sequence of `T`.
pub trait SliceStore<T>: Sized {
    /// The sequence of elements that the store holds.
    spec fn elements(&self) -> Seq<T>;

    /// Lends the content for reading.
    fn as_elements(&self) -> (slice: &[T])
        ensures
            slice@ == self.elements(),
    ;
}

/// A store whose elements can be overwritten in place.
pub trait SliceStoreMut<T>: SliceStore<T> {
    /// Lends the content for writing. Whatever the borrower leaves in the
    /// slice is what the store holds afterwards.
    fn as_elements_mut(&mut self) -> (slice: &mut [T])
        ensures
            slice@ == old(self).elements(),
            final(slice)@ == final(self).elements(),
    ;
}

impl<T> SliceStore<T> for Vec<T> {
    open spec fn elements(&self) -> Seq<T> {
        self@
    }

    fn as_elements(&self) -> (slice: &[T]) {
        self.as_slice()
    }
}

impl<T> SliceStoreMut<T> for Vec<T> {
    fn as_elements_mut(&mut self) -> (slice: &mut [T]) {
        self.as_mut_slice()
    }
}

impl<T> SliceStore<T> for Box<[T]> {
    open spec fn elements(&self) -> Seq<T> {
        (**self)@
    }

    fn as_elements(&self) -> (slice: &[T]) {
        &**self
    }
}

impl<T> SliceStoreMut<T> for Box<[T]> {
    fn as_elements_mut(&mut self) -> (slice: &mut [T]) {
        &mut **self
    }
}

impl<'s, T> SliceStore<T> for &'s [T] {
    open spec fn elements(&self) -> Seq<T> {
        (**self)@
    }

    fn as_elements(&self) -> (slice: &[T]) {
        *self
    }
}

impl<'s, T> SliceStore<T> for &'s mut [T] {
    open spec fn elements(&self) -> Seq<T> {
        (**self)@
    }

    fn as_elements(&self) -> (slice: &[T]) {
        &**self
    }
}

impl<'s, T> SliceStoreMut<T> for &'s mut [T] {
    fn as_elements_mut(&mut self) -> (slice: &mut [T]) {
        &mut **self
    }
}

} // verus!
