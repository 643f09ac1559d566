//! A single fixed-length channel of typed data.

use vstd::prelude::*;
use crate::store::{SliceStore, SliceStoreMut};
use core::mem::MaybeUninit;
use vstd::std_specs::cmp::{PartialEqSpec, PartialEqSpecImpl};
use vstd::std_specs::maybe_uninit::MaybeUninitAdditionalSpecFns;

verus! {

/// One homogeneous attribute array: a backing store tagged with its element type.
#[derive(Debug)]
pub struct Channel<T, Store = Vec<T>> {
    store: Store,
    marker: core::marker::PhantomData<T>,
}

impl<T, Store> Channel<T, Store> {
    /// The backing store that the channel owns.
    pub closed spec fn spec_store(&self) -> &Store {
        &self.store
    }

    /// Wraps an existing store without touching its elements.
    pub fn new(store: Store) -> (channel: Self)
        ensures
            *channel.spec_store() == store,
    {
        Self { store, marker: core::marker::PhantomData }
    }

    /// Gives up the channel and hands the backing store to the caller.
    pub fn take_store(self) -> (store: Store)
        ensures
            store == *self.spec_store(),
    {
        self.store
    }

    /// Borrows the backing store.
    #[verifier::when_used_as_spec(spec_store)]
    pub fn store(&self) -> (store: &Store)
        ensures
            *store == *self.spec_store(),
    {
        &self.store
    }

    /// Borrows the backing store mutably.
    pub fn store_mut(&mut self) -> (store: &mut Store)
        ensures
            *store == *old(self).spec_store(),
            *final(self).spec_store() == *final(store),
    {
        &mut self.store
    }
}

impl<T, Store: SliceStore<T>> View for Channel<T, Store> {
    type V = Seq<T>;

    open spec fn view(&self) -> Seq<T> {
        self.spec_store().elements()
    }
}

impl<T, Store: SliceStoreMut<T>> Channel<T, Store> {
    /// Overwrites every element with a duplicate of `value`; the length stays.
    pub fn reset_values(&mut self, value: T)
        where T: Clone
        ensures
            is_reset(final(self)@, old(self)@, value),
    {
        let s = self.store.as_elements_mut();
        let n: usize = s.len();
        if n > 0 {
            let mut i: usize = 0;
            while i < n - 1
                invariant
                    s@.len() == n,
                    i <= n - 1,
                    forall|j: int| 0 <= j < i ==> cloned(value, #[trigger] s@[j]),
                decreases n - i,
            {
                s[i] = value.clone();
                i += 1;
            }
            s[n - 1] = value;
        }
    }
}

/// A sequence of `length` elements, each a duplicate of `value`.
pub open spec fn is_filled<T: Clone>(s: Seq<T>, value: T, length: usize) -> bool {
    &&& s.len() == length
    &&& forall|i: int| 0 <= i < s.len() ==> cloned(value, #[trigger] s[i])
}

/// A sequence as long as `before`, each element a duplicate of `value`.
pub open spec fn is_reset<T: Clone>(s: Seq<T>, before: Seq<T>, value: T) -> bool {
    &&& s.len() == before.len()
    &&& forall|i: int| 0 <= i < s.len() ==> cloned(value, #[trigger] s[i])
}

impl<T> Channel<T, Vec<T>> {
    /// A new channel of `length` elements, each a duplicate of `value`.
    pub fn fill(value: T, length: usize) -> (channel: Self)
        where T: Clone
        ensures
            is_filled(channel@, value, length),
    {
        Self::new(vec![value; length])
    }
}

impl<T> Channel<MaybeUninit<T>, Vec<MaybeUninit<T>>> {
    /// Reserves `size` slots, none of which holds a value yet.
    pub fn maybe_uninit(size: usize) -> (channel: Self)
        ensures
            channel@.len() == size,
            forall|i: int| 0 <= i < size ==> (#[trigger] channel@[i]).as_option() == None::<T>,
    {
        let mut store: Vec<MaybeUninit<T>> = Vec::with_capacity(size);
        let mut i: usize = 0;
        while i < size
            invariant
                i <= size,
                store@.len() == i,
                forall|j: int| 0 <= j < i ==> (#[trigger] store@[j]).as_option() == None::<T>,
            decreases size - i,
        {
            store.push(MaybeUninit::uninit());
            i += 1;
        }
        Self::new(store)
    }
}

impl<T: Clone, Store: Clone> Clone for Channel<T, Store> {
    /// A channel over a duplicate of the store.
    fn clone(&self) -> (copy: Self)
        ensures
            cloned(*self.spec_store(), *copy.spec_store()),
    {
        Self::new(self.store.clone())
    }
}

impl<T: PartialEq, Store: PartialEq> PartialEq for Channel<T, Store> {
    /// Two channels are equal when their stores are.
    fn eq(&self, other: &Self) -> (equal: bool) {
        self.store == other.store
    }
}

impl<T: PartialEq, Store: PartialEq> PartialEqSpecImpl for Channel<T, Store> {
    open spec fn obeys_eq_spec() -> bool {
        Store::obeys_eq_spec()
    }

    open spec fn eq_spec(&self, other: &Self) -> bool {
        self.spec_store().eq_spec(other.spec_store())
    }
}

impl<T: Eq, Store: Eq> Eq for Channel<T, Store> {
}

/// A channel is determined by its store: wrapping the store that another
/// channel gave up yields that channel again.
pub proof fn lemma_rewrapped_store_is_same_channel<T, Store>(
    channel: Channel<T, Store>,
    rewrapped: Channel<T, Store>,
)
    requires
        *rewrapped.spec_store() == *channel.spec_store(),
    ensures
        rewrapped == channel,
{
}

} // verus!
