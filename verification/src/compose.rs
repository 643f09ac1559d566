//! Driving one channel, or a tuple of channels, through one pair of operations.

use vstd::prelude::*;
use crate::access::GetRef;
use crate::channel::{is_filled, is_reset, Channel};

verus! {

/// One channel or a fixed tuple of channels, filled and reset as a unit.
pub trait Channels: Sized {
    /// One value per member channel.
    type Data;

    /// Whether every member has `length` elements, each a duplicate of the
    /// member's own part of `value`.
    spec fn filled_with(&self, value: Self::Data, length: usize) -> bool;

    /// Whether every member is as long as it was in `before` and holds only
    /// duplicates of its own part of `value`.
    spec fn reset_from(&self, before: &Self, value: Self::Data) -> bool;

    /// New channels of `length` elements each, every member filled from its
    /// own part of `value`.
    fn fill(value: Self::Data, length: usize) -> (channels: Self)
        ensures
            channels.filled_with(value, length),
    ;

    /// Overwrites every element of every member with the member's own part
    /// of `value`; no length changes.
    fn reset_values(&mut self, value: Self::Data)
        ensures
            final(self).reset_from(old(self), value),
    ;
}

impl<T: Clone> Channels for Channel<T> {
    type Data = T;

    open spec fn filled_with(&self, value: T, length: usize) -> bool {
        is_filled(self@, value, length)
    }

    open spec fn reset_from(&self, before: &Self, value: T) -> bool {
        is_reset(self@, before@, value)
    }

    fn fill(value: T, length: usize) -> (channels: Self) {
        Channel::fill(value, length)
    }

    fn reset_values(&mut self, value: T) {
        Channel::reset_values(self, value)
    }
}

impl<A: Channels> Channels for (A,) {
    type Data = (A::Data,);

    open spec fn filled_with(&self, value: (A::Data,), length: usize) -> bool {
        &&& self.0.filled_with(value.0, length)
    }

    open spec fn reset_from(&self, before: &Self, value: (A::Data,)) -> bool {
        &&& self.0.reset_from(&before.0, value.0)
    }

    fn fill(value: (A::Data,), length: usize) -> (channels: Self) {
        (
            A::fill(value.0, length),
        )
    }

    fn reset_values(&mut self, value: (A::Data,)) {
        self.0.reset_values(value.0);
    }
}

impl<A: Channels, B: Channels> Channels for (A, B) {
    type Data = (A::Data, B::Data);

    open spec fn filled_with(&self, value: (A::Data, B::Data), length: usize) -> bool {
        &&& self.0.filled_with(value.0, length)
        &&& self.1.filled_with(value.1, length)
    }

    open spec fn reset_from(&self, before: &Self, value: (A::Data, B::Data)) -> bool {
        &&& self.0.reset_from(&before.0, value.0)
        &&& self.1.reset_from(&before.1, value.1)
    }

    fn fill(value: (A::Data, B::Data), length: usize) -> (channels: Self) {
        (
            A::fill(value.0, length),
            B::fill(value.1, length),
        )
    }

    fn reset_values(&mut self, value: (A::Data, B::Data)) {
        self.0.reset_values(value.0);
        self.1.reset_values(value.1);
    }
}

impl<A: Channels, B: Channels, C: Channels> Channels for (A, B, C) {
    type Data = (A::Data, B::Data, C::Data);

    open spec fn filled_with(&self, value: (A::Data, B::Data, C::Data), length: usize) -> bool {
        &&& self.0.filled_with(value.0, length)
        &&& self.1.filled_with(value.1, length)
        &&& self.2.filled_with(value.2, length)
    }

    open spec fn reset_from(&self, before: &Self, value: (A::Data, B::Data, C::Data)) -> bool {
        &&& self.0.reset_from(&before.0, value.0)
        &&& self.1.reset_from(&before.1, value.1)
        &&& self.2.reset_from(&before.2, value.2)
    }

    fn fill(value: (A::Data, B::Data, C::Data), length: usize) -> (channels: Self) {
        (
            A::fill(value.0, length),
            B::fill(value.1, length),
            C::fill(value.2, length),
        )
    }

    fn reset_values(&mut self, value: (A::Data, B::Data, C::Data)) {
        self.0.reset_values(value.0);
        self.1.reset_values(value.1);
        self.2.reset_values(value.2);
    }
}

impl<A: Channels, B: Channels, C: Channels, D: Channels> Channels for (A, B, C, D) {
    type Data = (A::Data, B::Data, C::Data, D::Data);

    open spec fn filled_with(&self, value: (A::Data, B::Data, C::Data, D::Data), length: usize) -> bool {
        &&& self.0.filled_with(value.0, length)
        &&& self.1.filled_with(value.1, length)
        &&& self.2.filled_with(value.2, length)
        &&& self.3.filled_with(value.3, length)
    }

    open spec fn reset_from(&self, before: &Self, value: (A::Data, B::Data, C::Data, D::Data)) -> bool {
        &&& self.0.reset_from(&before.0, value.0)
        &&& self.1.reset_from(&before.1, value.1)
        &&& self.2.reset_from(&before.2, value.2)
        &&& self.3.reset_from(&before.3, value.3)
    }

    fn fill(value: (A::Data, B::Data, C::Data, D::Data), length: usize) -> (channels: Self) {
        (
            A::fill(value.0, length),
            B::fill(value.1, length),
            C::fill(value.2, length),
            D::fill(value.3, length),
        )
    }

    fn reset_values(&mut self, value: (A::Data, B::Data, C::Data, D::Data)) {
        self.0.reset_values(value.0);
        self.1.reset_values(value.1);
        self.2.reset_values(value.2);
        self.3.reset_values(value.3);
    }
}

impl<A: Channels, B: Channels, C: Channels, D: Channels, E: Channels> Channels for (A, B, C, D, E) {
    type Data = (A::Data, B::Data, C::Data, D::Data, E::Data);

    open spec fn filled_with(&self, value: (A::Data, B::Data, C::Data, D::Data, E::Data), length: usize) -> bool {
        &&& self.0.filled_with(value.0, length)
        &&& self.1.filled_with(value.1, length)
        &&& self.2.filled_with(value.2, length)
        &&& self.3.filled_with(value.3, length)
        &&& self.4.filled_with(value.4, length)
    }

    open spec fn reset_from(&self, before: &Self, value: (A::Data, B::Data, C::Data, D::Data, E::Data)) -> bool {
        &&& self.0.reset_from(&before.0, value.0)
        &&& self.1.reset_from(&before.1, value.1)
        &&& self.2.reset_from(&before.2, value.2)
        &&& self.3.reset_from(&before.3, value.3)
        &&& self.4.reset_from(&before.4, value.4)
    }

    fn fill(value: (A::Data, B::Data, C::Data, D::Data, E::Data), length: usize) -> (channels: Self) {
        (
            A::fill(value.0, length),
            B::fill(value.1, length),
            C::fill(value.2, length),
            D::fill(value.3, length),
            E::fill(value.4, length),
        )
    }

    fn reset_values(&mut self, value: (A::Data, B::Data, C::Data, D::Data, E::Data)) {
        self.0.reset_values(value.0);
        self.1.reset_values(value.1);
        self.2.reset_values(value.2);
        self.3.reset_values(value.3);
        self.4.reset_values(value.4);
    }
}

impl<A: Channels, B: Channels, C: Channels, D: Channels, E: Channels, F: Channels> Channels for (A, B, C, D, E, F) {
    type Data = (A::Data, B::Data, C::Data, D::Data, E::Data, F::Data);

    open spec fn filled_with(&self, value: (A::Data, B::Data, C::Data, D::Data, E::Data, F::Data), length: usize) -> bool {
        &&& self.0.filled_with(value.0, length)
        &&& self.1.filled_with(value.1, length)
        &&& self.2.filled_with(value.2, length)
        &&& self.3.filled_with(value.3, length)
        &&& self.4.filled_with(value.4, length)
        &&& self.5.filled_with(value.5, length)
    }

    open spec fn reset_from(&self, before: &Self, value: (A::Data, B::Data, C::Data, D::Data, E::Data, F::Data)) -> bool {
        &&& self.0.reset_from(&before.0, value.0)
        &&& self.1.reset_from(&before.1, value.1)
        &&& self.2.reset_from(&before.2, value.2)
        &&& self.3.reset_from(&before.3, value.3)
        &&& self.4.reset_from(&before.4, value.4)
        &&& self.5.reset_from(&before.5, value.5)
    }

    fn fill(value: (A::Data, B::Data, C::Data, D::Data, E::Data, F::Data), length: usize) -> (channels: Self) {
        (
            A::fill(value.0, length),
            B::fill(value.1, length),
            C::fill(value.2, length),
            D::fill(value.3, length),
            E::fill(value.4, length),
            F::fill(value.5, length),
        )
    }

    fn reset_values(&mut self, value: (A::Data, B::Data, C::Data, D::Data, E::Data, F::Data)) {
        self.0.reset_values(value.0);
        self.1.reset_values(value.1);
        self.2.reset_values(value.2);
        self.3.reset_values(value.3);
        self.4.reset_values(value.4);
        self.5.reset_values(value.5);
    }
}

/// Every valid offset of a filled channel reads as a duplicate of the fill value.
pub proof fn lemma_filled_reads<T: Clone>(channel: Channel<T>, value: T, length: usize, offset: usize)
    requires
        channel.filled_with(value, length),
        offset < length,
    ensures
        channel@.len() == length,
        channel.has(offset),
        cloned(value, *channel.item_at(offset)),
{
}

/// Every offset that was valid before a reset is valid after it and reads as
/// a duplicate of the reset value.
pub proof fn lemma_reset_reads<T: Clone>(
    channel: Channel<T>,
    before: Channel<T>,
    value: T,
    offset: usize,
)
    requires
        channel.reset_from(&before, value),
        before.has(offset),
    ensures
        channel@.len() == before@.len(),
        channel.has(offset),
        cloned(value, *channel.item_at(offset)),
{
}

/// For an element type whose duplicates are exact, a filled channel holds
/// `length` times the fill value and nothing else.
pub proof fn lemma_filled_is_constant<T: Clone>(channel: Channel<T>, value: T, length: usize)
    requires
        channel.filled_with(value, length),
        forall|a: T, b: T| #[trigger] cloned(a, b) ==> a == b,
    ensures
        channel@ == Seq::new(length as nat, |i: int| value),
{
    assert(channel@ =~= Seq::new(length as nat, |i: int| value));
}

/// For an element type whose duplicates are exact, a reset channel holds the
/// reset value at every offset that it had before, and nothing else.
pub proof fn lemma_reset_is_constant<T: Clone>(channel: Channel<T>, before: Channel<T>, value: T)
    requires
        channel.reset_from(&before, value),
        forall|a: T, b: T| #[trigger] cloned(a, b) ==> a == b,
    ensures
        channel@ == Seq::new(before@.len(), |i: int| value),
{
    assert(channel@ =~= Seq::new(before@.len(), |i: int| value));
}

/// A pair is filled from a pair of values exactly when each member is filled
/// from its own value, with the shared length.
pub proof fn lemma_pair_fill_memberwise<A: Channels, B: Channels>(
    first: A,
    second: B,
    value: (A::Data, B::Data),
    length: usize,
)
    ensures
        (first, second).filled_with(value, length) <==> first.filled_with(value.0, length)
            && second.filled_with(value.1, length),
{
}

/// A pair is reset from a pair of values exactly when each member is reset
/// from its own value; no member's reset touches the other.
pub proof fn lemma_pair_reset_memberwise<A: Channels, B: Channels>(
    first: A,
    second: B,
    first_before: A,
    second_before: B,
    value: (A::Data, B::Data),
)
    ensures
        (first, second).reset_from(&(first_before, second_before), value) <==> first.reset_from(
            &first_before,
            value.0,
        ) && second.reset_from(&second_before, value.1),
{
}

} // verus!
