//! Point access into tuples of co-indexed members: one location, one item
//! per member.

use vstd::prelude::*;
use crate::access::{Get, GetMut, GetRef};
use crate::channel::Channel;
use crate::store::SliceStoreMut;

verus! {

impl<'a, L: Copy, A: GetRef<'a, L>, B: GetRef<'a, L>> GetRef<'a, L> for (A, B) {
    type Item = (A::Item, B::Item);

    open spec fn has(&self, location: L) -> bool {
        &&& self.0.has(location)
        &&& self.1.has(location)
    }

    open spec fn item_at(&self, location: L) -> (A::Item, B::Item) {
        (
            self.0.item_at(location),
            self.1.item_at(location),
        )
    }

    fn get_ref(&'a self, location: L) -> (item: (A::Item, B::Item)) {
        (
            self.0.get_ref(location),
            self.1.get_ref(location),
        )
    }
}

impl<'a, L: Copy, A: GetRef<'a, L>, B: GetRef<'a, L>, C: GetRef<'a, L>> GetRef<'a, L> for (A, B, C) {
    type Item = (A::Item, B::Item, C::Item);

    open spec fn has(&self, location: L) -> bool {
        &&& self.0.has(location)
        &&& self.1.has(location)
        &&& self.2.has(location)
    }

    open spec fn item_at(&self, location: L) -> (A::Item, B::Item, C::Item) {
        (
            self.0.item_at(location),
            self.1.item_at(location),
            self.2.item_at(location),
        )
    }

    fn get_ref(&'a self, location: L) -> (item: (A::Item, B::Item, C::Item)) {
        (
            self.0.get_ref(location),
            self.1.get_ref(location),
            self.2.get_ref(location),
        )
    }
}

impl<'a, L: Copy, A: GetRef<'a, L>, B: GetRef<'a, L>, C: GetRef<'a, L>, D: GetRef<'a, L>> GetRef<'a, L> for (A, B, C, D) {
    type Item = (A::Item, B::Item, C::Item, D::Item);

    open spec fn has(&self, location: L) -> bool {
        &&& self.0.has(location)
        &&& self.1.has(location)
        &&& self.2.has(location)
        &&& self.3.has(location)
    }

    open spec fn item_at(&self, location: L) -> (A::Item, B::Item, C::Item, D::Item) {
        (
            self.0.item_at(location),
            self.1.item_at(location),
            self.2.item_at(location),
            self.3.item_at(location),
        )
    }

    fn get_ref(&'a self, location: L) -> (item: (A::Item, B::Item, C::Item, D::Item)) {
        (
            self.0.get_ref(location),
            self.1.get_ref(location),
            self.2.get_ref(location),
            self.3.get_ref(location),
        )
    }
}

impl<'a, L: Copy, A: GetRef<'a, L>, B: GetRef<'a, L>, C: GetRef<'a, L>, D: GetRef<'a, L>, E: GetRef<'a, L>> GetRef<'a, L> for (A, B, C, D, E) {
    type Item = (A::Item, B::Item, C::Item, D::Item, E::Item);

    open spec fn has(&self, location: L) -> bool {
        &&& self.0.has(location)
        &&& self.1.has(location)
        &&& self.2.has(location)
        &&& self.3.has(location)
        &&& self.4.has(location)
    }

    open spec fn item_at(&self, location: L) -> (A::Item, B::Item, C::Item, D::Item, E::Item) {
        (
            self.0.item_at(location),
            self.1.item_at(location),
            self.2.item_at(location),
            self.3.item_at(location),
            self.4.item_at(location),
        )
    }

    fn get_ref(&'a self, location: L) -> (item: (A::Item, B::Item, C::Item, D::Item, E::Item)) {
        (
            self.0.get_ref(location),
            self.1.get_ref(location),
            self.2.get_ref(location),
            self.3.get_ref(location),
            self.4.get_ref(location),
        )
    }
}

impl<'a, L: Copy, A: GetRef<'a, L>, B: GetRef<'a, L>, C: GetRef<'a, L>, D: GetRef<'a, L>, E: GetRef<'a, L>, F: GetRef<'a, L>> GetRef<'a, L> for (A, B, C, D, E, F) {
    type Item = (A::Item, B::Item, C::Item, D::Item, E::Item, F::Item);

    open spec fn has(&self, location: L) -> bool {
        &&& self.0.has(location)
        &&& self.1.has(location)
        &&& self.2.has(location)
        &&& self.3.has(location)
        &&& self.4.has(location)
        &&& self.5.has(location)
    }

    open spec fn item_at(&self, location: L) -> (A::Item, B::Item, C::Item, D::Item, E::Item, F::Item) {
        (
            self.0.item_at(location),
            self.1.item_at(location),
            self.2.item_at(location),
            self.3.item_at(location),
            self.4.item_at(location),
            self.5.item_at(location),
        )
    }

    fn get_ref(&'a self, location: L) -> (item: (A::Item, B::Item, C::Item, D::Item, E::Item, F::Item)) {
        (
            self.0.get_ref(location),
            self.1.get_ref(location),
            self.2.get_ref(location),
            self.3.get_ref(location),
            self.4.get_ref(location),
            self.5.get_ref(location),
        )
    }
}

impl<L: Copy, A: Get<L>, B: Get<L>> Get<L> for (A, B) {
    type Item = (A::Item, B::Item);

    open spec fn holds(&self, location: L) -> bool {
        &&& self.0.holds(location)
        &&& self.1.holds(location)
    }

    open spec fn copy_of(&self, location: L, item: (A::Item, B::Item)) -> bool {
        &&& self.0.copy_of(location, item.0)
        &&& self.1.copy_of(location, item.1)
    }

    fn get(&self, location: L) -> (item: (A::Item, B::Item)) {
        (
            self.0.get(location),
            self.1.get(location),
        )
    }
}

impl<L: Copy, A: Get<L>, B: Get<L>, C: Get<L>> Get<L> for (A, B, C) {
    type Item = (A::Item, B::Item, C::Item);

    open spec fn holds(&self, location: L) -> bool {
        &&& self.0.holds(location)
        &&& self.1.holds(location)
        &&& self.2.holds(location)
    }

    open spec fn copy_of(&self, location: L, item: (A::Item, B::Item, C::Item)) -> bool {
        &&& self.0.copy_of(location, item.0)
        &&& self.1.copy_of(location, item.1)
        &&& self.2.copy_of(location, item.2)
    }

    fn get(&self, location: L) -> (item: (A::Item, B::Item, C::Item)) {
        (
            self.0.get(location),
            self.1.get(location),
            self.2.get(location),
        )
    }
}

impl<L: Copy, A: Get<L>, B: Get<L>, C: Get<L>, D: Get<L>> Get<L> for (A, B, C, D) {
    type Item = (A::Item, B::Item, C::Item, D::Item);

    open spec fn holds(&self, location: L) -> bool {
        &&& self.0.holds(location)
        &&& self.1.holds(location)
        &&& self.2.holds(location)
        &&& self.3.holds(location)
    }

    open spec fn copy_of(&self, location: L, item: (A::Item, B::Item, C::Item, D::Item)) -> bool {
        &&& self.0.copy_of(location, item.0)
        &&& self.1.copy_of(location, item.1)
        &&& self.2.copy_of(location, item.2)
        &&& self.3.copy_of(location, item.3)
    }

    fn get(&self, location: L) -> (item: (A::Item, B::Item, C::Item, D::Item)) {
        (
            self.0.get(location),
            self.1.get(location),
            self.2.get(location),
            self.3.get(location),
        )
    }
}

impl<L: Copy, A: Get<L>, B: Get<L>, C: Get<L>, D: Get<L>, E: Get<L>> Get<L> for (A, B, C, D, E) {
    type Item = (A::Item, B::Item, C::Item, D::Item, E::Item);

    open spec fn holds(&self, location: L) -> bool {
        &&& self.0.holds(location)
        &&& self.1.holds(location)
        &&& self.2.holds(location)
        &&& self.3.holds(location)
        &&& self.4.holds(location)
    }

    open spec fn copy_of(&self, location: L, item: (A::Item, B::Item, C::Item, D::Item, E::Item)) -> bool {
        &&& self.0.copy_of(location, item.0)
        &&& self.1.copy_of(location, item.1)
        &&& self.2.copy_of(location, item.2)
        &&& self.3.copy_of(location, item.3)
        &&& self.4.copy_of(location, item.4)
    }

    fn get(&self, location: L) -> (item: (A::Item, B::Item, C::Item, D::Item, E::Item)) {
        (
            self.0.get(location),
            self.1.get(location),
            self.2.get(location),
            self.3.get(location),
            self.4.get(location),
        )
    }
}

impl<L: Copy, A: Get<L>, B: Get<L>, C: Get<L>, D: Get<L>, E: Get<L>, F: Get<L>> Get<L> for (A, B, C, D, E, F) {
    type Item = (A::Item, B::Item, C::Item, D::Item, E::Item, F::Item);

    open spec fn holds(&self, location: L) -> bool {
        &&& self.0.holds(location)
        &&& self.1.holds(location)
        &&& self.2.holds(location)
        &&& self.3.holds(location)
        &&& self.4.holds(location)
        &&& self.5.holds(location)
    }

    open spec fn copy_of(&self, location: L, item: (A::Item, B::Item, C::Item, D::Item, E::Item, F::Item)) -> bool {
        &&& self.0.copy_of(location, item.0)
        &&& self.1.copy_of(location, item.1)
        &&& self.2.copy_of(location, item.2)
        &&& self.3.copy_of(location, item.3)
        &&& self.4.copy_of(location, item.4)
        &&& self.5.copy_of(location, item.5)
    }

    fn get(&self, location: L) -> (item: (A::Item, B::Item, C::Item, D::Item, E::Item, F::Item)) {
        (
            self.0.get(location),
            self.1.get(location),
            self.2.get(location),
            self.3.get(location),
            self.4.get(location),
            self.5.get(location),
        )
    }
}

impl<'a, TA: 'a, SA: SliceStoreMut<TA>, TB: 'a, SB: SliceStoreMut<TB>> GetMut<'a, usize> for (Channel<TA, SA>, Channel<TB, SB>) {
    type Item = (&'a mut TA, &'a mut TB);

    open spec fn has_mut(&self, offset: usize) -> bool {
        &&& self.0.has_mut(offset)
        &&& self.1.has_mut(offset)
    }

    open spec fn lends(&self, offset: usize, item: (&'a mut TA, &'a mut TB)) -> bool {
        &&& *item.0 == self.0@[offset as int]
        &&& *item.1 == self.1@[offset as int]
    }

    /// Lends one element of each member; each member ends up as it was, but
    /// for what its borrower leaves at `offset`.
    fn get_mut(&'a mut self, offset: usize) -> (item: (&'a mut TA, &'a mut TB))
        ensures
            final(self).0@ == old(self).0@.update(offset as int, *final(item.0)),
            final(self).1@ == old(self).1@.update(offset as int, *final(item.1)),
    {
        (
            &mut self.0.store_mut().as_elements_mut()[offset],
            &mut self.1.store_mut().as_elements_mut()[offset],
        )
    }
}

impl<'a, TA: 'a, SA: SliceStoreMut<TA>, TB: 'a, SB: SliceStoreMut<TB>, TC: 'a, SC: SliceStoreMut<TC>> GetMut<'a, usize> for (Channel<TA, SA>, Channel<TB, SB>, Channel<TC, SC>) {
    type Item = (&'a mut TA, &'a mut TB, &'a mut TC);

    open spec fn has_mut(&self, offset: usize) -> bool {
        &&& self.0.has_mut(offset)
        &&& self.1.has_mut(offset)
        &&& self.2.has_mut(offset)
    }

    open spec fn lends(&self, offset: usize, item: (&'a mut TA, &'a mut TB, &'a mut TC)) -> bool {
        &&& *item.0 == self.0@[offset as int]
        &&& *item.1 == self.1@[offset as int]
        &&& *item.2 == self.2@[offset as int]
    }

    /// Lends one element of each member; each member ends up as it was, but
    /// for what its borrower leaves at `offset`.
    fn get_mut(&'a mut self, offset: usize) -> (item: (&'a mut TA, &'a mut TB, &'a mut TC))
        ensures
            final(self).0@ == old(self).0@.update(offset as int, *final(item.0)),
            final(self).1@ == old(self).1@.update(offset as int, *final(item.1)),
            final(self).2@ == old(self).2@.update(offset as int, *final(item.2)),
    {
        (
            &mut self.0.store_mut().as_elements_mut()[offset],
            &mut self.1.store_mut().as_elements_mut()[offset],
            &mut self.2.store_mut().as_elements_mut()[offset],
        )
    }
}

impl<'a, TA: 'a, SA: SliceStoreMut<TA>, TB: 'a, SB: SliceStoreMut<TB>, TC: 'a, SC: SliceStoreMut<TC>, TD: 'a, SD: SliceStoreMut<TD>> GetMut<'a, usize> for (Channel<TA, SA>, Channel<TB, SB>, Channel<TC, SC>, Channel<TD, SD>) {
    type Item = (&'a mut TA, &'a mut TB, &'a mut TC, &'a mut TD);

    open spec fn has_mut(&self, offset: usize) -> bool {
        &&& self.0.has_mut(offset)
        &&& self.1.has_mut(offset)
        &&& self.2.has_mut(offset)
        &&& self.3.has_mut(offset)
    }

    open spec fn lends(&self, offset: usize, item: (&'a mut TA, &'a mut TB, &'a mut TC, &'a mut TD)) -> bool {
        &&& *item.0 == self.0@[offset as int]
        &&& *item.1 == self.1@[offset as int]
        &&& *item.2 == self.2@[offset as int]
        &&& *item.3 == self.3@[offset as int]
    }

    /// Lends one element of each member; each member ends up as it was, but
    /// for what its borrower leaves at `offset`.
    fn get_mut(&'a mut self, offset: usize) -> (item: (&'a mut TA, &'a mut TB, &'a mut TC, &'a mut TD))
        ensures
            final(self).0@ == old(self).0@.update(offset as int, *final(item.0)),
            final(self).1@ == old(self).1@.update(offset as int, *final(item.1)),
            final(self).2@ == old(self).2@.update(offset as int, *final(item.2)),
            final(self).3@ == old(self).3@.update(offset as int, *final(item.3)),
    {
        (
            &mut self.0.store_mut().as_elements_mut()[offset],
            &mut self.1.store_mut().as_elements_mut()[offset],
            &mut self.2.store_mut().as_elements_mut()[offset],
            &mut self.3.store_mut().as_elements_mut()[offset],
        )
    }
}

impl<'a, TA: 'a, SA: SliceStoreMut<TA>, TB: 'a, SB: SliceStoreMut<TB>, TC: 'a, SC: SliceStoreMut<TC>, TD: 'a, SD: SliceStoreMut<TD>, TE: 'a, SE: SliceStoreMut<TE>> GetMut<'a, usize> for (Channel<TA, SA>, Channel<TB, SB>, Channel<TC, SC>, Channel<TD, SD>, Channel<TE, SE>) {
    type Item = (&'a mut TA, &'a mut TB, &'a mut TC, &'a mut TD, &'a mut TE);

    open spec fn has_mut(&self, offset: usize) -> bool {
        &&& self.0.has_mut(offset)
        &&& self.1.has_mut(offset)
        &&& self.2.has_mut(offset)
        &&& self.3.has_mut(offset)
        &&& self.4.has_mut(offset)
    }

    open spec fn lends(&self, offset: usize, item: (&'a mut TA, &'a mut TB, &'a mut TC, &'a mut TD, &'a mut TE)) -> bool {
        &&& *item.0 == self.0@[offset as int]
        &&& *item.1 == self.1@[offset as int]
        &&& *item.2 == self.2@[offset as int]
        &&& *item.3 == self.3@[offset as int]
        &&& *item.4 == self.4@[offset as int]
    }

    /// Lends one element of each member; each member ends up as it was, but
    /// for what its borrower leaves at `offset`.
    fn get_mut(&'a mut self, offset: usize) -> (item: (&'a mut TA, &'a mut TB, &'a mut TC, &'a mut TD, &'a mut TE))
        ensures
            final(self).0@ == old(self).0@.update(offset as int, *final(item.0)),
            final(self).1@ == old(self).1@.update(offset as int, *final(item.1)),
            final(self).2@ == old(self).2@.update(offset as int, *final(item.2)),
            final(self).3@ == old(self).3@.update(offset as int, *final(item.3)),
            final(self).4@ == old(self).4@.update(offset as int, *final(item.4)),
    {
        (
            &mut self.0.store_mut().as_elements_mut()[offset],
            &mut self.1.store_mut().as_elements_mut()[offset],
            &mut self.2.store_mut().as_elements_mut()[offset],
            &mut self.3.store_mut().as_elements_mut()[offset],
            &mut self.4.store_mut().as_elements_mut()[offset],
        )
    }
}

impl<'a, TA: 'a, SA: SliceStoreMut<TA>, TB: 'a, SB: SliceStoreMut<TB>, TC: 'a, SC: SliceStoreMut<TC>, TD: 'a, SD: SliceStoreMut<TD>, TE: 'a, SE: SliceStoreMut<TE>, TF: 'a, SF: SliceStoreMut<TF>> GetMut<'a, usize> for (Channel<TA, SA>, Channel<TB, SB>, Channel<TC, SC>, Channel<TD, SD>, Channel<TE, SE>, Channel<TF, SF>) {
    type Item = (&'a mut TA, &'a mut TB, &'a mut TC, &'a mut TD, &'a mut TE, &'a mut TF);

    open spec fn has_mut(&self, offset: usize) -> bool {
        &&& self.0.has_mut(offset)
        &&& self.1.has_mut(offset)
        &&& self.2.has_mut(offset)
        &&& self.3.has_mut(offset)
        &&& self.4.has_mut(offset)
        &&& self.5.has_mut(offset)
    }

    open spec fn lends(&self, offset: usize, item: (&'a mut TA, &'a mut TB, &'a mut TC, &'a mut TD, &'a mut TE, &'a mut TF)) -> bool {
        &&& *item.0 == self.0@[offset as int]
        &&& *item.1 == self.1@[offset as int]
        &&& *item.2 == self.2@[offset as int]
        &&& *item.3 == self.3@[offset as int]
        &&& *item.4 == self.4@[offset as int]
        &&& *item.5 == self.5@[offset as int]
    }

    /// Lends one element of each member; each member ends up as it was, but
    /// for what its borrower leaves at `offset`.
    fn get_mut(&'a mut self, offset: usize) -> (item: (&'a mut TA, &'a mut TB, &'a mut TC, &'a mut TD, &'a mut TE, &'a mut TF))
        ensures
            final(self).0@ == old(self).0@.update(offset as int, *final(item.0)),
            final(self).1@ == old(self).1@.update(offset as int, *final(item.1)),
            final(self).2@ == old(self).2@.update(offset as int, *final(item.2)),
            final(self).3@ == old(self).3@.update(offset as int, *final(item.3)),
            final(self).4@ == old(self).4@.update(offset as int, *final(item.4)),
            final(self).5@ == old(self).5@.update(offset as int, *final(item.5)),
    {
        (
            &mut self.0.store_mut().as_elements_mut()[offset],
            &mut self.1.store_mut().as_elements_mut()[offset],
            &mut self.2.store_mut().as_elements_mut()[offset],
            &mut self.3.store_mut().as_elements_mut()[offset],
            &mut self.4.store_mut().as_elements_mut()[offset],
            &mut self.5.store_mut().as_elements_mut()[offset],
        )
    }
}

impl<'a, 'b, 'c, TA: 'a, SA: SliceStoreMut<TA>, TB: 'a, SB: SliceStoreMut<TB>> GetMut<'a, usize> for (&'b mut Channel<TA, SA>, &'c mut Channel<TB, SB>) {
    type Item = (&'a mut TA, &'a mut TB);

    open spec fn has_mut(&self, offset: usize) -> bool {
        &&& (*self.0).has_mut(offset)
        &&& (*self.1).has_mut(offset)
    }

    open spec fn lends(&self, offset: usize, item: (&'a mut TA, &'a mut TB)) -> bool {
        &&& *item.0 == (*self.0)@[offset as int]
        &&& *item.1 == (*self.1)@[offset as int]
    }

    /// Lends one element of each borrowed member. The tuple keeps borrowing
    /// the same channels, and each of them ends up as it was, but for what
    /// its borrower leaves at `offset`.
    fn get_mut(&'a mut self, offset: usize) -> (item: (&'a mut TA, &'a mut TB))
        ensures
            (*final(self).0)@ == (*old(self).0)@.update(offset as int, *final(item.0)),
            (*final(self).1)@ == (*old(self).1)@.update(offset as int, *final(item.1)),
            *final(final(self).0) == *final(old(self).0),
            *final(final(self).1) == *final(old(self).1),
    {
        (
            &mut (*self.0).store_mut().as_elements_mut()[offset],
            &mut (*self.1).store_mut().as_elements_mut()[offset],
        )
    }
}

impl<'a, 'b, 'c, 'd, TA: 'a, SA: SliceStoreMut<TA>, TB: 'a, SB: SliceStoreMut<TB>, TC: 'a, SC: SliceStoreMut<TC>> GetMut<'a, usize> for (&'b mut Channel<TA, SA>, &'c mut Channel<TB, SB>, &'d mut Channel<TC, SC>) {
    type Item = (&'a mut TA, &'a mut TB, &'a mut TC);

    open spec fn has_mut(&self, offset: usize) -> bool {
        &&& (*self.0).has_mut(offset)
        &&& (*self.1).has_mut(offset)
        &&& (*self.2).has_mut(offset)
    }

    open spec fn lends(&self, offset: usize, item: (&'a mut TA, &'a mut TB, &'a mut TC)) -> bool {
        &&& *item.0 == (*self.0)@[offset as int]
        &&& *item.1 == (*self.1)@[offset as int]
        &&& *item.2 == (*self.2)@[offset as int]
    }

    /// Lends one element of each borrowed member. The tuple keeps borrowing
    /// the same channels, and each of them ends up as it was, but for what
    /// its borrower leaves at `offset`.
    fn get_mut(&'a mut self, offset: usize) -> (item: (&'a mut TA, &'a mut TB, &'a mut TC))
        ensures
            (*final(self).0)@ == (*old(self).0)@.update(offset as int, *final(item.0)),
            (*final(self).1)@ == (*old(self).1)@.update(offset as int, *final(item.1)),
            (*final(self).2)@ == (*old(self).2)@.update(offset as int, *final(item.2)),
            *final(final(self).0) == *final(old(self).0),
            *final(final(self).1) == *final(old(self).1),
            *final(final(self).2) == *final(old(self).2),
    {
        (
            &mut (*self.0).store_mut().as_elements_mut()[offset],
            &mut (*self.1).store_mut().as_elements_mut()[offset],
            &mut (*self.2).store_mut().as_elements_mut()[offset],
        )
    }
}

impl<'a, 'b, 'c, 'd, 'e, TA: 'a, SA: SliceStoreMut<TA>, TB: 'a, SB: SliceStoreMut<TB>, TC: 'a, SC: SliceStoreMut<TC>, TD: 'a, SD: SliceStoreMut<TD>> GetMut<'a, usize> for (&'b mut Channel<TA, SA>, &'c mut Channel<TB, SB>, &'d mut Channel<TC, SC>, &'e mut Channel<TD, SD>) {
    type Item = (&'a mut TA, &'a mut TB, &'a mut TC, &'a mut TD);

    open spec fn has_mut(&self, offset: usize) -> bool {
        &&& (*self.0).has_mut(offset)
        &&& (*self.1).has_mut(offset)
        &&& (*self.2).has_mut(offset)
        &&& (*self.3).has_mut(offset)
    }

    open spec fn lends(&self, offset: usize, item: (&'a mut TA, &'a mut TB, &'a mut TC, &'a mut TD)) -> bool {
        &&& *item.0 == (*self.0)@[offset as int]
        &&& *item.1 == (*self.1)@[offset as int]
        &&& *item.2 == (*self.2)@[offset as int]
        &&& *item.3 == (*self.3)@[offset as int]
    }

    /// Lends one element of each borrowed member. The tuple keeps borrowing
    /// the same channels, and each of them ends up as it was, but for what
    /// its borrower leaves at `offset`.
    fn get_mut(&'a mut self, offset: usize) -> (item: (&'a mut TA, &'a mut TB, &'a mut TC, &'a mut TD))
        ensures
            (*final(self).0)@ == (*old(self).0)@.update(offset as int, *final(item.0)),
            (*final(self).1)@ == (*old(self).1)@.update(offset as int, *final(item.1)),
            (*final(self).2)@ == (*old(self).2)@.update(offset as int, *final(item.2)),
            (*final(self).3)@ == (*old(self).3)@.update(offset as int, *final(item.3)),
            *final(final(self).0) == *final(old(self).0),
            *final(final(self).1) == *final(old(self).1),
            *final(final(self).2) == *final(old(self).2),
            *final(final(self).3) == *final(old(self).3),
    {
        (
            &mut (*self.0).store_mut().as_elements_mut()[offset],
            &mut (*self.1).store_mut().as_elements_mut()[offset],
            &mut (*self.2).store_mut().as_elements_mut()[offset],
            &mut (*self.3).store_mut().as_elements_mut()[offset],
        )
    }
}

impl<'a, 'b, 'c, 'd, 'e, 'f, TA: 'a, SA: SliceStoreMut<TA>, TB: 'a, SB: SliceStoreMut<TB>, TC: 'a, SC: SliceStoreMut<TC>, TD: 'a, SD: SliceStoreMut<TD>, TE: 'a, SE: SliceStoreMut<TE>> GetMut<'a, usize> for (&'b mut Channel<TA, SA>, &'c mut Channel<TB, SB>, &'d mut Channel<TC, SC>, &'e mut Channel<TD, SD>, &'f mut Channel<TE, SE>) {
    type Item = (&'a mut TA, &'a mut TB, &'a mut TC, &'a mut TD, &'a mut TE);

    open spec fn has_mut(&self, offset: usize) -> bool {
        &&& (*self.0).has_mut(offset)
        &&& (*self.1).has_mut(offset)
        &&& (*self.2).has_mut(offset)
        &&& (*self.3).has_mut(offset)
        &&& (*self.4).has_mut(offset)
    }

    open spec fn lends(&self, offset: usize, item: (&'a mut TA, &'a mut TB, &'a mut TC, &'a mut TD, &'a mut TE)) -> bool {
        &&& *item.0 == (*self.0)@[offset as int]
        &&& *item.1 == (*self.1)@[offset as int]
        &&& *item.2 == (*self.2)@[offset as int]
        &&& *item.3 == (*self.3)@[offset as int]
        &&& *item.4 == (*self.4)@[offset as int]
    }

    /// Lends one element of each borrowed member. The tuple keeps borrowing
    /// the same channels, and each of them ends up as it was, but for what
    /// its borrower leaves at `offset`.
    fn get_mut(&'a mut self, offset: usize) -> (item: (&'a mut TA, &'a mut TB, &'a mut TC, &'a mut TD, &'a mut TE))
        ensures
            (*final(self).0)@ == (*old(self).0)@.update(offset as int, *final(item.0)),
            (*final(self).1)@ == (*old(self).1)@.update(offset as int, *final(item.1)),
            (*final(self).2)@ == (*old(self).2)@.update(offset as int, *final(item.2)),
            (*final(self).3)@ == (*old(self).3)@.update(offset as int, *final(item.3)),
            (*final(self).4)@ == (*old(self).4)@.update(offset as int, *final(item.4)),
            *final(final(self).0) == *final(old(self).0),
            *final(final(self).1) == *final(old(self).1),
            *final(final(self).2) == *final(old(self).2),
            *final(final(self).3) == *final(old(self).3),
            *final(final(self).4) == *final(old(self).4),
    {
        (
            &mut (*self.0).store_mut().as_elements_mut()[offset],
            &mut (*self.1).store_mut().as_elements_mut()[offset],
            &mut (*self.2).store_mut().as_elements_mut()[offset],
            &mut (*self.3).store_mut().as_elements_mut()[offset],
            &mut (*self.4).store_mut().as_elements_mut()[offset],
        )
    }
}

impl<'a, 'b, 'c, 'd, 'e, 'f, 'g, TA: 'a, SA: SliceStoreMut<TA>, TB: 'a, SB: SliceStoreMut<TB>, TC: 'a, SC: SliceStoreMut<TC>, TD: 'a, SD: SliceStoreMut<TD>, TE: 'a, SE: SliceStoreMut<TE>, TF: 'a, SF: SliceStoreMut<TF>> GetMut<'a, usize> for (&'b mut Channel<TA, SA>, &'c mut Channel<TB, SB>, &'d mut Channel<TC, SC>, &'e mut Channel<TD, SD>, &'f mut Channel<TE, SE>, &'g mut Channel<TF, SF>) {
    type Item = (&'a mut TA, &'a mut TB, &'a mut TC, &'a mut TD, &'a mut TE, &'a mut TF);

    open spec fn has_mut(&self, offset: usize) -> bool {
        &&& (*self.0).has_mut(offset)
        &&& (*self.1).has_mut(offset)
        &&& (*self.2).has_mut(offset)
        &&& (*self.3).has_mut(offset)
        &&& (*self.4).has_mut(offset)
        &&& (*self.5).has_mut(offset)
    }

    open spec fn lends(&self, offset: usize, item: (&'a mut TA, &'a mut TB, &'a mut TC, &'a mut TD, &'a mut TE, &'a mut TF)) -> bool {
        &&& *item.0 == (*self.0)@[offset as int]
        &&& *item.1 == (*self.1)@[offset as int]
        &&& *item.2 == (*self.2)@[offset as int]
        &&& *item.3 == (*self.3)@[offset as int]
        &&& *item.4 == (*self.4)@[offset as int]
        &&& *item.5 == (*self.5)@[offset as int]
    }

    /// Lends one element of each borrowed member. The tuple keeps borrowing
    /// the same channels, and each of them ends up as it was, but for what
    /// its borrower leaves at `offset`.
    fn get_mut(&'a mut self, offset: usize) -> (item: (&'a mut TA, &'a mut TB, &'a mut TC, &'a mut TD, &'a mut TE, &'a mut TF))
        ensures
            (*final(self).0)@ == (*old(self).0)@.update(offset as int, *final(item.0)),
            (*final(self).1)@ == (*old(self).1)@.update(offset as int, *final(item.1)),
            (*final(self).2)@ == (*old(self).2)@.update(offset as int, *final(item.2)),
            (*final(self).3)@ == (*old(self).3)@.update(offset as int, *final(item.3)),
            (*final(self).4)@ == (*old(self).4)@.update(offset as int, *final(item.4)),
            (*final(self).5)@ == (*old(self).5)@.update(offset as int, *final(item.5)),
            *final(final(self).0) == *final(old(self).0),
            *final(final(self).1) == *final(old(self).1),
            *final(final(self).2) == *final(old(self).2),
            *final(final(self).3) == *final(old(self).3),
            *final(final(self).4) == *final(old(self).4),
            *final(final(self).5) == *final(old(self).5),
    {
        (
            &mut (*self.0).store_mut().as_elements_mut()[offset],
            &mut (*self.1).store_mut().as_elements_mut()[offset],
            &mut (*self.2).store_mut().as_elements_mut()[offset],
            &mut (*self.3).store_mut().as_elements_mut()[offset],
            &mut (*self.4).store_mut().as_elements_mut()[offset],
            &mut (*self.5).store_mut().as_elements_mut()[offset],
        )
    }
}

/// A pair read at a location is the pair of its members' reads there, and the
/// location is valid for the pair exactly when it is valid for both members.
pub proof fn lemma_pair_reads_memberwise<'a, L, A: GetRef<'a, L>, B: GetRef<'a, L>>(
    first: A,
    second: B,
    location: L,
)
    where L: Copy
    ensures
        (first, second).has(location) <==> first.has(location) && second.has(location),
        (first, second).item_at(location) == (first.item_at(location), second.item_at(location)),
{
}

/// A value is a duplicate of what a pair holds at a location exactly when its
/// two parts are duplicates of what the members hold there.
pub proof fn lemma_pair_copies_memberwise<L, A: Get<L>, B: Get<L>>(
    first: A,
    second: B,
    location: L,
    item: (A::Item, B::Item),
)
    where L: Copy
    ensures
        (first, second).holds(location) <==> first.holds(location) && second.holds(location),
        (first, second).copy_of(location, item) <==> first.copy_of(location, item.0)
            && second.copy_of(location, item.1),
{
}

} // verus!
