//! Sequences over the payloads of a store, slot by slot.

use crate::component::Component;
use crate::model::payloads;
use vstd::prelude::*;

verus! {

/// Read access to the payloads of a store, one slot after the other in
/// index order. Slots that wait for reuse are not left out.
#[derive(Debug)]
pub struct CompIter<'a, T, E> {
    rest: &'a [Component<T, E>],
}

impl<'a, T, E> CompIter<'a, T, E> {
    /// The payloads still to come, in the order in which they come.
    pub closed spec fn remaining(&self) -> Seq<T> {
        payloads(self.rest@)
    }

    /// A sequence over the payloads of `slots`, starting at the first.
    pub fn new(slots: &'a [Component<T, E>]) -> (r: Self)
        ensures
            r.remaining() == payloads(slots@),
    {
        CompIter { rest: slots }
    }

    /// The next payload, or nothing when all have been returned.
    pub fn next(&mut self) -> (r: Option<&'a T>)
        ensures
            match r {
                Some(v) => {
                    &&& old(self).remaining().len() > 0
                    &&& *v == old(self).remaining().first()
                    &&& final(self).remaining() == old(self).remaining().drop_first()
                },
                None => old(self).remaining().len() == 0 && *final(self) == *old(self),
            },
    {
        let slots = self.rest;
        if slots.len() == 0 {
            None
        } else {
            let (head, tail) = slots.split_at(1);
            self.rest = tail;
            assert(payloads(tail@) =~= payloads(slots@).drop_first());
            Some(head[0].borrow())
        }
    }
}

impl<'a, T, E> From<&'a [Component<T, E>]> for CompIter<'a, T, E> {
    fn from(value: &'a [Component<T, E>]) -> (r: Self)
        ensures
            r.remaining() == payloads(value@),
    {
        CompIter { rest: value }
    }
}

impl<'a, T, E> vstd::std_specs::convert::FromSpecImpl<&'a [Component<T, E>]> for CompIter<'a, T, E> {
    open spec fn obeys_from_spec() -> bool {
        true
    }

    closed spec fn from_spec(value: &'a [Component<T, E>]) -> Self {
        CompIter { rest: value }
    }
}

/// Write access to the payloads of a store, one slot after the other in
/// index order. Slots that wait for reuse are not left out.
///
/// `rest` holds the slots still to come. It is public so that contracts can
/// say what the borrowed store holds once the sequence is dropped.
#[derive(Debug)]
pub struct CompIterMut<'a, T, E> {
    pub rest: &'a mut [Component<T, E>],
}

impl<'a, T, E> CompIterMut<'a, T, E> {
    /// A sequence over the payloads of `slots`, starting at the first.
    pub fn new(slots: &'a mut [Component<T, E>]) -> (r: Self)
        ensures
            r.rest@ == old(slots)@,
            final(r.rest)@ == final(slots)@,
    {
        CompIterMut { rest: slots }
    }

    /// The next payload, or nothing when all have been returned.
    pub fn next(&mut self) -> (r: Option<&'a mut T>)
        ensures
            match r {
                Some(v) => {
                    &&& old(self).rest@.len() > 0
                    &&& *v == old(self).rest@[0].value()
                    &&& final(self).rest@ == old(self).rest@.drop_first()
                    &&& final(old(self).rest)@ == seq![
                        Component::of(old(self).rest@[0].owner(), *final(v)),
                    ] + final(final(self).rest)@
                },
                None => old(self).rest@.len() == 0 && final(self).rest == old(self).rest,
            },
    {
        if self.rest.len() == 0 {
            None
        } else {
            let mut slots: &'a mut [Component<T, E>] = &mut [];
            core::mem::swap(&mut slots, &mut self.rest);
            let (head, tail) = slots.split_at_mut(1);
            self.rest = tail;
            Some(head[0].borrow_mut())
        }
    }
}

impl<'a, T, E> From<&'a mut [Component<T, E>]> for CompIterMut<'a, T, E> {
    fn from(value: &'a mut [Component<T, E>]) -> (r: Self)
        ensures
            r.rest@ == old(value)@,
            final(r.rest)@ == final(value)@,
    {
        CompIterMut { rest: value }
    }
}

impl<'a, T, E> vstd::std_specs::convert::FromSpecImpl<&'a mut [Component<T, E>]> for CompIterMut<'a, T, E> {
    /// Two mutable borrows of equal contents need not be the same borrow,
    /// so the conversion is described by the clauses of `from` instead.
    open spec fn obeys_from_spec() -> bool {
        false
    }

    open spec fn from_spec(value: &'a mut [Component<T, E>]) -> Self {
        CompIterMut { rest: value }
    }
}

} // verus!
