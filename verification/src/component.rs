//! A payload together with the entity it was created for.

use crate::ids::EntityId;
use vstd::prelude::*;

verus! {

/// A payload of type `T` and the id of the entity it was created for.
///
/// The entity id is informational: the link that counts is the one the
/// entity's record holds to the component's slot.
#[derive(Debug, Clone, PartialEq)]
pub struct Component<T, E> {
    id: EntityId<E>,
    inner: T,
}

impl<T, E> Component<T, E> {
    /// The entity this component was created for.
    pub closed spec fn owner(self) -> EntityId<E> {
        self.id
    }

    /// The payload.
    pub closed spec fn value(self) -> T {
        self.inner
    }

    /// The component made of `id` and `value`.
    pub closed spec fn of(id: EntityId<E>, value: T) -> Self {
        Component { id, inner: value }
    }

    /// `of` is the component with the given owner and payload.
    pub broadcast proof fn lemma_of(id: EntityId<E>, value: T)
        ensures
            (#[trigger] Self::of(id, value)).owner() == id,
            Self::of(id, value).value() == value,
    {
    }

    /// A component is its owner and its payload, nothing more.
    pub proof fn lemma_parts(self)
        ensures
            self == Self::of(self.owner(), self.value()),
    {
    }

    /// Creates a component for the entity `id`. The entity's record does not
    /// know of it yet.
    pub fn new(id: EntityId<E>, value: T) -> (r: Self)
        ensures
            r == Self::of(id, value),
    {
        Self { id, inner: value }
    }

    /// Replaces owner and payload in place.
    pub fn overwrite(&mut self, item: Self)
        ensures
            *final(self) == item,
    {
        self.id = item.id;
        self.inner = item.inner;
    }

    /// Id of the entity this component was created for.
    pub fn id(&self) -> (r: EntityId<E>)
        ensures
            r == self.owner(),
    {
        self.id
    }

    /// The payload, consuming the component.
    pub fn unwrap(self) -> (r: T)
        ensures
            r == self.value(),
    {
        self.inner
    }

    /// Borrows the payload.
    pub fn borrow(&self) -> (r: &T)
        ensures
            *r == self.value(),
    {
        &self.inner
    }

    /// Mutably borrows the payload; the owner stays.
    pub fn borrow_mut(&mut self) -> (r: &mut T)
        ensures
            *r == old(self).value(),
            *final(self) == Self::of(old(self).owner(), *final(r)),
    {
        &mut self.inner
    }
}

} // verus!
