//! Type-tagged identifiers of entities and components.

use core::marker::PhantomData;
use vstd::prelude::*;

verus! {

/// Identity of an entity: its position in the entity table, tagged with the
/// schema `E` it belongs to.
#[derive(Debug, PartialEq)]
pub struct EntityId<E> {
    pub id: usize,
    pub marker: PhantomData<E>,
}

impl<E> Clone for EntityId<E> {
    fn clone(&self) -> (r: Self)
        ensures
            r == *self,
    {
        Self { id: self.id, marker: PhantomData }
    }
}

impl<E> Copy for EntityId<E> {}

impl<E> View for EntityId<E> {
    type V = nat;

    open spec fn view(&self) -> nat {
        self.id as nat
    }
}

impl<E> EntityId<E> {
    /// Wraps a raw index. Nothing is registered and nothing is checked.
    pub fn new(value: usize) -> (r: Self)
        ensures
            r.id == value,
    {
        Self { id: value, marker: PhantomData }
    }
}

impl<E> From<EntityId<E>> for usize {
    fn from(value: EntityId<E>) -> (r: usize) {
        value.id
    }
}

impl<E> vstd::std_specs::convert::FromSpecImpl<EntityId<E>> for usize {
    open spec fn obeys_from_spec() -> bool {
        true
    }

    open spec fn from_spec(value: EntityId<E>) -> usize {
        value.id
    }
}

impl<E> From<usize> for EntityId<E> {
    fn from(value: usize) -> (r: Self) {
        Self::new(value)
    }
}

impl<E> vstd::std_specs::convert::FromSpecImpl<usize> for EntityId<E> {
    open spec fn obeys_from_spec() -> bool {
        true
    }

    open spec fn from_spec(value: usize) -> Self {
        EntityId { id: value, marker: PhantomData }
    }
}

/// Identity of a component: its position in the store of payload type `T`
/// of schema `E`.
#[derive(Debug, PartialEq)]
pub struct CompId<T, E> {
    pub id: usize,
    pub comp_marker: PhantomData<T>,
    pub entity_marker: PhantomData<E>,
}

impl<T, E> Clone for CompId<T, E> {
    fn clone(&self) -> (r: Self)
        ensures
            r == *self,
    {
        Self { id: self.id, comp_marker: PhantomData, entity_marker: PhantomData }
    }
}

impl<T, E> Copy for CompId<T, E> {}

impl<T, E> View for CompId<T, E> {
    type V = nat;

    open spec fn view(&self) -> nat {
        self.id as nat
    }
}

impl<T, E> CompId<T, E> {
    /// Wraps a raw index. Nothing is registered and nothing is checked.
    pub fn new(id: usize) -> (r: Self)
        ensures
            r.id == id,
    {
        Self { id, comp_marker: PhantomData, entity_marker: PhantomData }
    }
}

impl<T, E> From<CompId<T, E>> for usize {
    fn from(value: CompId<T, E>) -> (r: usize) {
        value.id
    }
}

impl<T, E> vstd::std_specs::convert::FromSpecImpl<CompId<T, E>> for usize {
    open spec fn obeys_from_spec() -> bool {
        true
    }

    open spec fn from_spec(value: CompId<T, E>) -> usize {
        value.id
    }
}

impl<T, E> From<usize> for CompId<T, E> {
    fn from(value: usize) -> (r: Self) {
        Self::new(value)
    }
}

impl<T, E> vstd::std_specs::convert::FromSpecImpl<usize> for CompId<T, E> {
    open spec fn obeys_from_spec() -> bool {
        true
    }

    open spec fn from_spec(value: usize) -> Self {
        CompId { id: value, comp_marker: PhantomData, entity_marker: PhantomData }
    }
}

} // verus!
