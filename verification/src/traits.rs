//! The interfaces between a container and the types of one schema.

use crate::component::Component;
use crate::error::EcsErr;
use crate::ids::{CompId, EntityId};
use crate::iter::{CompIter, CompIterMut};
use crate::model::{project, EcsModel, StoreModel};
use core::marker::PhantomData;
use vstd::prelude::*;

verus! {

/// The stores of all component types of one schema, taken together.
pub trait CompVec: Sized {
    /// No store holds a slot.
    spec fn is_empty(&self) -> bool;

    /// Both hold the same slots and recycled indices in every store; they
    /// may differ in reserved capacity.
    spec fn same_contents(&self, other: &Self) -> bool;

    /// The stores of a new container, all empty.
    fn new() -> (r: Self)
        ensures
            r.is_empty(),
    ;

    /// Gives back reserved memory that is not in use. What is stored stays.
    fn shrink(&mut self)
        ensures
            final(self).same_contents(old(self)),
    ;
}

/// Access to the store of payload type `T` among the stores of a schema
/// with entity record `E`.
pub trait CompVecFn<T, E>: CompVec {
    /// What the store of `T` holds.
    spec fn store(&self) -> StoreModel<T, E>;

    /// Every store but that of `T` holds the same in both.
    spec fn same_elsewhere(&self, other: &Self) -> bool;

    /// In empty stores the store of `T` is empty.
    proof fn lemma_empty_store(&self)
        requires
            self.is_empty(),
        ensures
            self.store() == StoreModel::<T, E>::empty(),
    ;

    /// Stores with the same contents have the same store of `T`.
    proof fn lemma_same_contents_store(&self, other: &Self)
        requires
            self.same_contents(other),
        ensures
            self.store() == other.store(),
    ;

    /// Stores `item`: in the most recently recycled slot if there is one,
    /// overwriting what it held, else in a new slot at the end. Returns the
    /// slot's id.
    fn insert(&mut self, item: Component<T, E>) -> (id: CompId<T, E>)
        ensures
            id@ == old(self).store().next_index(),
            final(self).store() == old(self).store().insert(item),
            final(self).same_elsewhere(old(self)),
    ;

    /// Queues the slot `id` for reuse. Fails if the store has no such slot;
    /// a slot that is queued already stays queued once.
    fn remove(&mut self, id: CompId<T, E>) -> (r: Result<(), EcsErr>)
        ensures
            id@ < old(self).store().slots.len() ==> r == Ok::<(), EcsErr>(()),
            id@ >= old(self).store().slots.len() ==> r == Err::<(), EcsErr>(
                EcsErr::NoSuchCompId(id.id),
            ),
            final(self).store() == old(self).store().remove(id@),
            final(self).same_elsewhere(old(self)),
            r is Err ==> *final(self) == *old(self),
    ;

    /// The component in slot `id`, if the slot exists and is not waiting
    /// for reuse.
    fn get(&self, id: CompId<T, E>) -> (r: Option<&Component<T, E>>)
        ensures
            match r {
                Some(c) => self.store().get(id@) == Some(*c),
                None => self.store().get(id@) is None,
            },
            self.store().recycled.contains(id@) ==> r is None,
    ;

    /// Mutable access to slot `id`, if the slot exists, whether or not it
    /// is waiting for reuse.
    fn get_mut(&mut self, id: CompId<T, E>) -> (r: Option<&mut Component<T, E>>)
        ensures
            match r {
                Some(c) => {
                    &&& id@ < old(self).store().slots.len()
                    &&& *c == old(self).store().slots[id@ as int]
                    &&& final(self).store() == old(self).store().with_slot(id@, *final(c))
                    &&& final(self).same_elsewhere(old(self))
                },
                None => id@ >= old(self).store().slots.len() && *final(self) == *old(self),
            },
    ;

    /// Number of slots, recycled ones included.
    fn len(&self, _marker: PhantomData<T>) -> (n: usize)
        ensures
            n == self.store().slots.len(),
    ;

    /// The payloads of all slots in index order, those waiting for reuse
    /// included.
    fn iter(&self) -> (it: CompIter<'_, T, E>)
        ensures
            it.remaining() == self.store().values(),
    ;

    /// Mutable access to the payloads of all slots in index order, those
    /// waiting for reuse included. The store ends up holding the slots as
    /// the returned sequence leaves them.
    fn iter_mut(&mut self) -> (it: CompIterMut<'_, T, E>)
        ensures
            it.rest@ == old(self).store().slots,
            final(self).store() == (StoreModel {
                slots: final(it.rest)@,
                recycled: old(self).store().recycled,
            }),
            final(self).same_elsewhere(old(self)),
    ;
}

/// The record of one entity: at most one component id for each component
/// type of the schema.
pub trait Entity: Sized {
    /// The record links no component of any type.
    spec fn is_blank(&self) -> bool;

    /// The record of a new entity, with no component linked.
    fn new() -> (r: Self)
        ensures
            r.is_blank(),
    ;
}

/// The link of an entity record to its component of type `T`.
pub trait EntityFn<T>: Entity {
    /// The component of type `T` that the record links, if any.
    spec fn link(&self) -> Option<CompId<T, Self>>;

    /// The record with its link for `T` replaced by `link` and everything
    /// else kept.
    spec fn relinked(self, link: Option<CompId<T, Self>>) -> Self;

    /// A blank record links no component of type `T`.
    proof fn lemma_blank_link(&self)
        requires
            self.is_blank(),
        ensures
            self.link() is None,
    ;

    /// A relinked record holds the link it was given.
    proof fn lemma_relinked_link(self, link: Option<CompId<T, Self>>)
        ensures
            self.relinked(link).link() == link,
    ;

    /// Links `id` and returns the id that was linked before.
    fn set(&mut self, id: CompId<T, Self>) -> (prev: Option<CompId<T, Self>>)
        ensures
            prev == old(self).link(),
            *final(self) == old(self).relinked(Some(id)),
    ;

    /// Links `id` if there is one, and returns the id that it replaced.
    /// Without an id the record stays as it is and nothing is returned.
    fn try_set(&mut self, id: Option<CompId<T, Self>>) -> (prev: Option<CompId<T, Self>>)
        ensures
            id is Some ==> prev == old(self).link() && *final(self) == old(self).relinked(id),
            id is None ==> prev is None && *final(self) == *old(self),
    ;

    /// The id that is linked.
    fn get(&self) -> (r: Option<CompId<T, Self>>)
        ensures
            r == self.link(),
    ;

    /// Clears the link and returns the id that was linked.
    fn remove(&mut self) -> (prev: Option<CompId<T, Self>>)
        ensures
            prev == old(self).link(),
            *final(self) == old(self).relinked(None),
    ;
}

/// The entity table of a container.
pub trait EcsMain<E: Entity> {
    /// The records of all entities in creation order.
    spec fn entities(&self) -> Seq<E>;

    /// Gives back reserved memory of the component stores that is not in
    /// use.
    fn shrink(&mut self)
        ensures
            final(self).entities() == old(self).entities(),
    ;

    /// Creates an entity with no component and returns its id, which is
    /// its position in creation order.
    fn new_entity(&mut self) -> (id: EntityId<E>)
        ensures
            id@ == old(self).entities().len(),
            final(self).entities().len() == old(self).entities().len() + 1,
            final(self).entities().drop_last() == old(self).entities(),
            final(self).entities().last().is_blank(),
    ;

    /// The record of the entity `id`, if there is such an entity.
    fn borrow_entity(&self, id: EntityId<E>) -> (r: Option<&E>)
        ensures
            match r {
                Some(e) => id@ < self.entities().len() && *e == self.entities()[id@ as int],
                None => id@ >= self.entities().len(),
            },
    ;

    /// Mutable access to the record of the entity `id`, if there is such an
    /// entity.
    fn borrow_mut_entity(&mut self, id: EntityId<E>) -> (r: Option<&mut E>)
        ensures
            match r {
                Some(e) => {
                    &&& id@ < old(self).entities().len()
                    &&& *e == old(self).entities()[id@ as int]
                    &&& final(self).entities() == old(self).entities().update(id@ as int, *final(e))
                },
                None => {
                    &&& id@ >= old(self).entities().len()
                    &&& final(self).entities() == old(self).entities()
                },
            },
    ;

    /// Whether the entity record at the index that `id` carries links a
    /// component of type `T`. False where there is no such record.
    fn has_component<T>(&self, id: CompId<T, E>) -> (r: bool) where E: EntityFn<T>
        ensures
            r == (id@ < self.entities().len() && EntityFn::<T>::link(
                &self.entities()[id@ as int],
            ) is Some),
    ;
}

/// The components of type `T` in a container with entity record `E`.
pub trait EcsCompFn<T, E> {
    /// The container seen through the type `T`.
    spec fn model(&self) -> EcsModel<T, E>;

    /// Stores `item` as the component of type `T` of the entity `id` and
    /// links it in the entity's record. Returns the new component's id, or
    /// nothing if there is no such entity. A component that the entity
    /// linked before is not removed: its slot stays live, unlinked.
    fn insert(&mut self, id: EntityId<E>, item: T) -> (r: Option<CompId<T, E>>)
        ensures
            final(self).model() == old(self).model().insert(id, item),
            match r {
                Some(c) => old(self).model().inserted_id(id) == Some(c@),
                None => old(self).model().inserted_id(id) is None,
            },
    ;

    /// The payload in slot `id`, if the slot exists and is not waiting for
    /// reuse.
    fn get(&self, id: CompId<T, E>) -> (r: Option<&T>)
        ensures
            match r {
                Some(v) => self.model().get(id@) == Some(*v),
                None => self.model().get(id@) is None,
            },
            self.model().store.recycled.contains(id@) ==> r is None,
    ;

    /// Mutable access to the payload in slot `id`, if the slot exists,
    /// whether or not it is waiting for reuse.
    fn get_mut(&mut self, id: CompId<T, E>) -> (r: Option<&mut T>)
        ensures
            match r {
                Some(v) => {
                    &&& id@ < old(self).model().store.slots.len()
                    &&& *v == old(self).model().payload(id@)
                    &&& final(self).model() == old(self).model().with_value(id@, *final(v))
                },
                None => {
                    &&& id@ >= old(self).model().store.slots.len()
                    &&& final(self).model() == old(self).model()
                },
            },
    ;

    /// Calls `fcn` on the payload in slot `id`, if the slot exists and is
    /// not waiting for reuse, and returns what it returned.
    fn call<F, U>(&self, id: CompId<T, E>, fcn: F) -> (r: Option<U>) where F: Fn(&T) -> U
        requires
            self.model().get(id@) matches Some(v) ==> call_requires(fcn, (&v,)),
        ensures
            match r {
                Some(u) => self.model().get(id@) matches Some(v) && call_ensures(fcn, (&v,), u),
                None => self.model().get(id@) is None,
            },
    ;

    /// Calls `fcn` on the payload in slot `id`, if the slot exists, whether
    /// or not it is waiting for reuse, and returns what it returned. The
    /// payload is left as `fcn` left it.
    fn call_mut<F, U>(&mut self, id: CompId<T, E>, fcn: F) -> (r: Option<U>) where
        F: FnMut(&mut T) -> U,

        requires
            forall|v: &mut T|
                id@ < old(self).model().store.slots.len() && mut_ref_current(v) == old(
                    self,
                ).model().payload(id@) ==> call_requires(fcn, (v,)),
        ensures
            match r {
                Some(u) => {
                    &&& id@ < old(self).model().store.slots.len()
                    &&& final(self).model() == old(self).model().with_value(
                        id@,
                        final(self).model().payload(id@),
                    )
                    &&& exists|v: &mut T|
                        {
                            &&& #[trigger] call_ensures(fcn, (v,), u)
                            &&& mut_ref_current(v) == old(self).model().payload(id@)
                            &&& mut_ref_future(v) == final(self).model().payload(id@)
                        }
                },
                None => {
                    &&& id@ >= old(self).model().store.slots.len()
                    &&& final(self).model() == old(self).model()
                },
            },
    ;
}

/// Operations of a container with stores `V` and entity record `E` that
/// work for every component type of the schema.
pub trait EcsFn<V, E> {
    /// The component stores.
    spec fn components(&self) -> V;

    /// The records of all entities in creation order.
    spec fn records(&self) -> Seq<E>;

    /// The payloads of type `T` of all slots in index order, those waiting
    /// for reuse included.
    fn iter<T>(&self) -> (it: CompIter<'_, T, E>) where V: CompVecFn<T, E>
        ensures
            it.remaining() == CompVecFn::<T, E>::store(&self.components()).values(),
    ;

    /// Mutable access to the payloads of type `T` of all slots in index
    /// order, those waiting for reuse included.
    fn iter_mut<T>(&mut self) -> (it: CompIterMut<'_, T, E>) where V: CompVecFn<T, E>
        ensures
            it.rest@ == CompVecFn::<T, E>::store(&old(self).components()).slots,
            CompVecFn::<T, E>::store(&final(self).components()) == (StoreModel {
                slots: final(it.rest)@,
                recycled: CompVecFn::<T, E>::store(&old(self).components()).recycled,
            }),
            final(self).components().same_elsewhere(&old(self).components()),
            final(self).records() == old(self).records(),
    ;

    /// Removes the component of type `T` of the entity `e_id`: the slot is
    /// queued for reuse, and once that has succeeded the link is cleared.
    /// On an error nothing changes.
    fn remove<T>(&mut self, e_id: EntityId<E>) -> (r: Result<(), EcsErr>) where
        V: CompVecFn<T, E>,
        E: EntityFn<T>,

        ensures
            r == project::<T, V, E>(old(self).records(), old(self).components()).remove_result(e_id),
            project::<T, V, E>(final(self).records(), final(self).components()) == project::<T, V, E>(
                old(self).records(),
                old(self).components(),
            ).remove(e_id),
    ;

    /// Calls `system_fn` once for every entity, in creation order, with
    /// mutable access to the component stores and read access to the
    /// entity's record. Each call finds the stores as the call before left
    /// them; the records stay as they are.
    fn run_system<F: FnMut(&mut V, &E)>(&mut self, system_fn: F)
        requires
            forall|v: &mut V, i: int|
                0 <= i < old(self).records().len() ==> call_requires(
                    system_fn,
                    (v, &old(self).records()[i]),
                ),
        ensures
            final(self).records() == old(self).records(),
            exists|calls: Seq<&mut V>|
                {
                    &&& #[trigger] calls.len() == old(self).records().len()
                    &&& forall|k: int|
                        0 <= k < calls.len() ==> call_ensures(
                            system_fn,
                            (#[trigger] calls[k], &old(self).records()[k]),
                            (),
                        )
                    &&& forall|k: int|
                        0 <= k < calls.len() ==> mut_ref_current(#[trigger] calls[k]) == (if k == 0 {
                            old(self).components()
                        } else {
                            mut_ref_future(calls[k - 1])
                        })
                    &&& final(self).components() == (if calls.len() == 0 {
                        old(self).components()
                    } else {
                        mut_ref_future(calls.last())
                    })
                },
    ;
}

} // verus!
