//! The container: an entity table and the component stores of one schema.

use crate::component::Component;
use crate::error::EcsErr;
use crate::ids::{CompId, EntityId};
use crate::iter::{CompIter, CompIterMut};
use crate::model::{links_of, project, EcsModel};
use crate::traits::{CompVec, CompVecFn, EcsCompFn, EcsFn, EcsMain, Entity, EntityFn};
use vstd::prelude::*;

verus! {

/// An entity table with records of type `E` and the component stores `V`
/// of the same schema.
#[derive(Debug, Clone, PartialEq)]
pub struct Ecs<V, E> {
    entities: Vec<E>,
    components: V,
}

impl<V, E> Ecs<V, E> {
    /// The entity records in creation order.
    pub closed spec fn table(&self) -> Seq<E> {
        self.entities@
    }

    /// The component stores.
    pub closed spec fn stores(&self) -> V {
        self.components
    }
}

impl<V, E> Ecs<V, E> {
    /// The container with the records `entities`, in creation order, and
    /// the stores `components`. Nothing is checked: a link may name a slot
    /// that its store does not hold.
    pub fn from_parts(entities: Vec<E>, components: V) -> (r: Self)
        ensures
            r.table() == entities@,
            r.stores() == components,
    {
        Ecs { entities, components }
    }

    /// The records in creation order, and the stores. Together they are all
    /// that the container holds.
    pub fn as_parts(&self) -> (r: (&[E], &V))
        ensures
            r.0@ == self.table(),
            *r.1 == self.stores(),
    {
        (self.entities.as_slice(), &self.components)
    }
}

impl<V, E> Ecs<V, E> {
    /// Stores `item` as a component of the entity `id` and hands the new
    /// component's id, with the entity's record, to `link`, which is to
    /// note it there. What `link` returns is dropped. Returns the new id,
    /// or nothing if there is no such entity.
    ///
    /// This is `insert` for a record that keeps the link under a name of
    /// its own, where several links may be to components of one type.
    pub fn insert_with<T, L>(&mut self, id: EntityId<E>, item: T, link: L) -> (r: Option<
        CompId<T, E>,
    >) where V: CompVecFn<T, E>, L: FnOnce(&mut E, CompId<T, E>) -> Option<CompId<T, E>>
        requires
            forall|rec: &mut E, c: CompId<T, E>|
                id@ < old(self).table().len() && mut_ref_current(rec) == old(self).table()[id@ as int]
                    && c@ == CompVecFn::<T, E>::store(&old(self).stores()).next_index()
                    ==> call_requires(link, (rec, c)),
        ensures
            match r {
                Some(c) => {
                    &&& id@ < old(self).table().len()
                    &&& c@ == CompVecFn::<T, E>::store(&old(self).stores()).next_index()
                    &&& CompVecFn::<T, E>::store(&final(self).stores()) == CompVecFn::<T, E>::store(
                        &old(self).stores(),
                    ).insert(Component::of(id, item))
                    &&& final(self).stores().same_elsewhere(&old(self).stores())
                    &&& exists|rec: &mut E, prev: Option<CompId<T, E>>|
                        {
                            &&& #[trigger] call_ensures(link, (rec, c), prev)
                            &&& mut_ref_current(rec) == old(self).table()[id@ as int]
                            &&& final(self).table() == old(self).table().update(
                                id@ as int,
                                mut_ref_future(rec),
                            )
                        }
                },
                None => id@ >= old(self).table().len() && *final(self) == *old(self),
            },
    {
        let idx = id.id;
        if idx < self.entities.len() {
            let comp = Component::new(id, item);
            let comp_id = self.components.insert(comp);
            let prev = link(&mut self.entities[idx], comp_id);
            proof {
                assert(exists|rec: &mut E|
                    {
                        &&& #[trigger] call_ensures(link, (rec, comp_id), prev)
                        &&& mut_ref_current(rec) == old(self).entities@[idx as int]
                        &&& mut_ref_future(rec) == self.entities@[idx as int]
                    });
                assert(self.entities@ =~= old(self).entities@.update(
                    idx as int,
                    self.entities@[idx as int],
                ));
            }
            Some(comp_id)
        } else {
            None
        }
    }

    /// Removes the component that `linked` finds in the record of the
    /// entity `e_id`: the slot is queued for reuse, and once that has
    /// succeeded `clear` is called on the record, to forget the link. What
    /// `clear` returns is dropped. On an error nothing changes.
    ///
    /// This is `remove` for a record that keeps the link under a name of
    /// its own.
    pub fn remove_with<T, G, C>(&mut self, e_id: EntityId<E>, linked: G, clear: C) -> (r: Result<
        (),
        EcsErr,
    >) where
        V: CompVecFn<T, E>,
        G: FnOnce(&E) -> Option<CompId<T, E>>,
        C: FnOnce(&mut E) -> Option<CompId<T, E>>,

        requires
            e_id@ < old(self).table().len() ==> call_requires(
                linked,
                (&old(self).table()[e_id@ as int],),
            ),
            forall|rec: &mut E|
                e_id@ < old(self).table().len() && mut_ref_current(rec) == old(self).table()[e_id@ as int]
                    ==> call_requires(clear, (rec,)),
        ensures
            e_id@ >= old(self).table().len() ==> r == Err::<(), EcsErr>(
                EcsErr::NoSuchEntityId(e_id.id),
            ),
            r is Err ==> *final(self) == *old(self),
            e_id@ < old(self).table().len() ==> exists|found: Option<CompId<T, E>>|
                {
                    &&& #[trigger] call_ensures(linked, (&old(self).table()[e_id@ as int],), found)
                    &&& match found {
                        None => r == Err::<(), EcsErr>(EcsErr::EntityMissingComponent(e_id.id)),
                        Some(c) => r == (if c@ < CompVecFn::<T, E>::store(
                            &old(self).stores(),
                        ).slots.len() {
                            Ok::<(), EcsErr>(())
                        } else {
                            Err::<(), EcsErr>(EcsErr::NoSuchCompId(c.id))
                        }),
                    }
                    &&& r is Ok ==> CompVecFn::<T, E>::store(&final(self).stores()) == CompVecFn::<
                        T,
                        E,
                    >::store(&old(self).stores()).remove(found.unwrap()@)
                },
            r is Ok ==> final(self).stores().same_elsewhere(&old(self).stores()),
            r is Ok ==> exists|rec: &mut E, prev: Option<CompId<T, E>>|
                {
                    &&& #[trigger] call_ensures(clear, (rec,), prev)
                    &&& mut_ref_current(rec) == old(self).table()[e_id@ as int]
                    &&& final(self).table() == old(self).table().update(
                        e_id@ as int,
                        mut_ref_future(rec),
                    )
                },
    {
        let idx = e_id.id;
        if idx < self.entities.len() {
            let found = linked(&self.entities[idx]);
            match found {
                Some(cid) => {
                    let out = self.components.remove(cid);
                    if out.is_ok() {
                        let prev = clear(&mut self.entities[idx]);
                        proof {
                            assert(exists|rec: &mut E|
                                {
                                    &&& #[trigger] call_ensures(clear, (rec,), prev)
                                    &&& mut_ref_current(rec) == old(self).entities@[idx as int]
                                    &&& mut_ref_future(rec) == self.entities@[idx as int]
                                });
                            assert(self.entities@ =~= old(self).entities@.update(
                                idx as int,
                                self.entities@[idx as int],
                            ));
                        }
                    }
                    out
                },
                None => Err(EcsErr::EntityMissingComponent(idx)),
            }
        } else {
            Err(EcsErr::NoSuchEntityId(idx))
        }
    }
}

impl<V: CompVec, E: Entity> Ecs<V, E> {
    /// A container with no entity and empty stores.
    pub fn new() -> (r: Self)
        ensures
            r.table() == Seq::<E>::empty(),
            r.stores().is_empty(),
    {
        Ecs { entities: Vec::new(), components: V::new() }
    }
}

impl<V: CompVec, E: Entity> EcsMain<E> for Ecs<V, E> {
    open spec fn entities(&self) -> Seq<E> {
        self.table()
    }

    fn shrink(&mut self)
        ensures
            final(self).stores().same_contents(&old(self).stores()),
    {
        self.components.shrink();
    }

    fn new_entity(&mut self) -> (id: EntityId<E>)
        ensures
            final(self).stores() == old(self).stores(),
    {
        let idx = self.entities.len();
        self.entities.push(E::new());
        assert(self.entities@.drop_last() =~= old(self).entities@);
        EntityId::new(idx)
    }

    fn borrow_entity(&self, id: EntityId<E>) -> (r: Option<&E>) {
        let idx = id.id;
        if idx < self.entities.len() {
            Some(&self.entities[idx])
        } else {
            None
        }
    }

    fn borrow_mut_entity(&mut self, id: EntityId<E>) -> (r: Option<&mut E>)
        ensures
            final(self).stores() == old(self).stores(),
    {
        let idx = id.id;
        if idx < self.entities.len() {
            Some(&mut self.entities[idx])
        } else {
            None
        }
    }

    fn has_component<T>(&self, id: CompId<T, E>) -> (r: bool) where E: EntityFn<T> {
        let idx = id.id;
        if idx < self.entities.len() {
            let link = EntityFn::<T>::get(&self.entities[idx]);
            link.is_some()
        } else {
            false
        }
    }
}

impl<T, V, E> EcsCompFn<T, E> for Ecs<V, E> where V: CompVec + CompVecFn<T, E>, E: Entity + EntityFn<T> {
    open spec fn model(&self) -> EcsModel<T, E> {
        project::<T, V, E>(self.table(), self.stores())
    }

    fn insert(&mut self, id: EntityId<E>, item: T) -> (r: Option<CompId<T, E>>)
        ensures
            match r {
                Some(c) => {
                    &&& final(self).stores().same_elsewhere(&old(self).stores())
                    &&& final(self).table() == old(self).table().update(
                        id@ as int,
                        old(self).table()[id@ as int].relinked(Some(c)),
                    )
                },
                None => *final(self) == *old(self),
            },
    {
        let idx = id.id;
        if idx < self.entities.len() {
            let comp = Component::new(id, item);
            let comp_id = self.components.insert(comp);
            let _ = EntityFn::<T>::set(&mut self.entities[idx], comp_id);
            proof {
                old(self).entities@[idx as int].lemma_relinked_link(Some(comp_id));
                assert(links_of::<T, E>(self.entities@) =~= links_of::<T, E>(old(self).entities@).update(
                    idx as int,
                    Some(comp_id@),
                ));
            }
            Some(comp_id)
        } else {
            None
        }
    }

    fn get(&self, id: CompId<T, E>) -> (r: Option<&T>) {
        match self.components.get(id) {
            Some(comp) => Some(comp.borrow()),
            None => None,
        }
    }

    fn get_mut(&mut self, id: CompId<T, E>) -> (r: Option<&mut T>)
        ensures
            final(self).table() == old(self).table(),
            r is Some ==> final(self).stores().same_elsewhere(&old(self).stores()),
            r is None ==> *final(self) == *old(self),
    {
        match self.components.get_mut(id) {
            Some(comp) => Some(comp.borrow_mut()),
            None => None,
        }
    }

    fn call<F, U>(&self, id: CompId<T, E>, fcn: F) -> (r: Option<U>) where F: Fn(&T) -> U {
        match self.get(id) {
            Some(v) => Some(fcn(v)),
            None => None,
        }
    }

    fn call_mut<F, U>(&mut self, id: CompId<T, E>, mut fcn: F) -> (r: Option<U>) where
        F: FnMut(&mut T) -> U,

        ensures
            final(self).table() == old(self).table(),
            r is Some ==> final(self).stores().same_elsewhere(&old(self).stores()),
            r is None ==> *final(self) == *old(self),
    {
        let ghost f0 = fcn;
        let ghost mut before: Option<T> = None;
        let r = match self.get_mut(id) {
            Some(v) => {
                proof {
                    before = Some(*v);
                }
                let u = fcn(v);
                proof {
                    assert(exists|w: &mut T|
                        {
                            &&& #[trigger] call_ensures(f0, (w,), u)
                            &&& mut_ref_current(w) == before.unwrap()
                            &&& mut_ref_future(w) == *v
                        });
                }
                Some(u)
            },
            None => None,
        };
        proof {
            if r is Some {
                let owner = old(self).model().store.slots[id@ as int].owner();
                let w = choose|w: &mut T|
                    {
                        &&& #[trigger] call_ensures(f0, (w,), r.unwrap())
                        &&& mut_ref_current(w) == before.unwrap()
                        &&& self.model() == old(self).model().with_value(id@, mut_ref_future(w))
                    };
                Component::<T, E>::lemma_of(owner, mut_ref_future(w));
                assert(self.model().payload(id@) == mut_ref_future(w));
            }
        }
        r
    }
}

impl<V: CompVec, E: Entity> EcsFn<V, E> for Ecs<V, E> {
    open spec fn components(&self) -> V {
        self.stores()
    }

    open spec fn records(&self) -> Seq<E> {
        self.table()
    }

    fn iter<T>(&self) -> (it: CompIter<'_, T, E>) where V: CompVecFn<T, E> {
        self.components.iter()
    }

    fn iter_mut<T>(&mut self) -> (it: CompIterMut<'_, T, E>) where V: CompVecFn<T, E> {
        self.components.iter_mut()
    }

    fn remove<T>(&mut self, e_id: EntityId<E>) -> (r: Result<(), EcsErr>) where
        V: CompVecFn<T, E>,
        E: EntityFn<T>,

        ensures
            match r {
                Ok(_) => {
                    &&& final(self).stores().same_elsewhere(&old(self).stores())
                    &&& final(self).table() == old(self).table().update(
                        e_id@ as int,
                        old(self).table()[e_id@ as int].relinked(None::<CompId<T, E>>),
                    )
                },
                Err(_) => *final(self) == *old(self),
            },
    {
        let idx = e_id.id;
        if idx < self.entities.len() {
            let linked = EntityFn::<T>::get(&self.entities[idx]);
            match linked {
                Some(cid) => {
                    let out = self.components.remove(cid);
                    if out.is_ok() {
                        let _ = EntityFn::<T>::remove(&mut self.entities[idx]);
                        proof {
                            old(self).entities@[idx as int].lemma_relinked_link(None::<CompId<T, E>>);
                            assert(links_of::<T, E>(self.entities@) =~= links_of::<T, E>(
                                old(self).entities@,
                            ).update(idx as int, None));
                        }
                    }
                    out
                },
                None => Err(EcsErr::EntityMissingComponent(idx)),
            }
        } else {
            Err(EcsErr::NoSuchEntityId(idx))
        }
    }

    fn run_system<F: FnMut(&mut V, &E)>(&mut self, mut system_fn: F) {
        let mut i: usize = 0;
        let n = self.entities.len();
        let ghost f0 = system_fn;
        proof {
            let none = Seq::<&mut V>::empty();
            assert(none.len() == 0);
        }
        while i < n
            invariant
                system_fn == f0,
                n == self.entities@.len(),
                self.entities@ == old(self).records(),
                forall|v: &mut V, j: int|
                    0 <= j < n ==> call_requires(system_fn, (v, &old(self).records()[j])),
                i <= n,
                exists|calls: Seq<&mut V>|
                    {
                        &&& #[trigger] calls.len() == i
                        &&& forall|k: int|
                            0 <= k < calls.len() ==> call_ensures(
                                f0,
                                (#[trigger] calls[k], &old(self).records()[k]),
                                (),
                            )
                        &&& forall|k: int|
                            0 <= k < calls.len() ==> mut_ref_current(#[trigger] calls[k]) == (if k
                                == 0 {
                                old(self).components
                            } else {
                                mut_ref_future(calls[k - 1])
                            })
                        &&& self.components == (if calls.len() == 0 {
                            old(self).components
                        } else {
                            mut_ref_future(calls.last())
                        })
                    },
            decreases n - i,
        {
            let ghost before = self.components;
            system_fn(&mut self.components, &self.entities[i]);
            proof {
                let c0 = choose|calls: Seq<&mut V>|
                    {
                        &&& #[trigger] calls.len() == i
                        &&& forall|k: int|
                            0 <= k < calls.len() ==> call_ensures(
                                f0,
                                (#[trigger] calls[k], &old(self).records()[k]),
                                (),
                            )
                        &&& forall|k: int|
                            0 <= k < calls.len() ==> mut_ref_current(#[trigger] calls[k]) == (if k
                                == 0 {
                                old(self).components
                            } else {
                                mut_ref_future(calls[k - 1])
                            })
                        &&& before == (if calls.len() == 0 {
                            old(self).components
                        } else {
                            mut_ref_future(calls.last())
                        })
                    };
                let r = choose|r: &mut V|
                    mut_ref_current(r) == before && mut_ref_future(r) == self.components
                        && #[trigger] call_ensures(f0, (r, &old(self).records()[i as int]), ());
                let c1 = c0.push(r);
                assert(c1.len() == i + 1);
                assert(c1.last() == r);
                assert(forall|k: int| 0 <= k < i ==> c1[k] == c0[k]);
            }
            i += 1;
        }
    }
}

} // verus!
