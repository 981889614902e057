//! The mathematical models of a component store and of a container.

use crate::component::Component;
use crate::error::EcsErr;
use crate::ids::EntityId;
use crate::traits::{CompVecFn, EntityFn};
use vstd::prelude::*;

verus! {

/// The payloads of `slots` in order.
pub open spec fn payloads<T, E>(slots: Seq<Component<T, E>>) -> Seq<T> {
    slots.map_values(|c: Component<T, E>| c.value())
}

/// What the store of one component type holds: its slots in index order,
/// and the indices waiting for reuse, the most recently recycled last.
///
/// A slot whose index is in `recycled` keeps its payload, but counts as
/// removed until an insert writes to it again.
pub struct StoreModel<T, E> {
    pub slots: Seq<Component<T, E>>,
    pub recycled: Seq<nat>,
}

impl<T, E> StoreModel<T, E> {
    /// The store with no slot.
    pub open spec fn empty() -> Self {
        StoreModel { slots: Seq::empty(), recycled: Seq::empty() }
    }

    /// Every recycled index names a slot, and none is queued twice.
    pub open spec fn wf(self) -> bool {
        &&& self.recycled.no_duplicates()
        &&& forall|k: int|
            0 <= k < self.recycled.len() ==> #[trigger] self.recycled[k] < self.slots.len()
    }

    /// The slot `i` exists and is not waiting for reuse.
    pub open spec fn live(self, i: nat) -> bool {
        i < self.slots.len() && !self.recycled.contains(i)
    }

    /// The next insert overwrites a recycled slot instead of appending.
    pub open spec fn reuses(self) -> bool {
        self.recycled.len() > 0 && self.recycled.last() < self.slots.len()
    }

    /// The index that the next insert writes to: the most recently
    /// recycled one, or else the end of the slots.
    pub open spec fn next_index(self) -> nat {
        if self.reuses() {
            self.recycled.last()
        } else {
            self.slots.len()
        }
    }

    /// The store after inserting `item`.
    pub open spec fn insert(self, item: Component<T, E>) -> Self {
        if self.reuses() {
            StoreModel {
                slots: self.slots.update(self.recycled.last() as int, item),
                recycled: self.recycled.drop_last(),
            }
        } else {
            StoreModel { slots: self.slots.push(item), recycled: self.recycled }
        }
    }

    /// The store after removing slot `i`: an existing slot is queued for
    /// reuse unless it is queued already; the payload stays.
    pub open spec fn remove(self, i: nat) -> Self {
        if self.live(i) {
            StoreModel { slots: self.slots, recycled: self.recycled.push(i) }
        } else {
            self
        }
    }

    /// The component that a lookup of `i` finds.
    pub open spec fn get(self, i: nat) -> Option<Component<T, E>> {
        if self.live(i) {
            Some(self.slots[i as int])
        } else {
            None
        }
    }

    /// The store with slot `i` replaced by `c`.
    pub open spec fn with_slot(self, i: nat, c: Component<T, E>) -> Self {
        StoreModel { slots: self.slots.update(i as int, c), recycled: self.recycled }
    }

    /// The payloads of all slots in index order, recycled ones included.
    pub open spec fn values(self) -> Seq<T> {
        payloads(self.slots)
    }
}

/// A container seen through one component type: for each entity, in
/// creation order, the index of the slot it links, and the store of that
/// type.
pub struct EcsModel<T, E> {
    pub links: Seq<Option<nat>>,
    pub store: StoreModel<T, E>,
}

impl<T, E> EcsModel<T, E> {
    /// The container with no entity and no slot.
    pub open spec fn empty() -> Self {
        EcsModel { links: Seq::empty(), store: StoreModel::empty() }
    }

    /// The container with one more entity, which links nothing.
    pub open spec fn with_new_entity(self) -> Self {
        EcsModel { links: self.links.push(None), store: self.store }
    }

    /// The store is well formed, every link names a live slot, and no two
    /// entities link the same slot. Inserts and removes keep this.
    pub open spec fn consistent(self) -> bool {
        &&& self.store.wf()
        &&& forall|j: int|
            0 <= j < self.links.len() && (#[trigger] self.links[j]) is Some ==> self.store.live(
                self.links[j].unwrap(),
            )
        &&& forall|j: int, k: int|
            0 <= j < k < self.links.len() && (#[trigger] self.links[j]) is Some
                ==> self.links[j] != #[trigger] self.links[k]
    }

    /// The slot that an insert for the entity `e` links, if `e` exists.
    pub open spec fn inserted_id(self, e: EntityId<E>) -> Option<nat> {
        if e@ < self.links.len() {
            Some(self.store.next_index())
        } else {
            None
        }
    }

    /// The container after inserting the payload `v` for the entity `e`.
    /// The slot that `e` linked before stays as it was.
    pub open spec fn insert(self, e: EntityId<E>, v: T) -> Self {
        if e@ < self.links.len() {
            EcsModel {
                links: self.links.update(e@ as int, Some(self.store.next_index())),
                store: self.store.insert(Component::of(e, v)),
            }
        } else {
            self
        }
    }

    /// What removing the component of the entity `e` returns.
    pub open spec fn remove_result(self, e: EntityId<E>) -> Result<(), EcsErr> {
        if e@ >= self.links.len() {
            Err(EcsErr::NoSuchEntityId(e.id))
        } else {
            match self.links[e@ as int] {
                None => Err(EcsErr::EntityMissingComponent(e.id)),
                Some(c) => if c < self.store.slots.len() {
                    Ok(())
                } else {
                    Err(EcsErr::NoSuchCompId(c as usize))
                },
            }
        }
    }

    /// The container after removing the component of the entity `e`: where
    /// the removal succeeds the slot is recycled and the link cleared, and
    /// where it fails nothing changes.
    pub open spec fn remove(self, e: EntityId<E>) -> Self {
        if self.remove_result(e) is Ok {
            EcsModel {
                links: self.links.update(e@ as int, None),
                store: self.store.remove(self.links[e@ as int].unwrap()),
            }
        } else {
            self
        }
    }

    /// The payload that a lookup of slot `c` finds.
    pub open spec fn get(self, c: nat) -> Option<T> {
        match self.store.get(c) {
            Some(comp) => Some(comp.value()),
            None => None,
        }
    }

    /// The payload in slot `c`, whether or not the slot waits for reuse.
    pub open spec fn payload(self, c: nat) -> T {
        self.store.slots[c as int].value()
    }

    /// The container with the payload of slot `c` replaced by `v`.
    pub open spec fn with_value(self, c: nat, v: T) -> Self {
        EcsModel {
            links: self.links,
            store: self.store.with_slot(c, Component::of(self.store.slots[c as int].owner(), v)),
        }
    }
}

/// For each record the index of the slot that it links for `T`.
pub open spec fn links_of<T, E: EntityFn<T>>(records: Seq<E>) -> Seq<Option<nat>> {
    Seq::new(
        records.len(),
        |i: int|
            match EntityFn::<T>::link(&records[i]) {
                Some(c) => Some(c@),
                None => None,
            },
    )
}

/// The records and stores of a container, seen through the type `T`.
pub open spec fn project<T, V: CompVecFn<T, E>, E: EntityFn<T>>(records: Seq<E>, stores: V) -> EcsModel<
    T,
    E,
> {
    EcsModel { links: links_of::<T, E>(records), store: CompVecFn::<T, E>::store(&stores) }
}

} // verus!
