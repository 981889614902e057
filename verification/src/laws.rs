//! What holds of every store and every container, proved over their models.

use crate::component::Component;
use crate::error::EcsErr;
use crate::ids::EntityId;
use crate::model::{links_of, project, EcsModel, StoreModel};
use crate::traits::{CompVecFn, EntityFn};
use vstd::prelude::*;

verus! {

/// The empty store is well formed.
pub proof fn lemma_empty_wf<T, E>()
    ensures
        StoreModel::<T, E>::empty().wf(),
{
}

/// An insert keeps a store well formed, and the slot it wrote to is live
/// afterwards and holds the inserted component.
pub proof fn lemma_store_insert<T, E>(s: StoreModel<T, E>, item: Component<T, E>)
    requires
        s.wf(),
    ensures
        s.insert(item).wf(),
        !s.live(s.next_index()),
        s.insert(item).live(s.next_index()),
        s.insert(item).get(s.next_index()) == Some(item),
        forall|i: nat| s.live(i) ==> s.insert(item).get(i) == s.get(i),
{
    let t = s.insert(item);
    let n = s.next_index();
    if s.reuses() {
        let last = s.recycled.len() - 1;
        assert(s.recycled[last] == n);
        assert(s.recycled.contains(n));
        assert forall|k: int| 0 <= k < t.recycled.len() implies #[trigger] t.recycled[k]
            < t.slots.len() by {
            assert(t.recycled[k] == s.recycled[k]);
        }
        assert(!t.recycled.contains(n)) by {
            if t.recycled.contains(n) {
                let k = choose|k: int| 0 <= k < t.recycled.len() && t.recycled[k] == n;
                assert(s.recycled[k] == n);
            }
        }
        assert forall|i: nat| s.live(i) implies t.get(i) == s.get(i) by {
            assert(i != n);
            if t.recycled.contains(i) {
                let k = choose|k: int| 0 <= k < t.recycled.len() && t.recycled[k] == i;
                assert(s.recycled[k] == i);
            }
        }
    } else {
        assert(s.recycled.len() == 0) by {
            if s.recycled.len() > 0 {
                assert(s.recycled[s.recycled.len() - 1] < s.slots.len());
            }
        }
    }
}

/// A remove keeps a store well formed. It adds one index to the recycled
/// ones if the slot was live, and changes nothing otherwise; the slot is not
/// live afterwards.
pub proof fn lemma_store_remove<T, E>(s: StoreModel<T, E>, i: nat)
    requires
        s.wf(),
    ensures
        s.remove(i).wf(),
        !s.remove(i).live(i),
        s.remove(i).slots == s.slots,
        s.live(i) ==> s.remove(i).recycled == s.recycled.push(i),
        !s.live(i) ==> s.remove(i) == s,
        forall|j: nat| j != i ==> s.remove(i).live(j) == s.live(j),
{
    let t = s.remove(i);
    if s.live(i) {
        assert(t.recycled[s.recycled.len() as int] == i);
        assert forall|j: nat| j != i implies t.live(j) == s.live(j) by {
            if s.recycled.contains(j) {
                let k = choose|k: int| 0 <= k < s.recycled.len() && s.recycled[k] == j;
                assert(t.recycled[k] == j);
            }
            if t.recycled.contains(j) {
                let k = choose|k: int| 0 <= k < t.recycled.len() && t.recycled[k] == j;
                assert(s.recycled[k] == j);
            }
        }
    }
}

/// A slot that waits for reuse is not found by a lookup, though its index
/// is within the store.
pub proof fn lemma_recycled_lookup<T, E>(m: EcsModel<T, E>, c: nat)
    requires
        m.store.recycled.contains(c),
    ensures
        m.store.get(c) is None,
        m.get(c) is None,
{
}

/// Removing from an entity that does not exist, or that links no component
/// of the type, fails with the error that names the entity, and changes
/// nothing.
pub proof fn lemma_remove_errors<T, E>(m: EcsModel<T, E>, e: EntityId<E>)
    ensures
        e@ >= m.links.len() ==> m.remove_result(e) == Err::<(), EcsErr>(EcsErr::NoSuchEntityId(e.id)),
        e@ < m.links.len() && m.links[e@ as int] is None ==> m.remove_result(e) == Err::<
            (),
            EcsErr,
        >(EcsErr::EntityMissingComponent(e.id)),
        m.remove_result(e) is Err ==> m.remove(e) == m,
{
}

/// A container made of no records and empty stores is, seen through any
/// of its component types, the empty container, which is consistent.
pub proof fn lemma_new_container<T, V: CompVecFn<T, E>, E: EntityFn<T>>(stores: V)
    requires
        stores.is_empty(),
    ensures
        project::<T, V, E>(Seq::empty(), stores) == EcsModel::<T, E>::empty(),
        EcsModel::<T, E>::empty().consistent(),
{
    stores.lemma_empty_store();
    assert(links_of::<T, E>(Seq::empty()) =~= Seq::<Option<nat>>::empty());
}

/// A new entity links nothing: the records with a blank record added are,
/// seen through any component type, the links with one more entity.
pub proof fn lemma_new_entity<T, V: CompVecFn<T, E>, E: EntityFn<T>>(
    before: Seq<E>,
    after: Seq<E>,
    stores: V,
)
    requires
        after.len() == before.len() + 1,
        after.drop_last() == before,
        after.last().is_blank(),
    ensures
        project::<T, V, E>(after, stores) == project::<T, V, E>(before, stores).with_new_entity(),
{
    EntityFn::<T>::lemma_blank_link(&after.last());
    assert forall|i: int| 0 <= i < before.len() implies before[i] == after[i] by {
        assert(after.drop_last()[i] == after[i]);
    }
    assert(links_of::<T, E>(after) =~= links_of::<T, E>(before).push(None));
}

/// A new entity keeps a container consistent.
pub proof fn lemma_new_entity_consistent<T, E>(m: EcsModel<T, E>)
    requires
        m.consistent(),
    ensures
        m.with_new_entity().consistent(),
{
    let t = m.with_new_entity();
    assert forall|j: int| 0 <= j < t.links.len() && (#[trigger] t.links[j]) is Some implies t.store.live(
        t.links[j].unwrap(),
    ) by {
        assert(t.links[j] == m.links[j]);
    }
    assert forall|j: int, k: int|
        0 <= j < k < t.links.len() && (#[trigger] t.links[j]) is Some implies t.links[j]
        != #[trigger] t.links[k] by {
        assert(t.links[j] == m.links[j]);
        if k < m.links.len() {
            assert(t.links[k] == m.links[k]);
        }
    }
}

/// Writing to the payload of an existing slot keeps a container
/// consistent, whether or not the slot is waiting for reuse.
pub proof fn lemma_with_value_consistent<T, E>(m: EcsModel<T, E>, c: nat, v: T)
    requires
        m.consistent(),
        c < m.store.slots.len(),
    ensures
        m.with_value(c, v).consistent(),
        m.with_value(c, v).payload(c) == v,
        forall|i: nat| i != c ==> m.with_value(c, v).get(i) == m.get(i),
{
    Component::<T, E>::lemma_of(m.store.slots[c as int].owner(), v);
}

/// An insert for an existing entity keeps a container consistent.
pub proof fn lemma_insert_consistent<T, E>(m: EcsModel<T, E>, e: EntityId<E>, v: T)
    requires
        m.consistent(),
    ensures
        m.insert(e, v).consistent(),
{
    if e@ < m.links.len() {
        let t = m.insert(e, v);
        let n = m.store.next_index();
        lemma_store_insert(m.store, Component::of(e, v));
        assert forall|j: int| 0 <= j < t.links.len() && (#[trigger] t.links[j]) is Some implies t.store.live(
            t.links[j].unwrap(),
        ) by {
            if j != e@ {
                assert(t.links[j] == m.links[j]);
                assert(m.store.live(m.links[j].unwrap()));
                assert(t.store.get(m.links[j].unwrap()) == m.store.get(m.links[j].unwrap()));
            }
        }
        assert forall|j: int, k: int|
            0 <= j < k < t.links.len() && (#[trigger] t.links[j]) is Some implies t.links[j]
            != #[trigger] t.links[k] by {
            if j != e@ {
                assert(t.links[j] == m.links[j]);
                assert(m.store.live(m.links[j].unwrap()));
            }
            if k != e@ {
                assert(t.links[k] == m.links[k]);
                if m.links[k] is Some {
                    assert(m.store.live(m.links[k].unwrap()));
                }
            }
        }
    }
}

/// A remove keeps a container consistent.
pub proof fn lemma_remove_consistent<T, E>(m: EcsModel<T, E>, e: EntityId<E>)
    requires
        m.consistent(),
    ensures
        m.remove(e).consistent(),
{
    if m.remove_result(e) is Ok {
        let t = m.remove(e);
        let c = m.links[e@ as int].unwrap();
        lemma_store_remove(m.store, c);
        assert forall|j: int| 0 <= j < t.links.len() && (#[trigger] t.links[j]) is Some implies t.store.live(
            t.links[j].unwrap(),
        ) by {
            assert(j != e@);
            assert(t.links[j] == m.links[j]);
            assert(m.store.live(m.links[j].unwrap()));
            if j < e@ {
                assert(m.links[j] != m.links[e@ as int]);
            } else {
                assert(m.links[e@ as int] != m.links[j]);
            }
        }
        assert forall|j: int, k: int|
            0 <= j < k < t.links.len() && (#[trigger] t.links[j]) is Some implies t.links[j]
            != #[trigger] t.links[k] by {
            assert(j != e@);
            assert(t.links[j] == m.links[j]);
            if k != e@ {
                assert(t.links[k] == m.links[k]);
            }
        }
    }
}

/// Round trip: a payload inserted for an existing entity is what a lookup
/// of the returned id finds.
pub proof fn lemma_insert_then_get<T, E>(m: EcsModel<T, E>, e: EntityId<E>, v: T)
    requires
        m.store.wf(),
        e@ < m.links.len(),
    ensures
        m.inserted_id(e) is Some,
        m.insert(e, v).get(m.inserted_id(e).unwrap()) == Some(v),
        m.insert(e, v).links[e@ as int] == m.inserted_id(e),
{
    lemma_store_insert(m.store, Component::of(e, v));
    Component::<T, E>::lemma_of(e, v);
}

/// Last recycled, first reused: after an insert for `e0`, a remove of that
/// component and an insert for `e1`, the second insert returns the id of
/// the first, and a lookup of that id finds the second payload.
pub proof fn lemma_slot_reuse<T, E>(
    m: EcsModel<T, E>,
    e0: EntityId<E>,
    v1: T,
    e1: EntityId<E>,
    v2: T,
)
    requires
        m.store.wf(),
        e0@ < m.links.len(),
        e1@ < m.links.len(),
    ensures
        m.insert(e0, v1).remove_result(e0) is Ok,
        m.insert(e0, v1).remove(e0).get(m.inserted_id(e0).unwrap()) is None,
        m.insert(e0, v1).remove(e0).inserted_id(e1) == m.inserted_id(e0),
        m.insert(e0, v1).remove(e0).insert(e1, v2).get(m.inserted_id(e0).unwrap()) == Some(v2),
{
    let id = m.store.next_index();
    let m1 = m.insert(e0, v1);
    lemma_store_insert(m.store, Component::of(e0, v1));
    let m2 = m1.remove(e0);
    lemma_store_remove(m1.store, id);
    assert(m2.store.recycled.last() == id);
    let m3 = m2.insert(e1, v2);
    lemma_store_insert(m2.store, Component::of(e1, v2));
    Component::<T, E>::lemma_of(e1, v2);
}

/// Removing twice: where an entity links an existing slot, the first
/// remove succeeds and the second fails because the link is gone, changing
/// nothing. The recycled indices gain the slot once if it was live, and
/// nothing if it was waiting for reuse already: never two entries.
pub proof fn lemma_double_remove<T, E>(m: EcsModel<T, E>, e: EntityId<E>)
    requires
        e@ < m.links.len(),
        m.links[e@ as int] is Some,
        m.links[e@ as int].unwrap() < m.store.slots.len(),
    ensures
        m.remove_result(e) is Ok,
        m.remove(e).remove_result(e) == Err::<(), EcsErr>(EcsErr::EntityMissingComponent(e.id)),
        m.remove(e).remove(e) == m.remove(e),
        m.store.live(m.links[e@ as int].unwrap()) ==> m.remove(e).remove(e).store.recycled
            == m.store.recycled.push(m.links[e@ as int].unwrap()),
        !m.store.live(m.links[e@ as int].unwrap()) ==> m.remove(e).remove(e).store.recycled
            == m.store.recycled,
{
}

/// In a consistent container no entity links the slot that the next
/// insert writes to.
pub proof fn lemma_next_index_unlinked<T, E>(m: EcsModel<T, E>)
    requires
        m.consistent(),
    ensures
        forall|j: int| 0 <= j < m.links.len() ==> m.links[j] != Some(m.store.next_index()),
{
    assert forall|j: int| 0 <= j < m.links.len() implies m.links[j] != Some(
        m.store.next_index(),
    ) by {
        if m.links[j] is Some {
            assert(m.store.live(m.links[j].unwrap()));
            if m.store.reuses() {
                assert(m.store.recycled[m.store.recycled.len() - 1] == m.store.next_index());
            }
        }
    }
}

/// Overwriting leaks: after two inserts for the same entity with no remove
/// between them, the entity links the second slot; the first slot is
/// another one, still live and holding the first payload, so that a
/// traversal of the store still meets it. No entity links the first slot,
/// unless one did before the first insert.
pub proof fn lemma_overwrite_leak<T, E>(m: EcsModel<T, E>, e: EntityId<E>, v1: T, v2: T)
    requires
        m.store.wf(),
        e@ < m.links.len(),
    ensures
        ({
            let first = m.inserted_id(e).unwrap();
            let second = m.insert(e, v1).inserted_id(e).unwrap();
            let after = m.insert(e, v1).insert(e, v2);
            &&& second != first
            &&& after.links[e@ as int] == Some(second)
            &&& after.get(second) == Some(v2)
            &&& after.get(first) == Some(v1)
            &&& first < after.store.values().len()
            &&& after.store.values()[first as int] == v1
            &&& (forall|j: int| 0 <= j < m.links.len() ==> m.links[j] != Some(first)) ==> (forall|j: int|
                0 <= j < after.links.len() ==> after.links[j] != Some(first))
        }),
{
    let first = m.store.next_index();
    let m1 = m.insert(e, v1);
    let second = m1.store.next_index();
    let after = m1.insert(e, v2);
    lemma_store_insert(m.store, Component::of(e, v1));
    lemma_store_insert(m1.store, Component::of(e, v2));
    Component::<T, E>::lemma_of(e, v1);
    Component::<T, E>::lemma_of(e, v2);
    assert(m1.store.live(first));
    assert(after.store.get(first) == m1.store.get(first));
    if forall|j: int| 0 <= j < m.links.len() ==> m.links[j] != Some(first) {
        assert forall|j: int| 0 <= j < after.links.len() implies after.links[j] != Some(first) by {
            if j != e@ {
                assert(after.links[j] == m.links[j]);
            }
        }
    }
}

} // verus!
