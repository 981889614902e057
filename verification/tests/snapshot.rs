use min_ecs::{
    CompId, CompVecFn, Component, ComponentStore, Ecs, EcsCompFn, EcsFn, EcsMain, EntityId,
    SoloEntity,
};

type Rec = SoloEntity<u64>;
type Store = ComponentStore<u64, Rec>;
type World = Ecs<Store, Rec>;

fn comp(owner: usize, value: u64) -> Component<u64, Rec> {
    Component::new(EntityId::new(owner), value)
}

#[test]
fn a_store_is_its_slots_and_its_recycled_indices() {
    let mut store = Store::default();
    let a = store.insert(comp(0, 10));
    store.insert(comp(1, 11));
    let c = store.insert(comp(2, 12));
    assert_eq!(store.remove(a), Ok(()));
    assert_eq!(store.remove(c), Ok(()));
    let (slots, recycled) = store.as_parts();
    assert_eq!(slots, &[comp(0, 10), comp(1, 11), comp(2, 12)][..]);
    assert_eq!(recycled, &[0usize, 2][..]);
}

#[test]
fn a_restored_store_keeps_what_is_live() {
    let mut store = Store::default();
    let a = store.insert(comp(0, 10));
    let b = store.insert(comp(1, 11));
    assert_eq!(store.remove(a), Ok(()));
    let (slots, recycled) = store.as_parts();
    let mut copy = Store::from_parts(slots.to_vec(), recycled.to_vec());
    assert_eq!(copy, store);
    assert_eq!(copy.get(a), None);
    assert_eq!(copy.get(b), Some(&comp(1, 11)));
    assert_eq!(copy.insert(comp(2, 12)), a);
}

#[test]
fn a_store_restored_without_its_recycled_indices_forgets_removals() {
    let mut store = Store::default();
    let a = store.insert(comp(0, 10));
    assert_eq!(store.remove(a), Ok(()));
    let (slots, _) = store.as_parts();
    let mut copy = Store::from_parts(slots.to_vec(), Vec::new());
    assert_eq!(copy.get(a), Some(&comp(0, 10)));
    assert_eq!(copy.insert(comp(1, 11)), CompId::new(1));
}

#[test]
fn an_insert_passes_over_a_recycled_index_without_a_slot() {
    let mut store = Store::from_parts(vec![comp(0, 10)], vec![5]);
    assert_eq!(store.insert(comp(1, 11)), CompId::new(1));
    assert_eq!(store.get(CompId::new(1)), Some(&comp(1, 11)));
    let (slots, recycled) = store.as_parts();
    assert_eq!(slots.len(), 2);
    assert_eq!(recycled, &[5usize][..]);
}

#[test]
fn a_container_is_its_records_and_its_stores() {
    let mut ecs = World::new();
    let e0 = ecs.new_entity();
    let e1 = ecs.new_entity();
    let a = ecs.insert(e0, 1).unwrap();
    let b = ecs.insert(e1, 2).unwrap();
    assert_eq!(ecs.remove::<u64>(e0), Ok(()));
    let (records, stores) = ecs.as_parts();
    assert_eq!(records.len(), 2);
    let mut copy = World::from_parts(records.to_vec(), stores.clone());
    assert_eq!(copy, ecs);
    assert_eq!(copy.get(a), None);
    assert_eq!(copy.get(b), Some(&2));
    assert_eq!(copy.insert(e0, 3), Some(a));
    assert_eq!(copy.new_entity(), EntityId::new(2));
}
