use min_ecs::{
    CompId, CompVecFn, ComponentStore, Ecs, EcsCompFn, EcsErr, EcsFn, EcsMain, EntityFn, EntityId,
    SoloEntity,
};

type Rec = SoloEntity<u64>;
type Store = ComponentStore<u64, Rec>;
type World = Ecs<Store, Rec>;

fn payloads(ecs: &World) -> Vec<u64> {
    let mut out = Vec::new();
    let mut it = ecs.iter::<u64>();
    while let Some(v) = it.next() {
        out.push(*v);
    }
    out
}

fn link(ecs: &World, e: EntityId<Rec>) -> Option<CompId<u64, Rec>> {
    EntityFn::<u64>::get(ecs.borrow_entity(e).unwrap())
}

#[test]
fn entities_are_numbered_in_creation_order() {
    let mut ecs = World::new();
    assert_eq!(ecs.new_entity(), EntityId::new(0));
    assert_eq!(ecs.new_entity(), EntityId::new(1));
    assert_eq!(ecs.new_entity(), EntityId::new(2));
    assert!(ecs.borrow_entity(EntityId::new(2)).is_some());
    assert!(ecs.borrow_entity(EntityId::new(3)).is_none());
    assert!(ecs.borrow_mut_entity(EntityId::new(3)).is_none());
}

#[test]
fn a_new_entity_has_no_component() {
    let mut ecs = World::new();
    let e = ecs.new_entity();
    assert_eq!(link(&ecs, e), None);
    assert!(!ecs.has_component::<u64>(CompId::new(0)));
    assert_eq!(ecs.borrow_entity(e), Some(&Rec::default()));
}

#[test]
fn insert_then_get_returns_the_value() {
    let mut ecs = World::new();
    let e = ecs.new_entity();
    let id = ecs.insert(e, 422).unwrap();
    assert_eq!(ecs.get(id), Some(&422));
    assert_eq!(link(&ecs, e), Some(id));
    assert!(ecs.has_component::<u64>(CompId::new(0)));
}

#[test]
fn insert_for_a_missing_entity_stores_nothing() {
    let mut ecs = World::new();
    ecs.new_entity();
    assert_eq!(ecs.insert(EntityId::new(1), 5), None);
    assert_eq!(ecs.insert(EntityId::new(usize::MAX), 5), None);
    assert_eq!(payloads(&ecs), Vec::<u64>::new());
}

#[test]
fn remove_then_insert_reuses_the_slot() {
    let mut ecs = World::new();
    let e0 = ecs.new_entity();
    let e1 = ecs.new_entity();
    let id1 = ecs.insert(e0, 1).unwrap();
    assert_eq!(ecs.remove::<u64>(e0), Ok(()));
    let id2 = ecs.insert(e1, 2).unwrap();
    assert_eq!(id1, id2);
    assert_eq!(ecs.get(id1), Some(&2));
    assert_eq!(link(&ecs, e0), None);
    assert_eq!(link(&ecs, e1), Some(id2));
}

#[test]
fn remove_without_a_component_names_the_entity() {
    let mut ecs = World::new();
    ecs.new_entity();
    let e1 = ecs.new_entity();
    assert_eq!(ecs.remove::<u64>(e1), Err(EcsErr::EntityMissingComponent(1)));
}

#[test]
fn remove_for_a_missing_entity_names_the_index() {
    let mut ecs = World::new();
    ecs.new_entity();
    assert_eq!(ecs.remove::<u64>(EntityId::new(1)), Err(EcsErr::NoSuchEntityId(1)));
    assert_eq!(ecs.remove::<u64>(EntityId::new(44)), Err(EcsErr::NoSuchEntityId(44)));
}

#[test]
fn the_second_remove_fails_and_queues_nothing() {
    let mut ecs = World::new();
    let e0 = ecs.new_entity();
    let e1 = ecs.new_entity();
    let id = ecs.insert(e0, 1).unwrap();
    assert_eq!(ecs.remove::<u64>(e0), Ok(()));
    assert_eq!(ecs.remove::<u64>(e0), Err(EcsErr::EntityMissingComponent(0)));
    assert_eq!(ecs.insert(e1, 2), Some(id));
    assert_eq!(ecs.insert(e0, 3), Some(CompId::new(1)));
    assert_eq!(payloads(&ecs), vec![2, 3]);
}

#[test]
fn overwriting_leaves_the_old_slot_behind() {
    let mut ecs = World::new();
    let e = ecs.new_entity();
    let first = ecs.insert(e, 1).unwrap();
    let second = ecs.insert(e, 2).unwrap();
    assert_ne!(first, second);
    assert_eq!(link(&ecs, e), Some(second));
    assert_eq!(ecs.get(second), Some(&2));
    assert_eq!(ecs.get(first), Some(&1));
    assert_eq!(payloads(&ecs), vec![1, 2]);
}

#[test]
fn a_dangling_link_fails_with_the_component_index() {
    let mut ecs = World::new();
    let e = ecs.new_entity();
    let _ = EntityFn::<u64>::set(ecs.borrow_mut_entity(e).unwrap(), CompId::new(9));
    assert_eq!(ecs.remove::<u64>(e), Err(EcsErr::NoSuchCompId(9)));
    assert_eq!(link(&ecs, e), Some(CompId::new(9)));
}

#[test]
fn run_system_visits_entities_in_creation_order() {
    let mut ecs = World::new();
    let e0 = ecs.new_entity();
    let _e1 = ecs.new_entity();
    let e2 = ecs.new_entity();
    ecs.insert(e0, 100);
    ecs.insert(e2, 300);
    let mut log: Vec<usize> = Vec::new();
    let mut calls = 0;
    ecs.run_system(|stores: &mut Store, record: &Rec| {
        let index = match EntityFn::<u64>::get(record) {
            Some(id) => usize::from(stores.get(id).unwrap().id()),
            None => calls,
        };
        log.push(index);
        calls += 1;
    });
    assert_eq!(log, vec![0, 1, 2]);
    assert_eq!(calls, 3);
}

#[test]
fn run_system_hands_each_call_the_stores_of_the_call_before() {
    let mut ecs = World::new();
    let e0 = ecs.new_entity();
    let e1 = ecs.new_entity();
    let a = ecs.insert(e0, 1).unwrap();
    let b = ecs.insert(e1, 10).unwrap();
    let mut sum = 0;
    ecs.run_system(|stores: &mut Store, record: &Rec| {
        if let Some(id) = EntityFn::<u64>::get(record) {
            let slot = stores.get_mut(id).unwrap().borrow_mut();
            *slot += sum;
            sum = *slot;
        }
    });
    assert_eq!(ecs.get(a), Some(&1));
    assert_eq!(ecs.get(b), Some(&11));
}

#[test]
fn run_system_on_no_entities_calls_nothing() {
    let mut ecs = World::new();
    let mut calls = 0;
    ecs.run_system(|_stores: &mut Store, _record: &Rec| calls += 1);
    assert_eq!(calls, 0);
}

#[test]
fn a_recycled_slot_is_absent_though_in_range() {
    let mut ecs = World::new();
    let e0 = ecs.new_entity();
    let e1 = ecs.new_entity();
    let a = ecs.insert(e0, 1).unwrap();
    let b = ecs.insert(e1, 2).unwrap();
    assert_eq!(ecs.remove::<u64>(e0), Ok(()));
    assert_eq!(ecs.get(a), None);
    assert_eq!(ecs.get(b), Some(&2));
    assert_eq!(payloads(&ecs), vec![1, 2]);
    assert_eq!(ecs.get(CompId::new(2)), None);
}

#[test]
fn get_mut_does_not_check_for_recycling() {
    let mut ecs = World::new();
    let e0 = ecs.new_entity();
    let a = ecs.insert(e0, 1).unwrap();
    assert_eq!(ecs.remove::<u64>(e0), Ok(()));
    assert_eq!(ecs.get(a), None);
    *ecs.get_mut(a).unwrap() = 5;
    assert_eq!(payloads(&ecs), vec![5]);
    assert!(ecs.get_mut(CompId::new(1)).is_none());
}

#[test]
fn call_applies_the_function_to_a_live_payload() {
    let mut ecs = World::new();
    let e0 = ecs.new_entity();
    let a = ecs.insert(e0, 21).unwrap();
    assert_eq!(ecs.call(a, |v: &u64| *v * 2), Some(42));
    assert_eq!(ecs.remove::<u64>(e0), Ok(()));
    assert_eq!(ecs.call(a, |v: &u64| *v * 2), None);
    assert_eq!(ecs.call(CompId::new(3), |v: &u64| *v * 2), None);
}

#[test]
fn call_mut_changes_the_payload_in_place() {
    let mut ecs = World::new();
    let e0 = ecs.new_entity();
    let a = ecs.insert(e0, 21).unwrap();
    let seen = ecs.call_mut(a, |v: &mut u64| {
        *v += 1;
        *v
    });
    assert_eq!(seen, Some(22));
    assert_eq!(ecs.get(a), Some(&22));
    assert_eq!(ecs.call_mut(CompId::new(3), |v: &mut u64| *v), None);
    assert_eq!(ecs.remove::<u64>(e0), Ok(()));
    assert_eq!(ecs.call_mut(a, |v: &mut u64| *v), Some(22));
}

#[test]
fn iter_mut_changes_every_payload() {
    let mut ecs = World::new();
    let e0 = ecs.new_entity();
    let e1 = ecs.new_entity();
    ecs.insert(e0, 422);
    ecs.insert(e1, 2);
    {
        let mut it = ecs.iter_mut::<u64>();
        while let Some(v) = it.next() {
            *v += 10;
        }
    }
    assert_eq!(payloads(&ecs), vec![432, 12]);
}

#[test]
fn shrink_changes_nothing_that_can_be_seen() {
    let mut ecs = World::new();
    let e0 = ecs.new_entity();
    let e1 = ecs.new_entity();
    let a = ecs.insert(e0, 1).unwrap();
    ecs.insert(e1, 2);
    assert_eq!(ecs.remove::<u64>(e0), Ok(()));
    let before = ecs.clone();
    ecs.shrink();
    assert_eq!(ecs, before);
    assert_eq!(ecs.insert(e0, 3), Some(a));
}

#[test]
fn entity_links_can_be_set_by_hand() {
    let mut rec = Rec::default();
    assert_eq!(EntityFn::<u64>::set(&mut rec, CompId::new(1)), None);
    assert_eq!(EntityFn::<u64>::set(&mut rec, CompId::new(2)), Some(CompId::new(1)));
    assert_eq!(EntityFn::<u64>::try_set(&mut rec, None), None);
    assert_eq!(EntityFn::<u64>::get(&rec), Some(CompId::new(2)));
    assert_eq!(EntityFn::<u64>::try_set(&mut rec, Some(CompId::new(3))), Some(CompId::new(2)));
    assert_eq!(EntityFn::<u64>::remove(&mut rec), Some(CompId::new(3)));
    assert_eq!(EntityFn::<u64>::remove(&mut rec), None);
    assert_eq!(EntityFn::<u64>::get(&rec), None);
}
