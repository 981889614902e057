use core::marker::PhantomData;
use min_ecs::{
    CompId, CompIter, CompIterMut, CompVec, CompVecFn, Component, ComponentStore, Ecs, EcsCompFn,
    EcsErr, EcsFn, EcsMain, Entity, EntityFn, StoreModel,
};

// The schema below is written by hand, as a generator would emit it. The
// traits' specification items are never run; here they only have to exist.

#[derive(Debug, Clone, PartialEq)]
struct Record {
    number: Option<CompId<u64, Record>>,
    flag: Option<CompId<bool, Record>>,
}

impl Entity for Record {
    fn is_blank(&self) -> bool {
        unreachable!()
    }

    fn new() -> Self {
        Record { number: None, flag: None }
    }
}

impl EntityFn<u64> for Record {
    fn link(&self) -> Option<CompId<u64, Self>> {
        unreachable!()
    }

    fn relinked(self, _link: Option<CompId<u64, Self>>) -> Self {
        unreachable!()
    }

    fn lemma_blank_link(&self) {
        unreachable!()
    }

    fn lemma_relinked_link(self, _link: Option<CompId<u64, Self>>) {
        unreachable!()
    }

    fn set(&mut self, id: CompId<u64, Self>) -> Option<CompId<u64, Self>> {
        self.number.replace(id)
    }

    fn try_set(&mut self, id: Option<CompId<u64, Self>>) -> Option<CompId<u64, Self>> {
        match id {
            Some(inner) => self.number.replace(inner),
            None => None,
        }
    }

    fn get(&self) -> Option<CompId<u64, Self>> {
        self.number
    }

    fn remove(&mut self) -> Option<CompId<u64, Self>> {
        self.number.take()
    }
}

impl EntityFn<bool> for Record {
    fn link(&self) -> Option<CompId<bool, Self>> {
        unreachable!()
    }

    fn relinked(self, _link: Option<CompId<bool, Self>>) -> Self {
        unreachable!()
    }

    fn lemma_blank_link(&self) {
        unreachable!()
    }

    fn lemma_relinked_link(self, _link: Option<CompId<bool, Self>>) {
        unreachable!()
    }

    fn set(&mut self, id: CompId<bool, Self>) -> Option<CompId<bool, Self>> {
        self.flag.replace(id)
    }

    fn try_set(&mut self, id: Option<CompId<bool, Self>>) -> Option<CompId<bool, Self>> {
        match id {
            Some(inner) => self.flag.replace(inner),
            None => None,
        }
    }

    fn get(&self) -> Option<CompId<bool, Self>> {
        self.flag
    }

    fn remove(&mut self) -> Option<CompId<bool, Self>> {
        self.flag.take()
    }
}

struct Stores {
    numbers: ComponentStore<u64, Record>,
    flags: ComponentStore<bool, Record>,
}

impl CompVec for Stores {
    fn is_empty(&self) -> bool {
        unreachable!()
    }

    fn same_contents(&self, _other: &Self) -> bool {
        unreachable!()
    }

    fn new() -> Self {
        Stores { numbers: ComponentStore::new(), flags: ComponentStore::new() }
    }

    fn shrink(&mut self) {
        self.numbers.shrink();
        self.flags.shrink();
    }
}

impl CompVecFn<u64, Record> for Stores {
    fn store(&self) -> StoreModel<u64, Record> {
        unreachable!()
    }

    fn same_elsewhere(&self, _other: &Self) -> bool {
        unreachable!()
    }

    fn lemma_empty_store(&self) {
        unreachable!()
    }

    fn lemma_same_contents_store(&self, _other: &Self) {
        unreachable!()
    }

    fn insert(&mut self, item: Component<u64, Record>) -> CompId<u64, Record> {
        self.numbers.insert(item)
    }

    fn remove(&mut self, id: CompId<u64, Record>) -> Result<(), EcsErr> {
        self.numbers.remove(id)
    }

    fn get(&self, id: CompId<u64, Record>) -> Option<&Component<u64, Record>> {
        self.numbers.get(id)
    }

    fn get_mut(&mut self, id: CompId<u64, Record>) -> Option<&mut Component<u64, Record>> {
        self.numbers.get_mut(id)
    }

    fn len(&self, marker: PhantomData<u64>) -> usize {
        self.numbers.len(marker)
    }

    fn iter(&self) -> CompIter<'_, u64, Record> {
        self.numbers.iter()
    }

    fn iter_mut(&mut self) -> CompIterMut<'_, u64, Record> {
        self.numbers.iter_mut()
    }
}

impl CompVecFn<bool, Record> for Stores {
    fn store(&self) -> StoreModel<bool, Record> {
        unreachable!()
    }

    fn same_elsewhere(&self, _other: &Self) -> bool {
        unreachable!()
    }

    fn lemma_empty_store(&self) {
        unreachable!()
    }

    fn lemma_same_contents_store(&self, _other: &Self) {
        unreachable!()
    }

    fn insert(&mut self, item: Component<bool, Record>) -> CompId<bool, Record> {
        self.flags.insert(item)
    }

    fn remove(&mut self, id: CompId<bool, Record>) -> Result<(), EcsErr> {
        self.flags.remove(id)
    }

    fn get(&self, id: CompId<bool, Record>) -> Option<&Component<bool, Record>> {
        self.flags.get(id)
    }

    fn get_mut(&mut self, id: CompId<bool, Record>) -> Option<&mut Component<bool, Record>> {
        self.flags.get_mut(id)
    }

    fn len(&self, marker: PhantomData<bool>) -> usize {
        self.flags.len(marker)
    }

    fn iter(&self) -> CompIter<'_, bool, Record> {
        self.flags.iter()
    }

    fn iter_mut(&mut self) -> CompIterMut<'_, bool, Record> {
        self.flags.iter_mut()
    }
}

#[test]
fn run_system_order_does_not_depend_on_membership() {
    let mut ecs: Ecs<Stores, Record> = Ecs::new();
    let e0 = ecs.new_entity();
    let _e1 = ecs.new_entity();
    let e2 = ecs.new_entity();
    ecs.insert(e0, 5u64);
    ecs.insert(e2, false);
    let mut log: Vec<usize> = Vec::new();
    let mut calls = 0;
    ecs.run_system(|stores: &mut Stores, record: &Record| {
        let by_number = EntityFn::<u64>::get(record)
            .map(|id| usize::from(CompVecFn::<u64, Record>::get(stores, id).unwrap().id()));
        let by_flag = EntityFn::<bool>::get(record)
            .map(|id| usize::from(CompVecFn::<bool, Record>::get(stores, id).unwrap().id()));
        log.push(by_number.or(by_flag).unwrap_or(calls));
        calls += 1;
    });
    assert_eq!(log, vec![0, 1, 2]);
}

#[test]
fn components_of_two_types_do_not_disturb_each_other() {
    let mut ecs: Ecs<Stores, Record> = Ecs::new();
    let e0 = ecs.new_entity();
    let e1 = ecs.new_entity();
    let n0 = ecs.insert(e0, 7u64).unwrap();
    let f0 = ecs.insert(e0, true).unwrap();
    let n1 = ecs.insert(e1, 9u64).unwrap();
    assert_eq!(ecs.get(n0), Some(&7u64));
    assert_eq!(ecs.get(f0), Some(&true));
    assert_eq!(ecs.get(n1), Some(&9u64));
    assert_eq!(ecs.remove::<u64>(e0), Ok(()));
    assert_eq!(ecs.get(n0), None);
    assert_eq!(ecs.get(f0), Some(&true));
    assert_eq!(ecs.remove::<bool>(e1), Err(EcsErr::EntityMissingComponent(1)));
}
