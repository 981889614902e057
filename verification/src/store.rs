//! The store of one component type: a dense array of slots and the list of
//! slots that wait for reuse.

use crate::component::Component;
use crate::error::EcsErr;
use crate::ids::CompId;
use crate::iter::{CompIter, CompIterMut};
use crate::model::StoreModel;
use crate::traits::{CompVec, CompVecFn};
use core::marker::PhantomData;
use vstd::prelude::*;

verus! {

/// Releases the capacity that `v` holds beyond its length: `Vec::shrink_to_fit`.
/// The elements and their order stay as they are.
#[verifier::external_body]
fn shrink_vec<X>(v: &mut Vec<X>)
    ensures
        final(v)@ == old(v)@,
{
    v.shrink_to_fit();
}

/// The indices held in `v`, as natural numbers.
pub open spec fn indices(v: Seq<usize>) -> Seq<nat> {
    v.map_values(|i: usize| i as nat)
}

/// Whether `idx` occurs in `list`.
fn holds(list: &Vec<usize>, idx: usize) -> (r: bool)
    ensures
        r == indices(list@).contains(idx as nat),
{
    let mut k: usize = 0;
    while k < list.len()
        invariant
            k <= list.len(),
            forall|j: int| 0 <= j < k ==> list@[j] != idx,
        decreases list.len() - k,
    {
        if list[k] == idx {
            assert(indices(list@)[k as int] == idx as nat);
            return true;
        }
        k += 1;
    }
    proof {
        if indices(list@).contains(idx as nat) {
            let j = choose|j: int|
                0 <= j < indices(list@).len() && indices(list@)[j] == idx as nat;
            assert(list@[j] == idx);
        }
    }
    false
}

/// A dense array of components of type `T` with a last-in-first-out list of
/// the slots that were removed and wait for reuse.
#[derive(Debug, Clone, PartialEq)]
pub struct ComponentStore<T, E> {
    data: Vec<Component<T, E>>,
    recycle: Vec<usize>,
}

impl<T, E> View for ComponentStore<T, E> {
    type V = StoreModel<T, E>;

    closed spec fn view(&self) -> StoreModel<T, E> {
        StoreModel { slots: self.data@, recycled: indices(self.recycle@) }
    }
}

impl<T, E> ComponentStore<T, E> {
    /// The store that holds `slots` and has the indices of `recycled`
    /// waiting for reuse, the last of them first in line. Nothing is
    /// checked: an index that names no slot is passed over by inserts.
    pub fn from_parts(slots: Vec<Component<T, E>>, recycled: Vec<usize>) -> (r: Self)
        ensures
            r@ == (StoreModel { slots: slots@, recycled: indices(recycled@) }),
    {
        ComponentStore { data: slots, recycle: recycled }
    }

    /// The slots in index order, and the indices waiting for reuse, the
    /// most recently recycled last. Together they are all that the store
    /// holds.
    pub fn as_parts(&self) -> (r: (&[Component<T, E>], &[usize]))
        ensures
            r.0@ == self@.slots,
            indices(r.1@) == self@.recycled,
    {
        (self.data.as_slice(), self.recycle.as_slice())
    }
}

impl<T, E> CompVec for ComponentStore<T, E> {
    open spec fn is_empty(&self) -> bool {
        self@ == StoreModel::<T, E>::empty()
    }

    open spec fn same_contents(&self, other: &Self) -> bool {
        self@ == other@
    }

    fn new() -> (r: Self) {
        let r = ComponentStore { data: Vec::new(), recycle: Vec::new() };
        assert(r@.recycled =~= Seq::<nat>::empty());
        r
    }

    fn shrink(&mut self) {
        shrink_vec(&mut self.data);
        shrink_vec(&mut self.recycle);
    }
}

impl<T, E> Default for ComponentStore<T, E> {
    fn default() -> (r: Self)
        ensures
            r@ == StoreModel::<T, E>::empty(),
    {
        <Self as CompVec>::new()
    }
}

impl<T, E> CompVecFn<T, E> for ComponentStore<T, E> {
    open spec fn store(&self) -> StoreModel<T, E> {
        self@
    }

    open spec fn same_elsewhere(&self, other: &Self) -> bool {
        true
    }

    proof fn lemma_empty_store(&self) {
    }

    proof fn lemma_same_contents_store(&self, other: &Self) {
    }

    fn insert(&mut self, item: Component<T, E>) -> (id: CompId<T, E>) {
        let n = self.recycle.len();
        if n > 0 {
            let idx = self.recycle[n - 1];
            assert(indices(self.recycle@).last() == idx as nat);
            if idx < self.data.len() {
                self.recycle.pop();
                self.data[idx].overwrite(item);
                assert(indices(self.recycle@) =~= indices(old(self).recycle@).drop_last());
                return CompId::new(idx);
            }
        }
        let idx = self.data.len();
        self.data.push(item);
        CompId::new(idx)
    }

    fn remove(&mut self, id: CompId<T, E>) -> (r: Result<(), EcsErr>) {
        let idx = id.id;
        if idx >= self.data.len() {
            return Err(EcsErr::NoSuchCompId(idx));
        }
        if !holds(&self.recycle, idx) {
            self.recycle.push(idx);
            assert(indices(self.recycle@) =~= indices(old(self).recycle@).push(idx as nat));
        }
        Ok(())
    }

    fn get(&self, id: CompId<T, E>) -> (r: Option<&Component<T, E>>) {
        let idx = id.id;
        if holds(&self.recycle, idx) {
            None
        } else if idx < self.data.len() {
            Some(&self.data[idx])
        } else {
            None
        }
    }

    fn get_mut(&mut self, id: CompId<T, E>) -> (r: Option<&mut Component<T, E>>) {
        let idx = id.id;
        if idx < self.data.len() {
            Some(&mut self.data[idx])
        } else {
            None
        }
    }

    fn len(&self, _marker: PhantomData<T>) -> (n: usize) {
        self.data.len()
    }

    fn iter(&self) -> (it: CompIter<'_, T, E>) {
        CompIter::new(self.data.as_slice())
    }

    fn iter_mut(&mut self) -> (it: CompIterMut<'_, T, E>) {
        CompIterMut::new(self.data.as_mut_slice())
    }
}

} // verus!
