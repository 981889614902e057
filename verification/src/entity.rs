//! The entity record of a schema with a single component type.

use crate::ids::CompId;
use crate::traits::{Entity, EntityFn};
use vstd::prelude::*;

verus! {

/// The record of an entity in a schema whose only component type is `T`:
/// the id of the entity's component, if it has one.
#[derive(Debug, PartialEq)]
pub struct SoloEntity<T> {
    slot: Option<CompId<T, SoloEntity<T>>>,
}

impl<T> Clone for SoloEntity<T> {
    fn clone(&self) -> (r: Self)
        ensures
            r == *self,
    {
        SoloEntity { slot: self.slot }
    }
}

impl<T> Entity for SoloEntity<T> {
    closed spec fn is_blank(&self) -> bool {
        self.slot is None
    }

    fn new() -> (r: Self) {
        SoloEntity { slot: None }
    }
}

impl<T> Default for SoloEntity<T> {
    fn default() -> (r: Self)
        ensures
            r.is_blank(),
    {
        <Self as Entity>::new()
    }
}

impl<T> EntityFn<T> for SoloEntity<T> {
    closed spec fn link(&self) -> Option<CompId<T, Self>> {
        self.slot
    }

    closed spec fn relinked(self, link: Option<CompId<T, Self>>) -> Self {
        SoloEntity { slot: link }
    }

    proof fn lemma_blank_link(&self) {
    }

    proof fn lemma_relinked_link(self, link: Option<CompId<T, Self>>) {
    }

    fn set(&mut self, id: CompId<T, Self>) -> (prev: Option<CompId<T, Self>>) {
        let prev = self.slot;
        self.slot = Some(id);
        prev
    }

    fn try_set(&mut self, id: Option<CompId<T, Self>>) -> (prev: Option<CompId<T, Self>>) {
        match id {
            Some(inner) => {
                let prev = self.slot;
                self.slot = Some(inner);
                prev
            },
            None => None,
        }
    }

    fn get(&self) -> (r: Option<CompId<T, Self>>) {
        self.slot
    }

    fn remove(&mut self) -> (prev: Option<CompId<T, Self>>) {
        let prev = self.slot;
        self.slot = None;
        prev
    }
}

impl<T> SoloEntity<T> {
    /// A record is its link, nothing more.
    pub proof fn lemma_same_link(a: Self, b: Self)
        requires
            a.link() == b.link(),
        ensures
            a == b,
    {
    }
}

} // verus!
