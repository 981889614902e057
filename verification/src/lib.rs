//! Storage and linkage runtime of an entity-component system.
//!
//! An entity is an index into a table of records. A record links, for each
//! component type of its schema, at most one component: the index of a slot
//! in the store of that type. A store is a dense array of slots with a
//! last-in-first-out list of the slots that were removed and wait for
//! reuse. Entities are never deleted, and a removed slot keeps its payload
//! until an insert overwrites it.
//!
//! [`Ecs`] is the container, generic in the record type and in the stores
//! of a schema, which reach it through the traits of [`traits`].
//! [`ComponentStore`] is the store of one type and [`SoloEntity`] the record
//! of a schema with a single type. The contracts speak of the models in
//! [`model`]; [`laws`] holds what follows from them for every container.
//!
//! The traits declare specification items beside the executable ones. An
//! implementation that is compiled without the verifier has to define them
//! too; they are never called.

pub mod component;
pub mod ecs;
pub mod entity;
pub mod error;
pub mod ids;
pub mod iter;
pub mod laws;
pub mod model;
pub mod store;
pub mod traits;

pub use component::Component;
pub use ecs::Ecs;
pub use entity::SoloEntity;
pub use error::EcsErr;
pub use ids::{CompId, EntityId};
pub use iter::{CompIter, CompIterMut};
pub use model::{EcsModel, StoreModel};
pub use store::ComponentStore;
pub use traits::{CompVec, CompVecFn, EcsCompFn, EcsFn, EcsMain, Entity, EntityFn};
