//! Entity world boundary and stable entity identity.

use shipyard::World;
use vstd::prelude::*;
use vstd::string::StringExecFns;

use crate::identifiers::{is_random_uuid, new_random_uuid_value};

verus! {

#[verifier::external_type_specification]
#[verifier::external_body]
pub struct ExWorld(World);

/// The ids (`EntityId::inner`) of the entities alive in a shipyard world.
pub uninterp spec fn world_entities(world: World) -> Set<u64>;

/// Creates a world with `shipyard::World::new`, which the crate documents as
/// empty: it holds no entity. Its storages and scheduler are not modelled.
#[verifier::external_body]
fn new_world() -> (world: World)
    ensures
        world_entities(world) == Set::<u64>::empty(),
{
    World::new()
}

/// The entity-component world that systems run on.
#[derive(Debug)]
pub struct EcsWorld {
    world: World,
}

impl EcsWorld {
    /// The world this wrapper holds.
    pub closed spec fn spec_world(&self) -> World {
        self.world
    }

    /// An empty world: no entity is alive in it.
    pub fn new() -> (w: Self)
        ensures
            world_entities(w.spec_world()) == Set::<u64>::empty(),
    {
        EcsWorld { world: new_world() }
    }

    pub fn raw(&self) -> (world: &World)
        ensures
            *world == self.spec_world(),
    {
        &self.world
    }

    pub fn raw_mut(&mut self) -> (world: &mut World)
        ensures
            *world == old(self).spec_world(),
            final(self).spec_world() == *final(world),
    {
        &mut self.world
    }
}

impl Default for EcsWorld {
    /// An empty world, as `EcsWorld::new` makes it.
    fn default() -> (w: Self)
        ensures
            world_entities(w.spec_world()) == Set::<u64>::empty(),
    {
        EcsWorld::new()
    }
}

/// An entity identity that stays the same across saves and reloads: the
/// 128-bit value of a UUID.
#[derive(Debug, Clone, Copy, PartialEq, Eq, Hash, Structural)]
pub struct StableEntityId(u128);

impl StableEntityId {
    /// The UUID value of the identity.
    pub closed spec fn value(self) -> u128 {
        self.0
    }

    /// A fresh random identity: a version 4 UUID.
    pub fn new() -> (id: Self)
        ensures
            is_random_uuid(id.value()),
    {
        StableEntityId(new_random_uuid_value())
    }

    /// The identity with the given UUID value.
    pub fn from_uuid(uuid: u128) -> (id: Self)
        ensures
            id.value() == uuid,
    {
        StableEntityId(uuid)
    }

    /// The UUID value of the identity.
    pub fn as_uuid(self) -> (uuid: u128)
        ensures
            uuid == self.value(),
    {
        self.0
    }
}

impl Default for StableEntityId {
    /// A fresh random identity, as `StableEntityId::new` draws it.
    fn default() -> (id: Self)
        ensures
            is_random_uuid(id.value()),
    {
        StableEntityId::new()
    }
}

/// The display name of an entity.
#[derive(Debug, Clone)]
pub struct EntityName {
    pub value: String,
}

impl EntityName {
    pub fn new(value: &str) -> (name: Self)
        ensures
            name.value@ == value@,
    {
        EntityName { value: String::from_str(value) }
    }
}

} // verus!
