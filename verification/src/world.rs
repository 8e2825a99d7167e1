//! A store of entities in reusable, generation-counted slots.

use crate::component::Component;
use crate::entity::Entity;
use crate::name::Name;
use std::any::Any;
use vstd::prelude::*;

verus! {

/// How many components one entity can carry.
pub const COMPONENTS_PER_ENTITY: usize = 8;

/// The components of one entity, kept under their names in a
/// `micromap::Map` with room for `COMPONENTS_PER_ENTITY` pairs.
///
/// The map holds each component in a box that hides its type, which the
/// verifier cannot look into. So the whole map stays opaque to it, and the
/// contracts speak of `component_names` instead.
#[verifier::external_body]
pub struct Components {
    inner: micromap::Map<Name, Box<dyn Any>, 8>,
}

/// The names under which `components` holds a component.
pub uninterp spec fn component_names(components: Components) -> Set<Seq<char>>;

/// Calls `micromap::Map::new`, which makes a map without any pair.
#[verifier::external_body]
fn components_new() -> (components: Components)
    ensures
        component_names(components) == Set::<Seq<char>>::empty(),
{
    Components { inner: micromap::Map::new() }
}

/// Calls `micromap::Map::insert` with the component in a box.
///
/// The map compares keys with `==`. Where it already holds the name it
/// replaces the component kept under it; where it does not, it adds the
/// pair, for which it must hold fewer pairs than its capacity of 8.
#[verifier::external_body]
fn components_insert<C: 'static>(components: &mut Components, name: Name, component: C)
    requires
        component_names(*old(components)).contains(name@) || (component_names(
            *old(components),
        ).finite() && component_names(*old(components)).len() < COMPONENTS_PER_ENTITY),
    ensures
        component_names(*final(components)) == component_names(*old(components)).insert(name@),
{
    components.inner.insert(name, Box::new(component));
}

/// Calls `micromap::Map::contains_key`, which tells whether some key of the
/// map is `==` to the given one.
#[verifier::external_body]
fn components_contain(components: &Components, name: &Name) -> (found: bool)
    ensures
        found == component_names(*components).contains(name@),
{
    components.inner.contains_key(name)
}

/// One slot of a world as its contracts see it.
pub struct EntitySlot {
    /// How often the slot has been given out again.
    pub generation: u32,
    /// The names of the components attached to the entity in the slot.
    pub components: Set<Seq<char>>,
}

/// A world as its contracts see it.
pub struct WorldView {
    /// The slots in index order.
    pub slots: Seq<EntitySlot>,
    /// The indices of the vacated slots; the last one is given out next.
    pub free: Seq<u32>,
}

impl WorldView {
    /// What holds of every world: its slots can be counted in 32 bits.
    pub open spec fn wf(self) -> bool {
        self.slots.len() <= u32::MAX
    }

    /// Whether every slot listed as vacated exists. This holds of a world
    /// in which only entities that it spawned were despawned.
    pub open spec fn vacated_slots_exist(self) -> bool {
        forall|k: int| 0 <= k < self.free.len() ==> (#[trigger] self.free[k]) < self.slots.len()
    }

    /// Whether the world can give out one more entity: the slot vacated
    /// last exists, or, where none is vacant, there is room for a new one.
    pub open spec fn can_spawn(self) -> bool {
        if self.free.len() > 0 {
            self.free.last() < self.slots.len()
        } else {
            self.slots.len() < u32::MAX
        }
    }

    /// The slot index of the entity that the next spawn gives out.
    pub open spec fn next_index(self) -> u32 {
        if self.free.len() > 0 {
            self.free.last()
        } else {
            self.slots.len() as u32
        }
    }

    /// The generation of the entity that the next spawn gives out: one more
    /// than that of the slot if the slot is reused, wrapping around, and 0
    /// for a new slot.
    pub open spec fn next_generation(self) -> u32 {
        if self.free.len() > 0 {
            if self.slots[self.free.last() as int].generation == u32::MAX {
                0
            } else {
                (self.slots[self.free.last() as int].generation + 1) as u32
            }
        } else {
            0
        }
    }

    /// The world after a spawn: the slot given out carries its new
    /// generation and no component.
    pub open spec fn spawned(self) -> WorldView {
        let slot = EntitySlot { generation: self.next_generation(), components: Set::empty() };
        if self.free.len() > 0 {
            WorldView {
                slots: self.slots.update(self.free.last() as int, slot),
                free: self.free.drop_last(),
            }
        } else {
            WorldView { slots: self.slots.push(slot), free: self.free }
        }
    }

    /// The world after a component with the name `name` was attached to the
    /// slot `index`. A world without such a slot stays as it is.
    pub open spec fn with_component(self, index: int, name: Seq<char>) -> WorldView {
        if 0 <= index < self.slots.len() {
            WorldView {
                slots: self.slots.update(
                    index,
                    EntitySlot {
                        generation: self.slots[index].generation,
                        components: self.slots[index].components.insert(name),
                    },
                ),
                free: self.free,
            }
        } else {
            self
        }
    }

    /// Whether the slot `index` exists and carries a component with the
    /// name `name`.
    pub open spec fn has_component(self, index: int, name: Seq<char>) -> bool {
        0 <= index < self.slots.len() && self.slots[index].components.contains(name)
    }

    /// Whether the slot `index` can take a component with the name `name`:
    /// it carries one of that name already, or fewer than its capacity.
    pub open spec fn has_room(self, index: int, name: Seq<char>) -> bool {
        0 <= index < self.slots.len() ==> self.slots[index].components.contains(name) || (
        self.slots[index].components.finite() && self.slots[index].components.len()
            < COMPONENTS_PER_ENTITY)
    }

    /// The world after the slot `index` was vacated.
    pub open spec fn despawned(self, index: u32) -> WorldView {
        WorldView { slots: self.slots, free: self.free.push(index) }
    }
}

/// A slot that is vacated and given out again comes back under another
/// generation and without components: the entity spawned after a despawn
/// has the index of the despawned one and not its generation.
pub proof fn lemma_reuse(world: WorldView, index: u32)
    requires
        world.wf(),
        index < world.slots.len(),
    ensures
        world.despawned(index).wf(),
        world.despawned(index).can_spawn(),
        world.despawned(index).next_index() == index,
        world.despawned(index).next_generation() != world.slots[index as int].generation,
        world.despawned(index).spawned().wf(),
        world.despawned(index).spawned().free == world.free,
        world.despawned(index).spawned().slots[index as int].components == Set::<
            Seq<char>,
        >::empty(),
{
    let vacated = world.despawned(index);
    assert(vacated.free.last() == index);
    assert(vacated.spawned().free =~= world.free);
}

/// In a world whose vacated slots all exist, a spawn is possible unless
/// the world is out of slots; and the world stays such through spawns,
/// through despawns of slots that exist, and through new components.
pub proof fn lemma_vacated_slots_exist(world: WorldView, index: u32, name: Seq<char>)
    requires
        world.wf(),
        world.vacated_slots_exist(),
    ensures
        world.free.len() > 0 || world.slots.len() < u32::MAX ==> world.can_spawn(),
        world.can_spawn() ==> world.spawned().wf() && world.spawned().vacated_slots_exist(),
        index < world.slots.len() ==> world.despawned(index).vacated_slots_exist(),
        world.with_component(index as int, name).vacated_slots_exist(),
{
    if world.free.len() > 0 {
        assert(world.free[world.free.len() - 1] < world.slots.len());
    }
    if world.can_spawn() {
        let after = world.spawned();
        assert forall|k: int| 0 <= k < after.free.len() implies (#[trigger] after.free[k])
            < after.slots.len() by {
            assert(after.free[k] == world.free[k]);
        }
    }
    if index < world.slots.len() {
        let after = world.despawned(index);
        assert forall|k: int| 0 <= k < after.free.len() implies (#[trigger] after.free[k])
            < after.slots.len() by {
            if k < world.free.len() {
                assert(after.free[k] == world.free[k]);
            }
        }
    }
}

/// The entities of a scene, each in a slot that is given out again, under a
/// new generation, once its entity is gone.
pub struct World {
    entity_list: Vec<(u32, Components)>,
    free_list: Vec<u32>,
}

impl View for World {
    type V = WorldView;

    closed spec fn view(&self) -> WorldView {
        WorldView {
            slots: Seq::new(
                self.entity_list@.len(),
                |i: int|
                    EntitySlot {
                        generation: self.entity_list@[i].0,
                        components: component_names(self.entity_list@[i].1),
                    },
            ),
            free: self.free_list@,
        }
    }
}

impl World {
    /// What holds of every world between calls.
    pub open spec fn wf(&self) -> bool {
        self@.wf()
    }

    /// A world without entities.
    pub fn new() -> (world: World)
        ensures
            world.wf(),
            world@.slots.len() == 0,
            world@.free.len() == 0,
            world@.vacated_slots_exist(),
    {
        World { entity_list: Vec::new(), free_list: Vec::new() }
    }

    /// Gives out an entity: in the slot vacated last, under the next
    /// generation of that slot, or in a new slot under generation 0 if none
    /// is vacant. The entity starts without components.
    ///
    /// A slot that was vacated though the world does not have it is a
    /// caller error, and shows here.
    pub fn spawn(&mut self) -> (entity: Entity)
        requires
            old(self).wf(),
            old(self)@.can_spawn(),
        ensures
            final(self).wf(),
            final(self)@ == old(self)@.spawned(),
            entity.spec_index() == old(self)@.next_index(),
            entity.spec_generation() == old(self)@.next_generation(),
    {
        match self.free_list.pop() {
            Some(vacant_idx) => {
                let generation = self.entity_list[vacant_idx as usize].0.wrapping_add(1);
                self.entity_list[vacant_idx as usize] = (generation, components_new());
                proof {
                    assert(self@.slots =~= old(self)@.spawned().slots);
                    assert(self@.free =~= old(self)@.spawned().free);
                }
                Entity::new(generation, vacant_idx)
            },
            None => {
                let last_idx = self.entity_list.len() as u32;
                self.entity_list.push((0, components_new()));
                proof {
                    assert(self@.slots =~= old(self)@.spawned().slots);
                }
                Entity::new(0, last_idx)
            },
        }
    }

    /// Attaches `component` to the entity in the slot of `to`, under the
    /// name that the component gives itself; a component already attached
    /// under that name is replaced. Without such a slot nothing happens.
    ///
    /// More components than a slot has room for are a caller error.
    pub fn add_component<C: Component + 'static>(&mut self, to: Entity, component: C)
        requires
            old(self).wf(),
            old(self)@.has_room(to.spec_index() as int, component.spec_name()),
        ensures
            final(self).wf(),
            final(self)@ == old(self)@.with_component(
                to.spec_index() as int,
                component.spec_name(),
            ),
    {
        let index = to.index() as usize;
        if index >= self.entity_list.len() {
            return ;
        }
        let name = component.name();
        components_insert(&mut self.entity_list[index].1, name, component);
        proof {
            assert(self@.slots =~= old(self)@.with_component(
                to.spec_index() as int,
                component.spec_name(),
            ).slots);
        }
    }

    /// Whether the slot of `entt` exists and carries a component named `name`.
    pub fn has_component(&self, entt: Entity, name: Name) -> (found: bool)
        ensures
            found == self@.has_component(entt.spec_index() as int, name@),
    {
        let index = entt.index() as usize;
        if index < self.entity_list.len() {
            components_contain(&self.entity_list[index].1, &name)
        } else {
            false
        }
    }

    /// Lists the slot of `entity` as vacated, so that a later spawn gives it
    /// out again. Nothing else changes: the slot keeps its generation and its
    /// components until then.
    pub fn despawn(&mut self, entity: Entity)
        requires
            old(self).wf(),
        ensures
            final(self).wf(),
            final(self)@ == old(self)@.despawned(entity.spec_index()),
    {
        self.free_list.push(entity.index());
        proof {
            assert(self@.slots =~= old(self)@.slots);
        }
    }
}

} // verus!
