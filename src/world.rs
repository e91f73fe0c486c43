//! The data plane: the entity allocator, one sparse storage per component
//! kind, kept in lock-step, and the shared per-frame input and field size.
//!
//! The component kinds are type parameters: `T` a position, `V` a velocity,
//! `B` a wall-bounce collider, `S` a spin; `F` is the arena size.
use vstd::prelude::*;
use crate::entity::{AllocatorModel, EntityAllocator, EntityId};
use crate::input::InputBits;
use crate::query::{pair_bound, QueryIter};
use crate::storage::{clear_slot, cleared, ensure_covers, grown, slot_value, slot_value_mut, store, stored};

verus! {

pub struct World<F, T, V, B, S> {
    transforms: Vec<Option<T>>,
    velocities: Vec<Option<V>>,
    wall_bounce_colliders: Vec<Option<B>>,
    spins: Vec<Option<S>>,
    input: InputBits,
    field: F,
    allocator: EntityAllocator,
}

impl<F, T, V, B, S> World<F, T, V, B, S> {
    pub closed spec fn transform_slots(&self) -> Seq<Option<T>> {
        self.transforms@
    }

    pub closed spec fn velocity_slots(&self) -> Seq<Option<V>> {
        self.velocities@
    }

    pub closed spec fn collider_slots(&self) -> Seq<Option<B>> {
        self.wall_bounce_colliders@
    }

    pub closed spec fn spin_slots(&self) -> Seq<Option<S>> {
        self.spins@
    }

    /// The control bits of the current frame.
    pub closed spec fn input_state(&self) -> InputBits {
        self.input
    }

    /// The arena size, fixed at construction.
    pub closed spec fn field_state(&self) -> F {
        self.field
    }

    pub closed spec fn allocator_state(&self) -> AllocatorModel {
        self.allocator@
    }

    /// The common length of every storage.
    pub open spec fn slot_count(&self) -> int {
        self.transform_slots().len() as int
    }

    /// All storages have one length, and it covers at most every `u32` id.
    pub open spec fn wf(&self) -> bool {
        &&& self.velocity_slots().len() == self.slot_count()
        &&& self.collider_slots().len() == self.slot_count()
        &&& self.spin_slots().len() == self.slot_count()
        &&& self.slot_count() <= u32::MAX + 1
    }

    /// An empty world over the given field.
    pub fn new(field: F) -> (r: World<F, T, V, B, S>)
        ensures
            r.wf(),
            r.slot_count() == 0,
            r.allocator_state() == AllocatorModel::fresh(),
            r.input_state() == (InputBits { bits: 0 }),
            r.field_state() == field,
    {
        World {
            transforms: Vec::new(),
            velocities: Vec::new(),
            wall_bounce_colliders: Vec::new(),
            spins: Vec::new(),
            input: InputBits { bits: 0 },
            field,
            allocator: EntityAllocator::new(),
        }
    }

    /// The number of slots in each storage.
    pub fn len(&self) -> (r: usize)
        requires
            self.wf(),
        ensures
            r == self.slot_count(),
    {
        self.transforms.len()
    }

    /// Grows every storage to cover slot `idx`.
    fn ensure_capacity(&mut self, idx: usize)
        requires
            old(self).wf(),
            idx <= u32::MAX,
        ensures
            final(self).wf(),
            final(self).transform_slots() == grown(old(self).transform_slots(), idx + 1),
            final(self).velocity_slots() == grown(old(self).velocity_slots(), idx + 1),
            final(self).collider_slots() == grown(old(self).collider_slots(), idx + 1),
            final(self).spin_slots() == grown(old(self).spin_slots(), idx + 1),
            final(self).allocator_state() == old(self).allocator_state(),
            final(self).input_state() == old(self).input_state(),
            final(self).field_state() == old(self).field_state(),
    {
        ensure_covers(&mut self.transforms, idx);
        ensure_covers(&mut self.velocities, idx);
        ensure_covers(&mut self.wall_bounce_colliders, idx);
        ensure_covers(&mut self.spins, idx);
    }

    /// Allocates an entity and gives it an empty slot in every storage.
    pub fn spawn(&mut self) -> (r: EntityId)
        requires
            old(self).wf(),
        ensures
            final(self).wf(),
            (final(self).allocator_state(), r.0) == old(self).allocator_state().alloc_step(),
            (r.0 as int) < final(self).slot_count(),
            final(self).transform_slots() == grown(old(self).transform_slots(), r.0 + 1),
            final(self).velocity_slots() == grown(old(self).velocity_slots(), r.0 + 1),
            final(self).collider_slots() == grown(old(self).collider_slots(), r.0 + 1),
            final(self).spin_slots() == grown(old(self).spin_slots(), r.0 + 1),
            final(self).input_state() == old(self).input_state(),
            final(self).field_state() == old(self).field_state(),
    {
        let entity = self.allocator.allocate();
        self.ensure_capacity(entity.0 as usize);
        entity
    }

    /// Empties the entity's slot in every storage and releases its id.
    pub fn despawn(&mut self, entity: EntityId)
        requires
            old(self).wf(),
        ensures
            final(self).wf(),
            final(self).allocator_state() == old(self).allocator_state().free_step(entity.0),
            final(self).transform_slots() == cleared(old(self).transform_slots(), entity.0 as int),
            final(self).velocity_slots() == cleared(old(self).velocity_slots(), entity.0 as int),
            final(self).collider_slots() == cleared(old(self).collider_slots(), entity.0 as int),
            final(self).spin_slots() == cleared(old(self).spin_slots(), entity.0 as int),
            final(self).input_state() == old(self).input_state(),
            final(self).field_state() == old(self).field_state(),
    {
        let idx = entity.0 as usize;
        clear_slot(&mut self.transforms, idx);
        clear_slot(&mut self.velocities, idx);
        clear_slot(&mut self.wall_bounce_colliders, idx);
        clear_slot(&mut self.spins, idx);
        self.allocator.free(entity);
    }

    pub fn set_transform(&mut self, entity: EntityId, value: T)
        requires
            old(self).wf(),
        ensures
            final(self).wf(),
            final(self).transform_slots() == stored(old(self).transform_slots(), entity.0 as int, value),
            final(self).velocity_slots() == grown(old(self).velocity_slots(), entity.0 + 1),
            final(self).collider_slots() == grown(old(self).collider_slots(), entity.0 + 1),
            final(self).spin_slots() == grown(old(self).spin_slots(), entity.0 + 1),
            final(self).allocator_state() == old(self).allocator_state(),
            final(self).input_state() == old(self).input_state(),
            final(self).field_state() == old(self).field_state(),
    {
        let idx = entity.0 as usize;
        self.ensure_capacity(idx);
        store(&mut self.transforms, idx, value);
    }

    pub fn set_velocity(&mut self, entity: EntityId, value: V)
        requires
            old(self).wf(),
        ensures
            final(self).wf(),
            final(self).transform_slots() == grown(old(self).transform_slots(), entity.0 + 1),
            final(self).velocity_slots() == stored(old(self).velocity_slots(), entity.0 as int, value),
            final(self).collider_slots() == grown(old(self).collider_slots(), entity.0 + 1),
            final(self).spin_slots() == grown(old(self).spin_slots(), entity.0 + 1),
            final(self).allocator_state() == old(self).allocator_state(),
            final(self).input_state() == old(self).input_state(),
            final(self).field_state() == old(self).field_state(),
    {
        let idx = entity.0 as usize;
        self.ensure_capacity(idx);
        store(&mut self.velocities, idx, value);
    }

    pub fn set_wall_bounce_collider(&mut self, entity: EntityId, value: B)
        requires
            old(self).wf(),
        ensures
            final(self).wf(),
            final(self).transform_slots() == grown(old(self).transform_slots(), entity.0 + 1),
            final(self).velocity_slots() == grown(old(self).velocity_slots(), entity.0 + 1),
            final(self).collider_slots() == stored(old(self).collider_slots(), entity.0 as int, value),
            final(self).spin_slots() == grown(old(self).spin_slots(), entity.0 + 1),
            final(self).allocator_state() == old(self).allocator_state(),
            final(self).input_state() == old(self).input_state(),
            final(self).field_state() == old(self).field_state(),
    {
        let idx = entity.0 as usize;
        self.ensure_capacity(idx);
        store(&mut self.wall_bounce_colliders, idx, value);
    }

    pub fn set_spin(&mut self, entity: EntityId, value: S)
        requires
            old(self).wf(),
        ensures
            final(self).wf(),
            final(self).transform_slots() == grown(old(self).transform_slots(), entity.0 + 1),
            final(self).velocity_slots() == grown(old(self).velocity_slots(), entity.0 + 1),
            final(self).collider_slots() == grown(old(self).collider_slots(), entity.0 + 1),
            final(self).spin_slots() == stored(old(self).spin_slots(), entity.0 as int, value),
            final(self).allocator_state() == old(self).allocator_state(),
            final(self).input_state() == old(self).input_state(),
            final(self).field_state() == old(self).field_state(),
    {
        let idx = entity.0 as usize;
        self.ensure_capacity(idx);
        store(&mut self.spins, idx, value);
    }

    /// The entity's position; the slot must be occupied.
    pub fn transform(&self, entity: EntityId) -> (r: &T)
        requires
            (entity.0 as int) < self.transform_slots().len(),
            self.transform_slots()[entity.0 as int] is Some,
        ensures
            self.transform_slots()[entity.0 as int] == Some(*r),
    {
        slot_value(&self.transforms, entity.0 as usize)
    }

    /// The entity's velocity; the slot must be occupied.
    pub fn velocity(&self, entity: EntityId) -> (r: &V)
        requires
            (entity.0 as int) < self.velocity_slots().len(),
            self.velocity_slots()[entity.0 as int] is Some,
        ensures
            self.velocity_slots()[entity.0 as int] == Some(*r),
    {
        slot_value(&self.velocities, entity.0 as usize)
    }

    /// The entity's wall-bounce collider; the slot must be occupied.
    pub fn wall_bounce_collider(&self, entity: EntityId) -> (r: &B)
        requires
            (entity.0 as int) < self.collider_slots().len(),
            self.collider_slots()[entity.0 as int] is Some,
        ensures
            self.collider_slots()[entity.0 as int] == Some(*r),
    {
        slot_value(&self.wall_bounce_colliders, entity.0 as usize)
    }

    /// The entity's spin; the slot must be occupied.
    pub fn spin(&self, entity: EntityId) -> (r: &S)
        requires
            (entity.0 as int) < self.spin_slots().len(),
            self.spin_slots()[entity.0 as int] is Some,
        ensures
            self.spin_slots()[entity.0 as int] == Some(*r),
    {
        slot_value(&self.spins, entity.0 as usize)
    }

    /// Mutable access to the entity's position; the slot must be occupied.
    pub fn transform_mut(&mut self, entity: EntityId) -> (r: &mut T)
        requires
            old(self).wf(),
            (entity.0 as int) < old(self).transform_slots().len(),
            old(self).transform_slots()[entity.0 as int] is Some,
        ensures
            final(self).wf(),
            old(self).transform_slots()[entity.0 as int] == Some(*r),
            final(self).transform_slots() == old(self).transform_slots().update(entity.0 as int, Some(*final(r))),
            final(self).velocity_slots() == old(self).velocity_slots(),
            final(self).collider_slots() == old(self).collider_slots(),
            final(self).spin_slots() == old(self).spin_slots(),
            final(self).allocator_state() == old(self).allocator_state(),
            final(self).input_state() == old(self).input_state(),
            final(self).field_state() == old(self).field_state(),
    {
        slot_value_mut(&mut self.transforms, entity.0 as usize)
    }

    /// Mutable access to the entity's velocity; the slot must be occupied.
    pub fn velocity_mut(&mut self, entity: EntityId) -> (r: &mut V)
        requires
            old(self).wf(),
            (entity.0 as int) < old(self).velocity_slots().len(),
            old(self).velocity_slots()[entity.0 as int] is Some,
        ensures
            final(self).wf(),
            old(self).velocity_slots()[entity.0 as int] == Some(*r),
            final(self).velocity_slots() == old(self).velocity_slots().update(entity.0 as int, Some(*final(r))),
            final(self).transform_slots() == old(self).transform_slots(),
            final(self).collider_slots() == old(self).collider_slots(),
            final(self).spin_slots() == old(self).spin_slots(),
            final(self).allocator_state() == old(self).allocator_state(),
            final(self).input_state() == old(self).input_state(),
            final(self).field_state() == old(self).field_state(),
    {
        slot_value_mut(&mut self.velocities, entity.0 as usize)
    }

    /// Mutable access to the entity's wall-bounce collider; the slot must be occupied.
    pub fn wall_bounce_collider_mut(&mut self, entity: EntityId) -> (r: &mut B)
        requires
            old(self).wf(),
            (entity.0 as int) < old(self).collider_slots().len(),
            old(self).collider_slots()[entity.0 as int] is Some,
        ensures
            final(self).wf(),
            old(self).collider_slots()[entity.0 as int] == Some(*r),
            final(self).collider_slots() == old(self).collider_slots().update(entity.0 as int, Some(*final(r))),
            final(self).transform_slots() == old(self).transform_slots(),
            final(self).velocity_slots() == old(self).velocity_slots(),
            final(self).spin_slots() == old(self).spin_slots(),
            final(self).allocator_state() == old(self).allocator_state(),
            final(self).input_state() == old(self).input_state(),
            final(self).field_state() == old(self).field_state(),
    {
        slot_value_mut(&mut self.wall_bounce_colliders, entity.0 as usize)
    }

    /// Mutable access to the entity's spin; the slot must be occupied.
    pub fn spin_mut(&mut self, entity: EntityId) -> (r: &mut S)
        requires
            old(self).wf(),
            (entity.0 as int) < old(self).spin_slots().len(),
            old(self).spin_slots()[entity.0 as int] is Some,
        ensures
            final(self).wf(),
            old(self).spin_slots()[entity.0 as int] == Some(*r),
            final(self).spin_slots() == old(self).spin_slots().update(entity.0 as int, Some(*final(r))),
            final(self).transform_slots() == old(self).transform_slots(),
            final(self).velocity_slots() == old(self).velocity_slots(),
            final(self).collider_slots() == old(self).collider_slots(),
            final(self).allocator_state() == old(self).allocator_state(),
            final(self).input_state() == old(self).input_state(),
            final(self).field_state() == old(self).field_state(),
    {
        slot_value_mut(&mut self.spins, entity.0 as usize)
    }

    pub fn transforms(&self) -> (r: &Vec<Option<T>>)
        ensures
            r@ == self.transform_slots(),
    {
        &self.transforms
    }

    pub fn velocities(&self) -> (r: &Vec<Option<V>>)
        ensures
            r@ == self.velocity_slots(),
    {
        &self.velocities
    }

    pub fn wall_bounce_colliders(&self) -> (r: &Vec<Option<B>>)
        ensures
            r@ == self.collider_slots(),
    {
        &self.wall_bounce_colliders
    }

    pub fn spins(&self) -> (r: &Vec<Option<S>>)
        ensures
            r@ == self.spin_slots(),
    {
        &self.spins
    }

    pub fn input(&self) -> (r: InputBits)
        ensures
            r == self.input_state(),
    {
        self.input
    }

    /// Records the control bits of a new frame; nothing else changes.
    pub fn set_input(&mut self, bits: u32)
        ensures
            final(self).input_state() == (InputBits { bits }),
            final(self).field_state() == old(self).field_state(),
            final(self).allocator_state() == old(self).allocator_state(),
            final(self).transform_slots() == old(self).transform_slots(),
            final(self).velocity_slots() == old(self).velocity_slots(),
            final(self).collider_slots() == old(self).collider_slots(),
            final(self).spin_slots() == old(self).spin_slots(),
    {
        self.input = InputBits { bits };
    }

    pub fn field(&self) -> (r: &F)
        ensures
            *r == self.field_state(),
    {
        &self.field
    }

    /// Entities that have both a position and a velocity, in ascending id order.
    pub fn query_transform_velocity(&self) -> (r: QueryIter<'_, T, V>)
        requires
            self.wf(),
        ensures
            r.wf(),
            r.left() == self.transform_slots(),
            r.right() == self.velocity_slots(),
            r.position() == 0,
    {
        QueryIter::new(&self.transforms, &self.velocities)
    }
}

} // verus!
